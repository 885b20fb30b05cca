use vstd::prelude::*;
use vstd::utf8::encode_utf8;
use crate::error::{FlowError, ProtocolViolation, ValidationError, ValidationErrorModel};
use crate::model::{ChoiceOption, ChoiceOptionModel, RegexRule, RegexRuleModel};

verus! {

/// `regex::Error`, the reason why a pattern does not compile. Nothing is
/// known of its contents here.
#[verifier::external_type_specification]
#[verifier::external_body]
pub struct ExRegexError(regex::Error);

/// What the `regex` crate says of a pattern and a text: `None` where the
/// pattern does not compile, else whether the pattern matches somewhere in
/// the text.
pub uninterp spec fn regex_match(pattern: Seq<char>, text: Seq<char>) -> Option<bool>;

/// Compiles `pattern` with `regex::Regex::new` and, where that succeeds,
/// searches `text` with `Regex::is_match`. The contract only gives the outcome
/// its name: it depends on the two strings alone, and an error is returned
/// exactly where the pattern does not compile.
#[verifier::external_body]
fn search_pattern(pattern: &str, text: &str) -> (res: Result<bool, regex::Error>)
    ensures
        match res {
            Ok(found) => regex_match(pattern@, text@) == Some(found),
            Err(_) => regex_match(pattern@, text@) is None,
        },
{
    match regex::Regex::new(pattern) {
        Ok(re) => Ok(re.is_match(text)),
        Err(e) => Err(e),
    }
}

/// The length that the bounds of a text input speak of: bytes of UTF-8.
pub open spec fn byte_length(text: Seq<char>) -> nat {
    encode_utf8(text).len()
}

/// Whether the text is neither shorter than `min_length` nor longer than
/// `max_length`.
pub open spec fn length_in_bounds(text: Seq<char>, min_length: int, max_length: int) -> bool {
    min_length <= byte_length(text) <= max_length
}

/// What one rule says once its pattern has been searched for: nothing where
/// the pattern matched, the rule's message where it did not, and `BadPattern`
/// where the pattern did not compile.
pub open spec fn rule_failure(outcome: Option<bool>, message: Seq<char>) -> Option<
    ValidationErrorModel,
> {
    match outcome {
        Some(true) => None,
        Some(false) => Some(ValidationErrorModel::Pattern { message }),
        None => Some(ValidationErrorModel::BadPattern),
    }
}

/// Whether `rule` accepts `text`.
pub open spec fn rule_passes(text: Seq<char>, rule: RegexRuleModel) -> bool {
    regex_match(rule.regex, text) == Some(true)
}

/// The least index below `upto` of a rule that does not accept `text`.
pub open spec fn first_failing(text: Seq<char>, rules: Seq<RegexRuleModel>, upto: int) -> Option<
    int,
>
    decreases upto,
{
    if upto <= 0 {
        None
    } else {
        match first_failing(text, rules, upto - 1) {
            Some(i) => Some(i),
            None => if rule_passes(text, rules[upto - 1]) {
                None
            } else {
                Some(upto - 1)
            },
        }
    }
}

/// The verdict on a text that is not sensitive: the length is judged first,
/// then the rules in their order, and the first failure is the one reported.
pub open spec fn validation(
    text: Seq<char>,
    min_length: int,
    max_length: int,
    rules: Seq<RegexRuleModel>,
) -> Option<ValidationErrorModel> {
    if !length_in_bounds(text, min_length, max_length) {
        Some(
            ValidationErrorModel::Length { min_length, max_length, length: byte_length(text) },
        )
    } else {
        match first_failing(text, rules, rules.len() as int) {
            Some(i) => rule_failure(regex_match(rules[i].regex, text), rules[i].message),
            None => None,
        }
    }
}

/// The outcome of collecting a text: a sensitive one is taken as entered, any
/// other is validated.
pub open spec fn text_outcome(
    text: Seq<char>,
    min_length: int,
    max_length: int,
    rules: Seq<RegexRuleModel>,
    sensitive: bool,
) -> Option<ValidationErrorModel> {
    if sensitive {
        None
    } else {
        validation(text, min_length, max_length, rules)
    }
}

/// A failing rule found below `upto` is still the first one below any later
/// bound.
pub proof fn lemma_first_failing_stays(
    text: Seq<char>,
    rules: Seq<RegexRuleModel>,
    upto: int,
    later: int,
)
    requires
        first_failing(text, rules, upto) is Some,
        upto <= later,
    ensures
        first_failing(text, rules, later) == first_failing(text, rules, upto),
    decreases later - upto,
{
    if upto < later {
        lemma_first_failing_stays(text, rules, upto, later - 1);
    }
}

/// What `first_failing` finds is a rule that fails, below the bound, with
/// only passing rules before it; and it finds none only where all pass.
pub proof fn lemma_first_failing_least(text: Seq<char>, rules: Seq<RegexRuleModel>, upto: int)
    ensures
        match first_failing(text, rules, upto) {
            Some(i) => 0 <= i < upto && !rule_passes(text, rules[i]) && forall|j: int|
                0 <= j < i ==> rule_passes(text, #[trigger] rules[j]),
            None => forall|j: int| 0 <= j < upto ==> rule_passes(text, #[trigger] rules[j]),
        },
    decreases upto,
{
    if upto > 0 {
        lemma_first_failing_least(text, rules, upto - 1);
    }
}

/// A text passes validation exactly when its length is within the bounds and
/// every rule matches it.
pub proof fn law_validation_accepts(
    text: Seq<char>,
    min_length: int,
    max_length: int,
    rules: Seq<RegexRuleModel>,
)
    ensures
        validation(text, min_length, max_length, rules) is None <==> (length_in_bounds(
            text,
            min_length,
            max_length,
        ) && forall|j: int| 0 <= j < rules.len() ==> rule_passes(text, #[trigger] rules[j])),
{
    lemma_first_failing_least(text, rules, rules.len() as int);
}

/// A text that is too short or too long is turned down for its length,
/// whatever the rules say.
pub proof fn law_length_is_judged_first(
    text: Seq<char>,
    min_length: int,
    max_length: int,
    rules: Seq<RegexRuleModel>,
)
    requires
        byte_length(text) < min_length || byte_length(text) > max_length,
    ensures
        validation(text, min_length, max_length, rules) == Some(
            ValidationErrorModel::Length { min_length, max_length, length: byte_length(text) },
        ),
{
}

/// A sensitive text is never turned down.
pub proof fn law_sensitive_is_unconstrained(
    text: Seq<char>,
    min_length: int,
    max_length: int,
    rules: Seq<RegexRuleModel>,
)
    ensures
        text_outcome(text, min_length, max_length, rules, true) is None,
{
}

/// Turns the outcome of one pattern search into the rule's verdict.
pub fn rule_verdict(outcome: Option<bool>, message: &String) -> (res: Result<(), ValidationError>)
    ensures
        match res {
            Ok(()) => rule_failure(outcome, message@) is None,
            Err(e) => rule_failure(outcome, message@) == Some(e.deep_view()),
        },
{
    match outcome {
        Some(true) => Ok(()),
        Some(false) => Err(ValidationError::Pattern { message: message.clone() }),
        None => Err(ValidationError::BadPattern),
    }
}

/// Judges an entered text against the bounds on its length and against every
/// rule, in that order.
pub fn validate_text(s: &str, min_length: i32, max_length: i32, regexes: &Vec<RegexRule>) -> (res:
    Result<(), ValidationError>)
    ensures
        match res {
            Ok(()) => validation(s@, min_length as int, max_length as int, regexes.deep_view())
                is None,
            Err(e) => validation(s@, min_length as int, max_length as int, regexes.deep_view())
                == Some(e.deep_view()),
        },
{
    let len: usize = s.as_bytes().len();
    let too_short: bool = min_length > 0 && (min_length as usize) > len;
    let too_long: bool = max_length < 0 || (max_length as usize) < len;
    if too_short || too_long {
        return Err(ValidationError::Length { min_length, max_length, length: len });
    }
    let ghost rules = regexes.deep_view();
    let mut i: usize = 0;
    while i < regexes.len()
        invariant
            0 <= i <= regexes.len(),
            rules == regexes.deep_view(),
            rules.len() == regexes.len(),
            length_in_bounds(s@, min_length as int, max_length as int),
            first_failing(s@, rules, i as int) is None,
        decreases regexes.len() - i,
    {
        let rule = &regexes[i];
        assert(rules[i as int] == rule.deep_view());
        let outcome: Option<bool> = match search_pattern(rule.regex.as_str(), s) {
            Ok(found) => Some(found),
            Err(_) => None,
        };
        match rule_verdict(outcome, &rule.message) {
            Ok(()) => {},
            Err(e) => {
                proof {
                    assert(first_failing(s@, rules, i + 1) == Some(i as int));
                    lemma_first_failing_stays(s@, rules, i + 1, rules.len() as int);
                }
                return Err(e);
            },
        }
        i = i + 1;
    }
    Ok(())
}

/// Decides on a text that the operator entered: a sensitive text is accepted
/// as it is, any other only if it passes validation. A text that is turned
/// down is to be asked for again.
pub fn text_input(
    entered: String,
    min_length: i32,
    max_length: i32,
    regexes: &Vec<RegexRule>,
    sensitive: bool,
) -> (res: Result<String, ValidationError>)
    ensures
        match res {
            Ok(text) => text@ == entered@ && text_outcome(
                entered@,
                min_length as int,
                max_length as int,
                regexes.deep_view(),
                sensitive,
            ) is None,
            Err(e) => text_outcome(
                entered@,
                min_length as int,
                max_length as int,
                regexes.deep_view(),
                sensitive,
            ) == Some(e.deep_view()),
        },
{
    if sensitive {
        return Ok(entered);
    }
    match validate_text(entered.as_str(), min_length, max_length, regexes) {
        Ok(()) => Ok(entered),
        Err(e) => Err(e),
    }
}

/// The labels of a single-choice input, in the order of its options.
pub open spec fn option_labels(options: Seq<ChoiceOptionModel>) -> Seq<Seq<char>> {
    Seq::new(options.len(), |i: int| options[i].display_text)
}

/// What a selection resolves to: the id of the option at `index`, or a
/// protocol error where there is no such option.
pub open spec fn selection(options: Seq<ChoiceOptionModel>, index: int) -> Result<
    Seq<char>,
    FlowError,
> {
    if 0 <= index < options.len() {
        Ok(options[index].id)
    } else {
        Err(FlowError::ProtocolError(ProtocolViolation::NoSuchEntry))
    }
}

/// The texts to present for a single choice, one per option and in order.
pub fn choice_labels(options: &Vec<ChoiceOption>) -> (res: Vec<String>)
    ensures
        res.deep_view() == option_labels(options.deep_view()),
{
    let mut labels: Vec<String> = Vec::new();
    let mut i: usize = 0;
    while i < options.len()
        invariant
            0 <= i <= options.len(),
            labels.len() == i,
            forall|j: int| 0 <= j < i ==> (#[trigger] labels[j])@ == options[j].display_text@,
        decreases options.len() - i,
    {
        labels.push(options[i].display_text.clone());
        i = i + 1;
    }
    assert(labels.deep_view() =~= option_labels(options.deep_view()));
    labels
}

/// Resolves the operator's selection to the id of the chosen option: the id,
/// never the label.
pub fn select_input(options: &Vec<ChoiceOption>, index: usize) -> (res: Result<String, FlowError>)
    ensures
        match res {
            Ok(id) => selection(options.deep_view(), index as int) == Ok::<Seq<char>, FlowError>(
                id@,
            ),
            Err(e) => selection(options.deep_view(), index as int) == Err::<Seq<char>, FlowError>(
                e,
            ),
        },
{
    if index < options.len() {
        Ok(options[index].id.clone())
    } else {
        Err(FlowError::ProtocolError(ProtocolViolation::NoSuchEntry))
    }
}

} // verus!
