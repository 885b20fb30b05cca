use vstd::prelude::*;
use vstd::string::StringExecFns;
use crate::QuickPayClient;
use crate::error::{FlowError, ProtocolViolation};
use crate::flow::{
    Command, CommandModel, Event, EventModel, FlowState, FlowStateModel, InputKind, StartRequest,
    StartRequestModel,
};
use crate::inputs::{choice_labels, option_labels, select_input, selection, text_input, text_outcome};
use crate::model::{
    AdditionalInput, AdditionalInputModel, AuthorizationFlow, AuthorizationFlowModel, InputImage,
    InputImageModel, NextAction, NextActionModel, Provider, ProviderModel,
};
use crate::picture::{base64_decoded, image_bytes, inline_image};
use crate::providers::{all_mapped, offer_providers, offered, offered_ids, offered_labels};
use crate::submission::Submission;

verus! {

/// The capabilities declared at the start of a flow: provider selection,
/// redirect with the configured return address, consent, and forms with
/// text, text-with-image and single-choice inputs.
pub open spec fn start_capabilities(redirect_uri: Seq<char>) -> StartRequestModel {
    StartRequestModel {
        provider_selection: true,
        redirect_return_uri: Some(redirect_uri),
        consent: true,
        form_input_types: Some(seq![InputKind::Text, InputKind::TextWithImage, InputKind::Select]),
    }
}

/// The line that tells the operator where to complete the authorization.
pub open spec fn redirect_notice(uri: Seq<char>) -> Seq<char> {
    "Authorisation link: \n"@ + uri + "\n"@
}

/// The end of a flow by failure.
pub open spec fn aborted(error: FlowError) -> (FlowStateModel, CommandModel) {
    (FlowStateModel::Terminated, CommandModel::Abort { error })
}

/// Provider selection: the eligible providers are offered under their
/// labels, and their ids are kept for the answer.
pub open spec fn provider_selection_step(providers: Seq<ProviderModel>) -> (
    FlowStateModel,
    CommandModel,
) {
    if all_mapped(offered(providers)) {
        (
            FlowStateModel::ChoosingProvider { ids: offered_ids(providers) },
            CommandModel::SelectProvider {
                prompt: "Select provider"@,
                labels: offered_labels(providers),
            },
        )
    } else {
        aborted(FlowError::ProtocolError(ProtocolViolation::UnmappedCountry))
    }
}

/// What the operator's choice of a provider leads to: the submission of the
/// id at that position of the offer.
pub open spec fn provider_choice_step(ids: Seq<Seq<char>>, index: int) -> (
    FlowStateModel,
    CommandModel,
) {
    if 0 <= index < ids.len() {
        (
            FlowStateModel::AwaitingResponse,
            CommandModel::SubmitProviderSelection { provider_id: ids[index] },
        )
    } else {
        aborted(FlowError::ProtocolError(ProtocolViolation::NoSuchEntry))
    }
}

/// Consent given is submitted; consent refused ends the flow.
pub open spec fn consent_step(consent: bool) -> (FlowStateModel, CommandModel) {
    if consent {
        (FlowStateModel::AwaitingResponse, CommandModel::SubmitConsent)
    } else {
        aborted(FlowError::ConsentDeclined)
    }
}

/// A redirect is shown to the operator and ends the flow.
pub open spec fn redirect_step(uri: Seq<char>) -> (FlowStateModel, CommandModel) {
    (FlowStateModel::Terminated, CommandModel::ShowRedirect { uri, notice: redirect_notice(uri) })
}

/// The prompt for one form input, or the error that the input causes: a
/// remote image is not supported, an inline image has to decode.
pub open spec fn input_prompt(input: AdditionalInputModel) -> Result<CommandModel, FlowError> {
    match input {
        AdditionalInputModel::Text { display_text, sensitive, .. } => Ok(
            CommandModel::AskText { display_text, sensitive, image: None, rejection: None },
        ),
        AdditionalInputModel::TextWithImage { display_text, sensitive, image, .. } => match image {
            InputImageModel::Uri { .. } => Err(FlowError::UnsupportedInput),
            InputImageModel::Base64 { data } => match image_bytes(base64_decoded(data)) {
                Ok(bytes) => Ok(
                    CommandModel::AskText {
                        display_text,
                        sensitive,
                        image: Some(bytes),
                        rejection: None,
                    },
                ),
                Err(e) => Err(e),
            },
        },
        AdditionalInputModel::Select { display_text, options, .. } => Ok(
            CommandModel::AskChoice { display_text, labels: option_labels(options) },
        ),
    }
}

/// The form from `position` on: the input there is asked for, and once no
/// input is left the answers are submitted as one batch.
pub open spec fn form_step(
    inputs: Seq<AdditionalInputModel>,
    position: int,
    answers: Map<Seq<char>, Seq<char>>,
) -> (FlowStateModel, CommandModel) {
    if position >= inputs.len() {
        (FlowStateModel::AwaitingResponse, CommandModel::SubmitForm { inputs: answers })
    } else {
        match input_prompt(inputs[position]) {
            Ok(command) => (FlowStateModel::FillingForm { inputs, position, answers }, command),
            Err(error) => aborted(error),
        }
    }
}

/// What an answer to a form input comes to.
pub enum Verdict {
    /// The answer is stored under the input's id.
    Accepted { id: Seq<char>, answer: Seq<char> },
    /// The answer is turned down and asked for again.
    Rejected { command: CommandModel },
    /// The flow fails.
    Fatal { error: FlowError },
}

/// The verdict on an entered text. Only an input that takes text accepts
/// one; a text that fails validation is asked for again, with the reason.
pub open spec fn text_verdict(input: AdditionalInputModel, text: Seq<char>) -> Verdict {
    match input {
        AdditionalInputModel::Text { id, display_text, sensitive, min_length, max_length, regexes }
        | AdditionalInputModel::TextWithImage {
            id,
            display_text,
            sensitive,
            min_length,
            max_length,
            regexes,
            ..
        } => match text_outcome(text, min_length, max_length, regexes, sensitive) {
            None => Verdict::Accepted { id, answer: text },
            Some(e) => Verdict::Rejected {
                command: CommandModel::AskText {
                    display_text,
                    sensitive,
                    image: None,
                    rejection: Some(e),
                },
            },
        },
        AdditionalInputModel::Select { .. } => Verdict::Fatal {
            error: FlowError::ProtocolError(ProtocolViolation::UnexpectedEvent),
        },
    }
}

/// The verdict on a selection. Only a single-choice input accepts one; what
/// is stored is the chosen option's id, not its label.
pub open spec fn choice_verdict(input: AdditionalInputModel, index: int) -> Verdict {
    match input {
        AdditionalInputModel::Select { id, options, .. } => match selection(options, index) {
            Ok(chosen) => Verdict::Accepted { id, answer: chosen },
            Err(error) => Verdict::Fatal { error },
        },
        _ => Verdict::Fatal { error: FlowError::ProtocolError(ProtocolViolation::UnexpectedEvent) },
    }
}

/// How a verdict moves the form on. A position that names no input of the
/// form is a state that no step leads to; an answer given there is
/// unexpected.
pub open spec fn verdict_step(
    inputs: Seq<AdditionalInputModel>,
    position: int,
    answers: Map<Seq<char>, Seq<char>>,
    verdict: Verdict,
) -> (FlowStateModel, CommandModel) {
    if !(0 <= position < inputs.len()) {
        aborted(FlowError::ProtocolError(ProtocolViolation::UnexpectedEvent))
    } else {
        match verdict {
            Verdict::Accepted { id, answer } => form_step(
                inputs,
                position + 1,
                answers.insert(id, answer),
            ),
            Verdict::Rejected { command } => (
                FlowStateModel::FillingForm { inputs, position, answers },
                command,
            ),
            Verdict::Fatal { error } => aborted(error),
        }
    }
}

/// What a response of the service leads to: the handler of its next action.
/// No flow state ends the flow; a flow state without actions is a protocol
/// violation.
pub open spec fn response_step(flow: Option<AuthorizationFlowModel>) -> (
    FlowStateModel,
    CommandModel,
) {
    match flow {
        None => (FlowStateModel::Terminated, CommandModel::Finish),
        Some(flow) => match flow.next {
            None => aborted(FlowError::ProtocolError(ProtocolViolation::MissingActions)),
            Some(NextActionModel::ProviderSelection { providers }) => provider_selection_step(
                providers,
            ),
            Some(NextActionModel::Consent) => (
                FlowStateModel::Consenting,
                CommandModel::ConfirmConsent { prompt: "Submit consent"@ },
            ),
            Some(NextActionModel::Redirect { uri }) => redirect_step(uri),
            Some(NextActionModel::Form { inputs }) => form_step(inputs, 0, Map::empty()),
            Some(NextActionModel::Wait) => (FlowStateModel::Terminated, CommandModel::Finish),
        },
    }
}

/// The transition function of the driver. A failure reported by the caller
/// ends the flow with that failure; an event that does not answer what the
/// state is waiting for ends it as a protocol violation.
pub open spec fn step(redirect_uri: Seq<char>, state: FlowStateModel, event: EventModel) -> (
    FlowStateModel,
    CommandModel,
) {
    match (state, event) {
        (_, EventModel::InteractionFailed) => aborted(FlowError::InputError),
        (_, EventModel::RemoteFailed) => aborted(FlowError::RemoteError),
        (FlowStateModel::Idle, EventModel::Begin) => (
            FlowStateModel::AwaitingResponse,
            CommandModel::StartFlow { request: start_capabilities(redirect_uri) },
        ),
        (FlowStateModel::AwaitingResponse, EventModel::Response { flow }) => response_step(flow),
        (FlowStateModel::ChoosingProvider { ids }, EventModel::Selected { index }) => provider_choice_step(
            ids,
            index,
        ),
        (FlowStateModel::Consenting, EventModel::Confirmed { consent }) => consent_step(consent),
        (FlowStateModel::FillingForm { inputs, position, answers }, EventModel::Entered { text }) => verdict_step(
            inputs,
            position,
            answers,
            text_verdict(inputs[position], text),
        ),
        (
            FlowStateModel::FillingForm { inputs, position, answers },
            EventModel::Selected { index },
        ) => verdict_step(inputs, position, answers, choice_verdict(inputs[position], index)),
        (FlowStateModel::FillingForm { .. }, EventModel::ImageRejected) => aborted(
            FlowError::ProtocolError(ProtocolViolation::UndecodableImage),
        ),
        _ => aborted(FlowError::ProtocolError(ProtocolViolation::UnexpectedEvent)),
    }
}

/// What an answer to a form input comes to: it is stored under the input's
/// id, or turned down and asked for again, or it fails the flow.
#[derive(Clone, Debug, PartialEq, Eq)]
pub enum Answer {
    Accepted { id: String, answer: String },
    Rejected { command: Command },
    Fatal { error: FlowError },
}

impl DeepView for Answer {
    type V = Verdict;

    open spec fn deep_view(&self) -> Verdict {
        match *self {
            Answer::Accepted { id, answer } => Verdict::Accepted { id: id@, answer: answer@ },
            Answer::Rejected { command } => Verdict::Rejected { command: command.deep_view() },
            Answer::Fatal { error } => Verdict::Fatal { error },
        }
    }
}

fn abort(error: FlowError) -> (res: (FlowState, Command))
    ensures
        (res.0.deep_view(), res.1.deep_view()) == aborted(error),
{
    (FlowState::Terminated, Command::Abort { error })
}

/// Builds the prompt for one form input.
pub fn prompt_for(input: &AdditionalInput) -> (res: Result<Command, FlowError>)
    ensures
        match res {
            Ok(command) => input_prompt(input.deep_view()) == Ok::<CommandModel, FlowError>(
                command.deep_view(),
            ),
            Err(e) => input_prompt(input.deep_view()) == Err::<CommandModel, FlowError>(e),
        },
{
    match input {
        AdditionalInput::Text { display_text, sensitive, .. } => Ok(
            Command::AskText {
                display_text: display_text.clone(),
                sensitive: *sensitive,
                image: None,
                rejection: None,
            },
        ),
        AdditionalInput::TextWithImage { display_text, sensitive, image, .. } => match image {
            InputImage::Uri { .. } => Err(FlowError::UnsupportedInput),
            InputImage::Base64 { data } => match inline_image(data.as_str()) {
                Ok(bytes) => Ok(
                    Command::AskText {
                        display_text: display_text.clone(),
                        sensitive: *sensitive,
                        image: Some(bytes),
                        rejection: None,
                    },
                ),
                Err(e) => Err(e),
            },
        },
        AdditionalInput::Select { display_text, options, .. } => Ok(
            Command::AskChoice {
                display_text: display_text.clone(),
                labels: choice_labels(options),
            },
        ),
    }
}

/// Asks for the input at `position`, or submits the answers once every input
/// is answered.
pub fn continue_form(inputs: Vec<AdditionalInput>, position: usize, answers: Submission) -> (res: (
    FlowState,
    Command,
))
    ensures
        (res.0.deep_view(), res.1.deep_view()) == form_step(
            inputs.deep_view(),
            position as int,
            answers@,
        ),
{
    if position >= inputs.len() {
        return (FlowState::AwaitingResponse, Command::SubmitForm { inputs: answers });
    }
    assert(inputs.deep_view()[position as int] == inputs[position as int].deep_view());
    match prompt_for(&inputs[position]) {
        Ok(command) => (FlowState::FillingForm { inputs, position, answers }, command),
        Err(error) => abort(error),
    }
}

/// Judges a text that the operator entered for `input`.
pub fn answer_text(input: &AdditionalInput, text: String) -> (res: Answer)
    ensures
        res.deep_view() == text_verdict(input.deep_view(), text@),
{
    match input {
        AdditionalInput::Text { id, display_text, sensitive, min_length, max_length, regexes }
        | AdditionalInput::TextWithImage {
            id,
            display_text,
            sensitive,
            min_length,
            max_length,
            regexes,
            ..
        } => match text_input(text, *min_length, *max_length, regexes, *sensitive) {
            Ok(answer) => Answer::Accepted { id: id.clone(), answer },
            Err(e) => Answer::Rejected {
                command: Command::AskText {
                    display_text: display_text.clone(),
                    sensitive: *sensitive,
                    image: None,
                    rejection: Some(e),
                },
            },
        },
        AdditionalInput::Select { .. } => Answer::Fatal {
            error: FlowError::ProtocolError(ProtocolViolation::UnexpectedEvent),
        },
    }
}

/// Resolves a selection that the operator made for `input`.
pub fn answer_choice(input: &AdditionalInput, index: usize) -> (res: Answer)
    ensures
        res.deep_view() == choice_verdict(input.deep_view(), index as int),
{
    match input {
        AdditionalInput::Select { id, options, .. } => match select_input(options, index) {
            Ok(chosen) => Answer::Accepted { id: id.clone(), answer: chosen },
            Err(error) => Answer::Fatal { error },
        },
        _ => Answer::Fatal { error: FlowError::ProtocolError(ProtocolViolation::UnexpectedEvent) },
    }
}

/// Moves the form on by one answer.
pub fn apply_answer(
    inputs: Vec<AdditionalInput>,
    position: usize,
    answers: Submission,
    answer: Answer,
) -> (res: (FlowState, Command))
    ensures
        (res.0.deep_view(), res.1.deep_view()) == verdict_step(
            inputs.deep_view(),
            position as int,
            answers@,
            answer.deep_view(),
        ),
{
    if position >= inputs.len() {
        return abort(FlowError::ProtocolError(ProtocolViolation::UnexpectedEvent));
    }
    match answer {
        Answer::Accepted { id, answer } => {
            continue_form(inputs, position + 1, answers.insert(id, answer))
        },
        Answer::Rejected { command } => (FlowState::FillingForm { inputs, position, answers }, command),
        Answer::Fatal { error } => abort(error),
    }
}

impl QuickPayClient {
    /// The capabilities that this client declares when it starts a flow.
    pub fn start_request(&self) -> (res: StartRequest)
        ensures
            res.deep_view() == start_capabilities(self.redirect_uri@),
    {
        let mut kinds: Vec<InputKind> = Vec::new();
        kinds.push(InputKind::Text);
        kinds.push(InputKind::TextWithImage);
        kinds.push(InputKind::Select);
        assert(kinds@ =~= seq![InputKind::Text, InputKind::TextWithImage, InputKind::Select]);
        StartRequest {
            provider_selection: true,
            redirect_return_uri: Some(self.redirect_uri.clone()),
            consent: true,
            form_input_types: Some(kinds),
        }
    }

    /// Offers the eligible providers for selection.
    pub fn handle_provider_selection(&self, providers: &Vec<Provider>) -> (res: (FlowState, Command))
        ensures
                (res.0.deep_view(), res.1.deep_view()) == provider_selection_step(providers.deep_view()),
    {
        match offer_providers(providers) {
            Ok(offer) => (
                FlowState::ChoosingProvider { ids: offer.ids },
                Command::SelectProvider {
                    prompt: String::from_str("Select provider"),
                    labels: offer.labels,
                },
            ),
            Err(error) => abort(error),
        }
    }

    /// Resolves the operator's choice among the offered providers.
    pub fn handle_provider_choice(&self, ids: &Vec<String>, index: usize) -> (res: (
        FlowState,
        Command,
    ))
        ensures
                (res.0.deep_view(), res.1.deep_view()) == provider_choice_step(
                ids.deep_view(),
                index as int,
            ),
    {
        if index < ids.len() {
            (
                FlowState::AwaitingResponse,
                Command::SubmitProviderSelection { provider_id: ids[index].clone() },
            )
        } else {
            abort(FlowError::ProtocolError(ProtocolViolation::NoSuchEntry))
        }
    }

    /// Acts on the operator's answer to the request for consent.
    pub fn handle_consent_action(&self, consent: bool) -> (res: (FlowState, Command))
        ensures
                (res.0.deep_view(), res.1.deep_view()) == consent_step(consent),
    {
        if consent {
            (FlowState::AwaitingResponse, Command::SubmitConsent)
        } else {
            abort(FlowError::ConsentDeclined)
        }
    }

    /// Opens a form: asks for its first input, or submits at once where it
    /// has none.
    pub fn handle_form_action(&self, inputs: Vec<AdditionalInput>) -> (res: (FlowState, Command))
        ensures
                (res.0.deep_view(), res.1.deep_view()) == form_step(
                inputs.deep_view(),
                0,
                Map::empty(),
            ),
    {
        continue_form(inputs, 0, Submission::new())
    }

    /// Words the notice that tells the operator where to complete the
    /// authorization. There is no further flow state after a redirect: how
    /// the payment ends is not known here.
    pub fn handle_redirect_action(&self, redirect_uri: &str) -> (res: (
        String,
        Option<AuthorizationFlow>,
    ))
        ensures
            res.0@ == redirect_notice(redirect_uri@),
            res.1 is None,
    {
        let notice = String::from_str("Authorisation link: \n").concat(redirect_uri).concat("\n");
        (notice, None)
    }

    /// Dispatches a response of the service to the handler of its next
    /// action.
    pub fn handle_response(&self, flow: Option<AuthorizationFlow>) -> (res: (FlowState, Command))
        ensures
                (res.0.deep_view(), res.1.deep_view()) == response_step(flow.deep_view()),
    {
        let flow = match flow {
            None => {
                return (FlowState::Terminated, Command::Finish);
            },
            Some(flow) => flow,
        };
        let next = match flow.actions {
            None => {
                return abort(FlowError::ProtocolError(ProtocolViolation::MissingActions));
            },
            Some(set) => set.next,
        };
        match next {
            NextAction::ProviderSelection { providers } => self.handle_provider_selection(&providers),
            NextAction::Consent => (
                FlowState::Consenting,
                Command::ConfirmConsent { prompt: String::from_str("Submit consent") },
            ),
            NextAction::Redirect { uri } => {
                let shown = self.handle_redirect_action(uri.as_str());
                (FlowState::Terminated, Command::ShowRedirect { uri, notice: shown.0 })
            },
            NextAction::Form { inputs } => self.handle_form_action(inputs),
            NextAction::Wait => (FlowState::Terminated, Command::Finish),
        }
    }

    /// One step of the authorization flow: from the state and what the
    /// caller reports, the next state and what the caller is to do. The
    /// caller starts in `Idle` with `Begin`, carries each command out, and
    /// reports its outcome, until the state is `Terminated`.
    pub fn handle_auth_flow(&self, state: FlowState, event: Event) -> (res: (FlowState, Command))
        ensures
                (res.0.deep_view(), res.1.deep_view()) == step(
                self.redirect_uri@,
                state.deep_view(),
                event.deep_view(),
            ),
    {
        match (state, event) {
            (_, Event::InteractionFailed) => abort(FlowError::InputError),
            (_, Event::RemoteFailed) => abort(FlowError::RemoteError),
            (FlowState::Idle, Event::Begin) => (
                FlowState::AwaitingResponse,
                Command::StartFlow { request: self.start_request() },
            ),
            (FlowState::AwaitingResponse, Event::Response { flow }) => self.handle_response(flow),
            (FlowState::ChoosingProvider { ids }, Event::Selected { index }) => self.handle_provider_choice(
                &ids,
                index,
            ),
            (FlowState::Consenting, Event::Confirmed { consent }) => self.handle_consent_action(
                consent,
            ),
            (FlowState::FillingForm { inputs, position, answers }, Event::Entered { text }) => {
                if position >= inputs.len() {
                    return abort(FlowError::ProtocolError(ProtocolViolation::UnexpectedEvent));
                }
                assert(inputs.deep_view()[position as int] == inputs[position as int].deep_view());
                let answer = answer_text(&inputs[position], text);
                apply_answer(inputs, position, answers, answer)
            },
            (FlowState::FillingForm { inputs, position, answers }, Event::Selected { index }) => {
                if position >= inputs.len() {
                    return abort(FlowError::ProtocolError(ProtocolViolation::UnexpectedEvent));
                }
                assert(inputs.deep_view()[position as int] == inputs[position as int].deep_view());
                let answer = answer_choice(&inputs[position], index);
                apply_answer(inputs, position, answers, answer)
            },
            (FlowState::FillingForm { .. }, Event::ImageRejected) => abort(
                FlowError::ProtocolError(ProtocolViolation::UndecodableImage),
            ),
            _ => abort(FlowError::ProtocolError(ProtocolViolation::UnexpectedEvent)),
        }
    }
}

} // verus!
