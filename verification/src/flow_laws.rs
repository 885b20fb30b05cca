use vstd::prelude::*;
use crate::auth_flow::{
    aborted, choice_verdict, consent_step, form_step, provider_selection_step, redirect_notice,
    step, text_verdict, verdict_step, Verdict,
};
use crate::error::{FlowError, ProtocolViolation};
use crate::flow::{CommandModel, EventModel, FlowStateModel};
use crate::inputs::text_outcome;
use crate::model::{AdditionalInputModel, AuthorizationFlowModel, NextActionModel, ProviderModel};
use crate::providers::{eligible, offered};

verus! {

/// The ids of the inputs before `upto`.
pub open spec fn answered_ids(inputs: Seq<AdditionalInputModel>, upto: int) -> Set<Seq<char>> {
    Set::new(
        |id: Seq<char>|
            exists|j: int| 0 <= j < upto && j < inputs.len() && (#[trigger] inputs[j]).id() == id,
    )
}

/// A state is consistent when, while a form is filled, the position names
/// one of its inputs and the answers are those to the inputs before it.
pub open spec fn consistent(state: FlowStateModel) -> bool {
    match state {
        FlowStateModel::FillingForm { inputs, position, answers } => 0 <= position < inputs.len()
            && answers.dom() =~= answered_ids(inputs, position),
        _ => true,
    }
}

/// A submission is complete for a form when it answers exactly the ids of
/// the form's inputs.
pub open spec fn complete(inputs: Seq<AdditionalInputModel>, command: CommandModel) -> bool {
    match command {
        CommandModel::SubmitForm { inputs: answers } => answers.dom() =~= answered_ids(
            inputs,
            inputs.len() as int,
        ),
        _ => true,
    }
}

/// Whatever the server lists, a provider selection either fails or offers
/// one label and one id for each eligible provider and for no other, and so
/// never more than were listed.
pub proof fn law_selection_offers_only_eligible(providers: Seq<ProviderModel>)
    ensures
        provider_selection_step(providers).1 matches CommandModel::SelectProvider { labels, .. }
            ==> labels.len() == offered(providers).len(),
        provider_selection_step(providers).0 matches FlowStateModel::ChoosingProvider { ids }
            ==> ids.len() == offered(providers).len() && forall|i: int|
            0 <= i < ids.len() ==> ids[i] == (#[trigger] offered(providers)[i]).id,
        provider_selection_step(providers).1 is SelectProvider || provider_selection_step(
            providers,
        ) == aborted(FlowError::ProtocolError(ProtocolViolation::UnmappedCountry)),
        offered(providers).len() <= providers.len(),
        forall|i: int| 0 <= i < offered(providers).len() ==> eligible(#[trigger] offered(providers)[i]),
{
    crate::providers::law_only_eligible_are_offered(providers);
}

/// Consent that is refused ends the flow with `ConsentDeclined`, and nothing
/// is submitted; the same holds however often it is asked.
pub proof fn law_declined_consent_aborts(redirect_uri: Seq<char>)
    ensures
        step(redirect_uri, FlowStateModel::Consenting, EventModel::Confirmed { consent: false })
            == aborted(FlowError::ConsentDeclined),
        consent_step(false).1 != CommandModel::SubmitConsent,
        consent_step(false).0 == FlowStateModel::Terminated,
{
}

/// A redirect and a wait end the flow at once: the redirect with the notice
/// of its address, the wait with nothing, and neither with a submission.
pub proof fn law_redirect_and_wait_terminate(redirect_uri: Seq<char>, uri: Seq<char>)
    ensures
        step(
            redirect_uri,
            FlowStateModel::AwaitingResponse,
            EventModel::Response {
                flow: Some(
                    AuthorizationFlowModel { next: Some(NextActionModel::Redirect { uri }) },
                ),
            },
        ) == (
            FlowStateModel::Terminated,
            CommandModel::ShowRedirect { uri, notice: redirect_notice(uri) },
        ),
        step(
            redirect_uri,
            FlowStateModel::AwaitingResponse,
            EventModel::Response {
                flow: Some(AuthorizationFlowModel { next: Some(NextActionModel::Wait) }),
            },
        ) == (FlowStateModel::Terminated, CommandModel::Finish),
{
}

/// Once terminated, the flow stays terminated and asks for nothing more.
pub proof fn law_terminated_is_final(redirect_uri: Seq<char>, event: EventModel)
    ensures
        step(redirect_uri, FlowStateModel::Terminated, event).0 == FlowStateModel::Terminated,
        step(redirect_uri, FlowStateModel::Terminated, event).1 is Abort,
{
}

/// A selection made for a single-choice input stores the chosen option's id
/// under the input's id, not the option's label, and the form moves on from
/// the next input.
pub proof fn law_select_stores_id(
    redirect_uri: Seq<char>,
    inputs: Seq<AdditionalInputModel>,
    position: int,
    answers: Map<Seq<char>, Seq<char>>,
    index: int,
)
    requires
        0 <= position < inputs.len(),
        inputs[position] matches AdditionalInputModel::Select { options, .. } && 0 <= index
            < options.len(),
    ensures
        inputs[position] matches AdditionalInputModel::Select { id, options, .. } && step(
            redirect_uri,
            FlowStateModel::FillingForm { inputs, position, answers },
            EventModel::Selected { index },
        ) == form_step(inputs, position + 1, answers.insert(id, options[index].id))
            && answers.insert(id, options[index].id)[id] == options[index].id,
{
}

/// A text that is turned down changes nothing: the same input is asked for
/// again and the answers stay as they were.
pub proof fn law_rejected_text_is_asked_again(
    redirect_uri: Seq<char>,
    inputs: Seq<AdditionalInputModel>,
    position: int,
    answers: Map<Seq<char>, Seq<char>>,
    text: Seq<char>,
)
    requires
        0 <= position < inputs.len(),
        inputs[position] matches AdditionalInputModel::Text {
            sensitive,
            min_length,
            max_length,
            regexes,
            ..
        } && text_outcome(text, min_length, max_length, regexes, sensitive) is Some,
    ensures
        step(
            redirect_uri,
            FlowStateModel::FillingForm { inputs, position, answers },
            EventModel::Entered { text },
        ).0 == (FlowStateModel::FillingForm { inputs, position, answers }),
        step(
            redirect_uri,
            FlowStateModel::FillingForm { inputs, position, answers },
            EventModel::Entered { text },
        ).1 matches CommandModel::AskText { rejection, .. } && rejection is Some,
{
}

/// Asking for the input at `position`, with the inputs before it answered,
/// leaves a consistent state, and a submission made there is complete.
proof fn lemma_form_step_consistent(
    inputs: Seq<AdditionalInputModel>,
    position: int,
    answers: Map<Seq<char>, Seq<char>>,
)
    requires
        0 <= position <= inputs.len(),
        answers.dom() =~= answered_ids(inputs, position),
    ensures
        consistent(form_step(inputs, position, answers).0),
        complete(inputs, form_step(inputs, position, answers).1),
{
    if position >= inputs.len() {
        assert(answered_ids(inputs, position) =~= answered_ids(inputs, inputs.len() as int));
    }
}

/// Storing an answer to the input at `position` leaves a consistent state.
proof fn lemma_verdict_step_consistent(
    inputs: Seq<AdditionalInputModel>,
    position: int,
    answers: Map<Seq<char>, Seq<char>>,
    verdict: Verdict,
)
    requires
        0 <= position < inputs.len(),
        answers.dom() =~= answered_ids(inputs, position),
        verdict matches Verdict::Accepted { id, .. } ==> id == inputs[position].id(),
        verdict matches Verdict::Rejected { command } ==> !(command is SubmitForm),
    ensures
        consistent(verdict_step(inputs, position, answers, verdict).0),
        complete(inputs, verdict_step(inputs, position, answers, verdict).1),
{
    match verdict {
        Verdict::Accepted { id, answer } => {
            let next = answers.insert(id, answer);
            assert forall|k: Seq<char>| next.dom().contains(k) <==> answered_ids(
                inputs,
                position + 1,
            ).contains(k) by {
                if answered_ids(inputs, position + 1).contains(k) {
                    let j = choose|j: int|
                        0 <= j < position + 1 && j < inputs.len() && (#[trigger] inputs[j]).id()
                            == k;
                    if j < position {
                        assert(answered_ids(inputs, position).contains(k));
                    }
                }
                if next.dom().contains(k) {
                    if k == id {
                        assert(inputs[position].id() == k);
                    } else {
                        assert(answered_ids(inputs, position).contains(k));
                        let j = choose|j: int|
                            0 <= j < position && j < inputs.len() && (#[trigger] inputs[j]).id()
                                == k;
                        assert(inputs[j].id() == k);
                    }
                }
            }
            assert(next.dom() =~= answered_ids(inputs, position + 1));
            lemma_form_step_consistent(inputs, position + 1, next);
        },
        _ => {},
    }
}

/// The answers of a form are those to its inputs, one per input id: every
/// step keeps a consistent state consistent, and the batch that is
/// submitted at the end of a form answers exactly the ids of its inputs.
pub proof fn law_form_answers_every_input(
    redirect_uri: Seq<char>,
    state: FlowStateModel,
    event: EventModel,
)
    requires
        consistent(state),
    ensures
        consistent(step(redirect_uri, state, event).0),
        state matches FlowStateModel::FillingForm { inputs, .. } ==> complete(
            inputs,
            step(redirect_uri, state, event).1,
        ),
        state is AwaitingResponse ==> (event matches EventModel::Response {
            flow: Some(AuthorizationFlowModel { next: Some(NextActionModel::Form { inputs }) }),
        } ==> complete(inputs, step(redirect_uri, state, event).1)),
{
    match (state, event) {
        (FlowStateModel::FillingForm { inputs, position, answers }, EventModel::Entered { text }) => {
            lemma_verdict_step_consistent(
                inputs,
                position,
                answers,
                text_verdict(inputs[position], text),
            );
        },
        (
            FlowStateModel::FillingForm { inputs, position, answers },
            EventModel::Selected { index },
        ) => {
            lemma_verdict_step_consistent(
                inputs,
                position,
                answers,
                choice_verdict(inputs[position], index),
            );
        },
        (FlowStateModel::AwaitingResponse, EventModel::Response { flow }) => {
            match flow {
                Some(AuthorizationFlowModel { next: Some(NextActionModel::Form { inputs }) }) => {
                    assert(Map::<Seq<char>, Seq<char>>::empty().dom() =~= answered_ids(inputs, 0));
                    lemma_form_step_consistent(inputs, 0, Map::empty());
                },
                _ => {},
            }
        },
        _ => {},
    }
}

} // verus!
