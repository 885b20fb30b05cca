use vstd::prelude::*;
use crate::error::{FlowError, ValidationError, ValidationErrorModel};
use crate::model::{AdditionalInput, AdditionalInputModel, AuthorizationFlow, AuthorizationFlowModel};
use crate::submission::Submission;

verus! {

/// The kinds of form input that the client can collect.
#[derive(Clone, Copy, Debug, PartialEq, Eq, Structural)]
pub enum InputKind {
    Text,
    TextWithImage,
    Select,
}

/// The capabilities that the client declares when it starts a flow.
#[derive(Clone, Debug, PartialEq, Eq)]
pub struct StartRequest {
    /// The client can let the operator choose a provider.
    pub provider_selection: bool,
    /// The client can be redirected, and returns to this address.
    pub redirect_return_uri: Option<String>,
    /// The client can collect consent.
    pub consent: bool,
    /// The client can fill forms with these kinds of input.
    pub form_input_types: Option<Vec<InputKind>>,
}

pub struct StartRequestModel {
    pub provider_selection: bool,
    pub redirect_return_uri: Option<Seq<char>>,
    pub consent: bool,
    pub form_input_types: Option<Seq<InputKind>>,
}

impl DeepView for StartRequest {
    type V = StartRequestModel;

    open spec fn deep_view(&self) -> StartRequestModel {
        StartRequestModel {
            provider_selection: self.provider_selection,
            redirect_return_uri: self.redirect_return_uri.deep_view(),
            consent: self.consent,
            form_input_types: match self.form_input_types {
                Some(kinds) => Some(kinds@),
                None => None,
            },
        }
    }
}

/// What the driver asks its caller to do next.
#[derive(Clone, Debug, PartialEq, Eq)]
pub enum Command {
    /// Call the service's start of the authorization flow.
    StartFlow { request: StartRequest },
    /// Let the operator choose one of the labels.
    SelectProvider { prompt: String, labels: Vec<String> },
    /// Ask the operator to confirm.
    ConfirmConsent { prompt: String },
    /// Ask the operator for a text, without echo where `sensitive`. An image
    /// is to be shown first; a rejection says why the last entry was turned
    /// down.
    AskText {
        display_text: String,
        sensitive: bool,
        image: Option<Vec<u8>>,
        rejection: Option<ValidationError>,
    },
    /// Let the operator choose one of the labels of a form input.
    AskChoice { display_text: String, labels: Vec<String> },
    /// Submit the chosen provider to the service.
    SubmitProviderSelection { provider_id: String },
    /// Submit the consent to the service.
    SubmitConsent,
    /// Submit the answers of a form to the service, as one batch.
    SubmitForm { inputs: Submission },
    /// Show the operator where to complete the authorization. The flow has
    /// ended; what became of the payment is not known here.
    ShowRedirect { uri: String, notice: String },
    /// The flow has ended without error.
    Finish,
    /// The flow has failed.
    Abort { error: FlowError },
}

pub enum CommandModel {
    StartFlow { request: StartRequestModel },
    SelectProvider { prompt: Seq<char>, labels: Seq<Seq<char>> },
    ConfirmConsent { prompt: Seq<char> },
    AskText {
        display_text: Seq<char>,
        sensitive: bool,
        image: Option<Seq<u8>>,
        rejection: Option<ValidationErrorModel>,
    },
    AskChoice { display_text: Seq<char>, labels: Seq<Seq<char>> },
    SubmitProviderSelection { provider_id: Seq<char> },
    SubmitConsent,
    SubmitForm { inputs: Map<Seq<char>, Seq<char>> },
    ShowRedirect { uri: Seq<char>, notice: Seq<char> },
    Finish,
    Abort { error: FlowError },
}

impl DeepView for Command {
    type V = CommandModel;

    open spec fn deep_view(&self) -> CommandModel {
        match *self {
            Command::StartFlow { request } => CommandModel::StartFlow {
                request: request.deep_view(),
            },
            Command::SelectProvider { prompt, labels } => CommandModel::SelectProvider {
                prompt: prompt@,
                labels: labels.deep_view(),
            },
            Command::ConfirmConsent { prompt } => CommandModel::ConfirmConsent { prompt: prompt@ },
            Command::AskText { display_text, sensitive, image, rejection } => CommandModel::AskText {
                display_text: display_text@,
                sensitive,
                image: match image {
                    Some(bytes) => Some(bytes@),
                    None => None,
                },
                rejection: rejection.deep_view(),
            },
            Command::AskChoice { display_text, labels } => CommandModel::AskChoice {
                display_text: display_text@,
                labels: labels.deep_view(),
            },
            Command::SubmitProviderSelection { provider_id } => CommandModel::SubmitProviderSelection {
                provider_id: provider_id@,
            },
            Command::SubmitConsent => CommandModel::SubmitConsent,
            Command::SubmitForm { inputs } => CommandModel::SubmitForm { inputs: inputs@ },
            Command::ShowRedirect { uri, notice } => CommandModel::ShowRedirect {
                uri: uri@,
                notice: notice@,
            },
            Command::Finish => CommandModel::Finish,
            Command::Abort { error } => CommandModel::Abort { error },
        }
    }
}

/// What the caller reports back to the driver.
#[derive(Clone, Debug, PartialEq, Eq)]
pub enum Event {
    /// The payment exists and its flow is to be started.
    Begin,
    /// The service answered a start or a submission.
    Response { flow: Option<AuthorizationFlow> },
    /// The operator chose the entry at `index`.
    Selected { index: usize },
    /// The operator gave or refused consent.
    Confirmed { consent: bool },
    /// The operator entered a text.
    Entered { text: String },
    /// The image of the input could not be rendered from its bytes.
    ImageRejected,
    /// The terminal interaction could not complete.
    InteractionFailed,
    /// The call to the service failed.
    RemoteFailed,
}

pub enum EventModel {
    Begin,
    Response { flow: Option<AuthorizationFlowModel> },
    Selected { index: int },
    Confirmed { consent: bool },
    Entered { text: Seq<char> },
    ImageRejected,
    InteractionFailed,
    RemoteFailed,
}

impl DeepView for Event {
    type V = EventModel;

    open spec fn deep_view(&self) -> EventModel {
        match *self {
            Event::Begin => EventModel::Begin,
            Event::Response { flow } => EventModel::Response { flow: flow.deep_view() },
            Event::Selected { index } => EventModel::Selected { index: index as int },
            Event::Confirmed { consent } => EventModel::Confirmed { consent },
            Event::Entered { text } => EventModel::Entered { text: text@ },
            Event::ImageRejected => EventModel::ImageRejected,
            Event::InteractionFailed => EventModel::InteractionFailed,
            Event::RemoteFailed => EventModel::RemoteFailed,
        }
    }
}

/// Where the driver stands between two steps.
#[derive(Clone, Debug, PartialEq, Eq)]
pub enum FlowState {
    /// Nothing has been asked of the service yet.
    Idle,
    /// A start or a submission is under way.
    AwaitingResponse,
    /// The operator is choosing among the offered providers, whose ids these
    /// are, in the order of the labels shown.
    ChoosingProvider { ids: Vec<String> },
    /// The operator is asked for consent.
    Consenting,
    /// The operator is answering the input at `position` of a form; the
    /// inputs before it are answered.
    FillingForm { inputs: Vec<AdditionalInput>, position: usize, answers: Submission },
    /// No action remains, or the flow has failed.
    Terminated,
}

pub enum FlowStateModel {
    Idle,
    AwaitingResponse,
    ChoosingProvider { ids: Seq<Seq<char>> },
    Consenting,
    FillingForm {
        inputs: Seq<AdditionalInputModel>,
        position: int,
        answers: Map<Seq<char>, Seq<char>>,
    },
    Terminated,
}

impl DeepView for FlowState {
    type V = FlowStateModel;

    open spec fn deep_view(&self) -> FlowStateModel {
        match *self {
            FlowState::Idle => FlowStateModel::Idle,
            FlowState::AwaitingResponse => FlowStateModel::AwaitingResponse,
            FlowState::ChoosingProvider { ids } => FlowStateModel::ChoosingProvider {
                ids: ids.deep_view(),
            },
            FlowState::Consenting => FlowStateModel::Consenting,
            FlowState::FillingForm { inputs, position, answers } => FlowStateModel::FillingForm {
                inputs: inputs.deep_view(),
                position: position as int,
                answers: answers@,
            },
            FlowState::Terminated => FlowStateModel::Terminated,
        }
    }
}

} // verus!
