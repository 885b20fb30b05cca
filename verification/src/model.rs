use vstd::prelude::*;

verus! {

/// A bank that the payer may pay from. Only a provider with both a display
/// name and a country code can be offered for selection.
#[derive(Clone, Debug, PartialEq, Eq)]
pub struct Provider {
    pub id: String,
    pub display_name: Option<String>,
    pub country_code: Option<String>,
}

pub struct ProviderModel {
    pub id: Seq<char>,
    pub display_name: Option<Seq<char>>,
    pub country_code: Option<Seq<char>>,
}

impl DeepView for Provider {
    type V = ProviderModel;

    open spec fn deep_view(&self) -> ProviderModel {
        ProviderModel {
            id: self.id@,
            display_name: self.display_name.deep_view(),
            country_code: self.country_code.deep_view(),
        }
    }
}

/// A pattern that an entered text has to match, with the message shown when
/// it does not.
#[derive(Clone, Debug, PartialEq, Eq)]
pub struct RegexRule {
    pub regex: String,
    pub message: String,
}

pub struct RegexRuleModel {
    pub regex: Seq<char>,
    pub message: Seq<char>,
}

impl DeepView for RegexRule {
    type V = RegexRuleModel;

    open spec fn deep_view(&self) -> RegexRuleModel {
        RegexRuleModel { regex: self.regex@, message: self.message@ }
    }
}

/// One entry of a single-choice input: what is shown, and what is sent.
#[derive(Clone, Debug, PartialEq, Eq)]
pub struct ChoiceOption {
    pub id: String,
    pub display_text: String,
}

pub struct ChoiceOptionModel {
    pub id: Seq<char>,
    pub display_text: Seq<char>,
}

impl DeepView for ChoiceOption {
    type V = ChoiceOptionModel;

    open spec fn deep_view(&self) -> ChoiceOptionModel {
        ChoiceOptionModel { id: self.id@, display_text: self.display_text@ }
    }
}

/// The picture that accompanies a text input.
#[derive(Clone, Debug, PartialEq, Eq)]
pub enum InputImage {
    /// Hosted remotely; not supported.
    Uri { uri: String },
    /// Carried inline, base64-encoded.
    Base64 { data: String },
}

pub enum InputImageModel {
    Uri { uri: Seq<char> },
    Base64 { data: Seq<char> },
}

impl DeepView for InputImage {
    type V = InputImageModel;

    open spec fn deep_view(&self) -> InputImageModel {
        match *self {
            InputImage::Uri { uri } => InputImageModel::Uri { uri: uri@ },
            InputImage::Base64 { data } => InputImageModel::Base64 { data: data@ },
        }
    }
}

/// A field of a server-declared form.
#[derive(Clone, Debug, PartialEq, Eq)]
pub enum AdditionalInput {
    Text {
        id: String,
        display_text: String,
        sensitive: bool,
        min_length: i32,
        max_length: i32,
        regexes: Vec<RegexRule>,
    },
    TextWithImage {
        id: String,
        display_text: String,
        sensitive: bool,
        min_length: i32,
        max_length: i32,
        regexes: Vec<RegexRule>,
        image: InputImage,
    },
    Select { id: String, display_text: String, options: Vec<ChoiceOption> },
}

pub enum AdditionalInputModel {
    Text {
        id: Seq<char>,
        display_text: Seq<char>,
        sensitive: bool,
        min_length: int,
        max_length: int,
        regexes: Seq<RegexRuleModel>,
    },
    TextWithImage {
        id: Seq<char>,
        display_text: Seq<char>,
        sensitive: bool,
        min_length: int,
        max_length: int,
        regexes: Seq<RegexRuleModel>,
        image: InputImageModel,
    },
    Select { id: Seq<char>, display_text: Seq<char>, options: Seq<ChoiceOptionModel> },
}

impl AdditionalInputModel {
    /// The id under which the answer to this input is stored.
    pub open spec fn id(self) -> Seq<char> {
        match self {
            AdditionalInputModel::Text { id, .. } => id,
            AdditionalInputModel::TextWithImage { id, .. } => id,
            AdditionalInputModel::Select { id, .. } => id,
        }
    }
}

impl DeepView for AdditionalInput {
    type V = AdditionalInputModel;

    open spec fn deep_view(&self) -> AdditionalInputModel {
        match *self {
            AdditionalInput::Text {
                id,
                display_text,
                sensitive,
                min_length,
                max_length,
                regexes,
            } => AdditionalInputModel::Text {
                id: id@,
                display_text: display_text@,
                sensitive,
                min_length: min_length as int,
                max_length: max_length as int,
                regexes: regexes.deep_view(),
            },
            AdditionalInput::TextWithImage {
                id,
                display_text,
                sensitive,
                min_length,
                max_length,
                regexes,
                image,
            } => AdditionalInputModel::TextWithImage {
                id: id@,
                display_text: display_text@,
                sensitive,
                min_length: min_length as int,
                max_length: max_length as int,
                regexes: regexes.deep_view(),
                image: image.deep_view(),
            },
            AdditionalInput::Select { id, display_text, options } => AdditionalInputModel::Select {
                id: id@,
                display_text: display_text@,
                options: options.deep_view(),
            },
        }
    }
}

/// The single step that the server asks the client to resolve next.
#[derive(Clone, Debug, PartialEq, Eq)]
pub enum NextAction {
    ProviderSelection { providers: Vec<Provider> },
    Consent,
    Redirect { uri: String },
    Form { inputs: Vec<AdditionalInput> },
    /// The flow is paused on the server's side; nothing is to be done locally.
    Wait,
}

pub enum NextActionModel {
    ProviderSelection { providers: Seq<ProviderModel> },
    Consent,
    Redirect { uri: Seq<char> },
    Form { inputs: Seq<AdditionalInputModel> },
    Wait,
}

impl DeepView for NextAction {
    type V = NextActionModel;

    open spec fn deep_view(&self) -> NextActionModel {
        match *self {
            NextAction::ProviderSelection { providers } => NextActionModel::ProviderSelection {
                providers: providers.deep_view(),
            },
            NextAction::Consent => NextActionModel::Consent,
            NextAction::Redirect { uri } => NextActionModel::Redirect { uri: uri@ },
            NextAction::Form { inputs } => NextActionModel::Form { inputs: inputs.deep_view() },
            NextAction::Wait => NextActionModel::Wait,
        }
    }
}

/// The actions of a flow state: exactly one next action.
#[derive(Clone, Debug, PartialEq, Eq)]
pub struct ActionSet {
    pub next: NextAction,
}

/// A flow state as the server returns it. A well-formed one carries its
/// actions; their absence is a protocol violation.
#[derive(Clone, Debug, PartialEq, Eq)]
pub struct AuthorizationFlow {
    pub actions: Option<ActionSet>,
}

pub struct AuthorizationFlowModel {
    pub next: Option<NextActionModel>,
}

impl DeepView for AuthorizationFlow {
    type V = AuthorizationFlowModel;

    open spec fn deep_view(&self) -> AuthorizationFlowModel {
        AuthorizationFlowModel {
            next: match self.actions {
                Some(set) => Some(set.next.deep_view()),
                None => None,
            },
        }
    }
}

} // verus!
