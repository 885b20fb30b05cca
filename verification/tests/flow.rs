use quickpay::auth_flow::{answer_choice, answer_text, continue_form, prompt_for, Answer};
use quickpay::error::{FlowError, ProtocolViolation, ValidationError};
use quickpay::flow::{Command, Event, FlowState, InputKind, StartRequest};
use quickpay::model::{
    ActionSet, AdditionalInput, AuthorizationFlow, ChoiceOption, InputImage, NextAction, Provider,
    RegexRule,
};
use quickpay::picture::{decoded_image, inline_image};
use quickpay::submission::Submission;
use quickpay::QuickPayClient;

fn client() -> QuickPayClient {
    QuickPayClient { redirect_uri: "https://client.example/return".to_string() }
}

fn response(next: NextAction) -> Event {
    Event::Response { flow: Some(AuthorizationFlow { actions: Some(ActionSet { next }) }) }
}

fn provider(id: &str, name: Option<&str>, country: Option<&str>) -> Provider {
    Provider {
        id: id.to_string(),
        display_name: name.map(|s| s.to_string()),
        country_code: country.map(|s| s.to_string()),
    }
}

fn text(id: &str, min_length: i32, max_length: i32, regexes: Vec<RegexRule>) -> AdditionalInput {
    AdditionalInput::Text {
        id: id.to_string(),
        display_text: format!("Enter {id}"),
        sensitive: false,
        min_length,
        max_length,
        regexes,
    }
}

fn select(id: &str) -> AdditionalInput {
    AdditionalInput::Select {
        id: id.to_string(),
        display_text: format!("Choose {id}"),
        options: vec![
            ChoiceOption { id: "opt-a".to_string(), display_text: "First".to_string() },
            ChoiceOption { id: "opt-b".to_string(), display_text: "Second".to_string() },
        ],
    }
}

fn with_image(image: InputImage) -> AdditionalInput {
    AdditionalInput::TextWithImage {
        id: "captcha".to_string(),
        display_text: "What does the picture say?".to_string(),
        sensitive: false,
        min_length: 1,
        max_length: 8,
        regexes: vec![],
        image,
    }
}

fn abort(error: FlowError) -> (FlowState, Command) {
    (FlowState::Terminated, Command::Abort { error })
}

#[test]
fn start_declares_the_capabilities() {
    let c = client();
    let expected = StartRequest {
        provider_selection: true,
        redirect_return_uri: Some("https://client.example/return".to_string()),
        consent: true,
        form_input_types: Some(vec![InputKind::Text, InputKind::TextWithImage, InputKind::Select]),
    };
    assert_eq!(c.start_request(), expected);
    assert_eq!(
        c.handle_auth_flow(FlowState::Idle, Event::Begin),
        (FlowState::AwaitingResponse, Command::StartFlow { request: expected })
    );
}

#[test]
fn provider_selection_then_consent_then_wait() {
    let c = client();
    let (state, command) = c.handle_auth_flow(FlowState::Idle, Event::Begin);
    assert!(matches!(command, Command::StartFlow { .. }));

    let providers = vec![
        provider("bank-one", Some("Bank One"), Some("GB")),
        provider("bank-two", Some("Bank Two"), None),
        provider("bank-three", Some("Bank Three"), Some("IE")),
    ];
    let (state, command) =
        c.handle_auth_flow(state, response(NextAction::ProviderSelection { providers }));
    assert_eq!(
        command,
        Command::SelectProvider {
            prompt: "Select provider".to_string(),
            labels: vec![
                "\u{1F1EC}\u{1F1E7} Bank One".to_string(),
                "\u{1F1EE}\u{1F1EA} Bank Three".to_string(),
            ],
        }
    );
    assert_eq!(
        state,
        FlowState::ChoosingProvider { ids: vec!["bank-one".to_string(), "bank-three".to_string()] }
    );

    let (state, command) = c.handle_auth_flow(state, Event::Selected { index: 0 });
    assert_eq!(command, Command::SubmitProviderSelection { provider_id: "bank-one".to_string() });
    assert_eq!(state, FlowState::AwaitingResponse);

    let (state, command) = c.handle_auth_flow(state, response(NextAction::Consent));
    assert_eq!(command, Command::ConfirmConsent { prompt: "Submit consent".to_string() });
    assert_eq!(state, FlowState::Consenting);

    let (state, command) = c.handle_auth_flow(state, Event::Confirmed { consent: true });
    assert_eq!(command, Command::SubmitConsent);
    assert_eq!(state, FlowState::AwaitingResponse);

    let (state, command) = c.handle_auth_flow(state, response(NextAction::Wait));
    assert_eq!(command, Command::Finish);
    assert_eq!(state, FlowState::Terminated);
}

#[test]
fn second_offered_provider_is_the_second_eligible_one() {
    let c = client();
    let providers = vec![
        provider("bank-one", Some("Bank One"), Some("GB")),
        provider("bank-two", Some("Bank Two"), None),
        provider("bank-three", Some("Bank Three"), Some("IE")),
    ];
    let (state, _) = c.handle_provider_selection(&providers);
    assert_eq!(
        c.handle_auth_flow(state, Event::Selected { index: 1 }),
        (
            FlowState::AwaitingResponse,
            Command::SubmitProviderSelection { provider_id: "bank-three".to_string() }
        )
    );
}

#[test]
fn provider_choice_out_of_range_is_a_protocol_error() {
    let c = client();
    let ids = vec!["bank-one".to_string()];
    assert_eq!(
        c.handle_provider_choice(&ids, 1),
        abort(FlowError::ProtocolError(ProtocolViolation::NoSuchEntry))
    );
    assert_eq!(
        c.handle_auth_flow(FlowState::ChoosingProvider { ids: vec![] }, Event::Selected { index: 0 }),
        abort(FlowError::ProtocolError(ProtocolViolation::NoSuchEntry))
    );
}

#[test]
fn provider_with_unmapped_country_aborts() {
    let c = client();
    let providers = vec![provider("bank-one", Some("Bank One"), Some("US"))];
    assert_eq!(
        c.handle_auth_flow(
            FlowState::AwaitingResponse,
            response(NextAction::ProviderSelection { providers })
        ),
        abort(FlowError::ProtocolError(ProtocolViolation::UnmappedCountry))
    );
}

#[test]
fn declined_consent_aborts_without_submission() {
    let c = client();
    for _ in 0..3 {
        let (state, command) =
            c.handle_auth_flow(FlowState::AwaitingResponse, response(NextAction::Consent));
        assert_eq!(command, Command::ConfirmConsent { prompt: "Submit consent".to_string() });
        let (state, command) = c.handle_auth_flow(state, Event::Confirmed { consent: false });
        assert_eq!(command, Command::Abort { error: FlowError::ConsentDeclined });
        assert_ne!(command, Command::SubmitConsent);
        assert_eq!(state, FlowState::Terminated);
    }
    assert_eq!(c.handle_consent_action(false), abort(FlowError::ConsentDeclined));
    assert_eq!(
        c.handle_consent_action(true),
        (FlowState::AwaitingResponse, Command::SubmitConsent)
    );
}

#[test]
fn form_with_text_and_select_is_submitted_as_one_batch() {
    let c = client();
    let inputs = vec![text("name", 1, 10, vec![]), select("colour")];
    let (state, command) =
        c.handle_auth_flow(FlowState::AwaitingResponse, response(NextAction::Form { inputs }));
    assert_eq!(
        command,
        Command::AskText {
            display_text: "Enter name".to_string(),
            sensitive: false,
            image: None,
            rejection: None,
        }
    );
    let (state, command) = c.handle_auth_flow(state, Event::Entered { text: "Ada".to_string() });
    assert_eq!(
        command,
        Command::AskChoice {
            display_text: "Choose colour".to_string(),
            labels: vec!["First".to_string(), "Second".to_string()],
        }
    );
    let (state, command) = c.handle_auth_flow(state, Event::Selected { index: 1 });
    assert_eq!(state, FlowState::AwaitingResponse);
    match command {
        Command::SubmitForm { inputs } => {
            assert_eq!(inputs.len(), 2);
            assert_eq!(inputs.get(&"name".to_string()), Some(&"Ada".to_string()));
            assert_eq!(inputs.get(&"colour".to_string()), Some(&"opt-b".to_string()));
            let mut entries = inputs.into_entries();
            entries.sort();
            assert_eq!(
                entries,
                vec![
                    ("colour".to_string(), "opt-b".to_string()),
                    ("name".to_string(), "Ada".to_string()),
                ]
            );
        }
        other => panic!("expected a submission, got {other:?}"),
    }
}

#[test]
fn select_answer_stores_the_id_not_the_label() {
    let c = client();
    let (state, _) = c.handle_form_action(vec![select("colour")]);
    let (_, command) = c.handle_auth_flow(state, Event::Selected { index: 0 });
    match command {
        Command::SubmitForm { inputs } => {
            assert_eq!(inputs.get(&"colour".to_string()), Some(&"opt-a".to_string()));
            assert_ne!(inputs.get(&"colour".to_string()), Some(&"First".to_string()));
        }
        other => panic!("expected a submission, got {other:?}"),
    }
    assert_eq!(
        answer_choice(&select("colour"), 1),
        Answer::Accepted { id: "colour".to_string(), answer: "opt-b".to_string() }
    );
}

#[test]
fn select_index_out_of_range_aborts() {
    let c = client();
    let (state, _) = c.handle_form_action(vec![select("colour")]);
    assert_eq!(
        c.handle_auth_flow(state, Event::Selected { index: 2 }),
        abort(FlowError::ProtocolError(ProtocolViolation::NoSuchEntry))
    );
}

#[test]
fn rejected_text_is_asked_again() {
    let c = client();
    let rules =
        vec![RegexRule { regex: "^[0-9]+$".to_string(), message: "digits only".to_string() }];
    let inputs = vec![text("code", 3, 5, rules)];
    let (state, _) = c.handle_form_action(inputs.clone());
    let (state, command) = c.handle_auth_flow(state, Event::Entered { text: "ab".to_string() });
    assert_eq!(
        command,
        Command::AskText {
            display_text: "Enter code".to_string(),
            sensitive: false,
            image: None,
            rejection: Some(ValidationError::Length { min_length: 3, max_length: 5, length: 2 }),
        }
    );
    assert_eq!(
        state,
        FlowState::FillingForm { inputs: inputs.clone(), position: 0, answers: Submission::new() }
    );
    let (state, command) = c.handle_auth_flow(state, Event::Entered { text: "12a".to_string() });
    assert_eq!(
        command,
        Command::AskText {
            display_text: "Enter code".to_string(),
            sensitive: false,
            image: None,
            rejection: Some(ValidationError::Pattern { message: "digits only".to_string() }),
        }
    );
    let (state, command) = c.handle_auth_flow(state, Event::Entered { text: "1234".to_string() });
    assert_eq!(state, FlowState::AwaitingResponse);
    match command {
        Command::SubmitForm { inputs } => {
            assert_eq!(inputs.into_entries(), vec![("code".to_string(), "1234".to_string())]);
        }
        other => panic!("expected a submission, got {other:?}"),
    }
}

#[test]
fn sensitive_text_is_taken_as_entered() {
    let input = AdditionalInput::Text {
        id: "pin".to_string(),
        display_text: "PIN".to_string(),
        sensitive: true,
        min_length: 4,
        max_length: 4,
        regexes: vec![RegexRule { regex: "^[0-9]+$".to_string(), message: "digits".to_string() }],
    };
    assert_eq!(
        prompt_for(&input),
        Ok(Command::AskText {
            display_text: "PIN".to_string(),
            sensitive: true,
            image: None,
            rejection: None,
        })
    );
    assert_eq!(
        answer_text(&input, "x".to_string()),
        Answer::Accepted { id: "pin".to_string(), answer: "x".to_string() }
    );
}

#[test]
fn empty_form_is_submitted_at_once() {
    let c = client();
    let (state, command) = c.handle_form_action(vec![]);
    assert_eq!(state, FlowState::AwaitingResponse);
    assert_eq!(command, Command::SubmitForm { inputs: Submission::new() });
}

#[test]
fn repeated_input_id_keeps_the_later_answer() {
    let c = client();
    let (state, _) = c.handle_form_action(vec![text("a", 0, 10, vec![]), text("a", 0, 10, vec![])]);
    let (state, _) = c.handle_auth_flow(state, Event::Entered { text: "one".to_string() });
    let (_, command) = c.handle_auth_flow(state, Event::Entered { text: "two".to_string() });
    match command {
        Command::SubmitForm { inputs } => {
            assert_eq!(inputs.into_entries(), vec![("a".to_string(), "two".to_string())]);
        }
        other => panic!("expected a submission, got {other:?}"),
    }
}

#[test]
fn inline_image_is_decoded_for_the_prompt() {
    let input = with_image(InputImage::Base64 { data: "aGVsbG8gd29ybGQ=".to_string() });
    assert_eq!(
        prompt_for(&input),
        Ok(Command::AskText {
            display_text: "What does the picture say?".to_string(),
            sensitive: false,
            image: Some(b"hello world".to_vec()),
            rejection: None,
        })
    );
    assert_eq!(inline_image("aGVsbG8gd29ybGQ="), Ok(b"hello world".to_vec()));
    assert_eq!(inline_image(""), Ok(vec![]));
}

#[test]
fn inline_image_that_does_not_decode_aborts() {
    let c = client();
    let undecodable = FlowError::ProtocolError(ProtocolViolation::UndecodableImage);
    assert_eq!(inline_image("not base64!"), Err(undecodable));
    assert_eq!(decoded_image(None), Err(undecodable));
    assert_eq!(decoded_image(Some(vec![1, 2, 3])), Ok(vec![1, 2, 3]));
    let input = with_image(InputImage::Base64 { data: "a".to_string() });
    assert_eq!(c.handle_form_action(vec![input]), abort(undecodable));
}

#[test]
fn remote_image_is_unsupported() {
    let c = client();
    let input = with_image(InputImage::Uri { uri: "https://bank.example/captcha.png".to_string() });
    assert_eq!(prompt_for(&input), Err(FlowError::UnsupportedInput));
    assert_eq!(
        c.handle_auth_flow(
            FlowState::AwaitingResponse,
            response(NextAction::Form { inputs: vec![text("a", 0, 5, vec![]), input] })
        )
        .1,
        Command::AskText {
            display_text: "Enter a".to_string(),
            sensitive: false,
            image: None,
            rejection: None,
        }
    );
    let (state, _) = c.handle_form_action(vec![
        text("a", 0, 5, vec![]),
        with_image(InputImage::Uri { uri: "https://bank.example/captcha.png".to_string() }),
    ]);
    assert_eq!(
        c.handle_auth_flow(state, Event::Entered { text: "x".to_string() }),
        abort(FlowError::UnsupportedInput)
    );
}

#[test]
fn image_that_cannot_be_rendered_aborts() {
    let c = client();
    let input = with_image(InputImage::Base64 { data: "aGVsbG8=".to_string() });
    let (state, _) = c.handle_form_action(vec![input]);
    assert_eq!(
        c.handle_auth_flow(state, Event::ImageRejected),
        abort(FlowError::ProtocolError(ProtocolViolation::UndecodableImage))
    );
}

#[test]
fn redirect_is_shown_and_ends_the_flow() {
    let c = client();
    let (state, command) = c.handle_auth_flow(
        FlowState::AwaitingResponse,
        response(NextAction::Redirect { uri: "https://bank.example/auth".to_string() }),
    );
    assert_eq!(
        command,
        Command::ShowRedirect {
            uri: "https://bank.example/auth".to_string(),
            notice: "Authorisation link: \nhttps://bank.example/auth\n".to_string(),
        }
    );
    assert_eq!(state, FlowState::Terminated);
    assert_eq!(
        c.handle_redirect_action("https://bank.example/auth"),
        ("Authorisation link: \nhttps://bank.example/auth\n".to_string(), None)
    );
}

#[test]
fn no_flow_state_ends_the_flow() {
    let c = client();
    assert_eq!(
        c.handle_auth_flow(FlowState::AwaitingResponse, Event::Response { flow: None }),
        (FlowState::Terminated, Command::Finish)
    );
    assert_eq!(c.handle_response(None), (FlowState::Terminated, Command::Finish));
}

#[test]
fn flow_state_without_actions_is_a_protocol_error() {
    let c = client();
    assert_eq!(
        c.handle_auth_flow(
            FlowState::AwaitingResponse,
            Event::Response { flow: Some(AuthorizationFlow { actions: None }) }
        ),
        abort(FlowError::ProtocolError(ProtocolViolation::MissingActions))
    );
}

#[test]
fn reported_failures_abort_the_flow() {
    let c = client();
    assert_eq!(
        c.handle_auth_flow(FlowState::Consenting, Event::InteractionFailed),
        abort(FlowError::InputError)
    );
    assert_eq!(
        c.handle_auth_flow(FlowState::AwaitingResponse, Event::RemoteFailed),
        abort(FlowError::RemoteError)
    );
}

#[test]
fn event_that_answers_nothing_is_a_protocol_error() {
    let c = client();
    let unexpected = FlowError::ProtocolError(ProtocolViolation::UnexpectedEvent);
    assert_eq!(c.handle_auth_flow(FlowState::Idle, Event::Confirmed { consent: true }), abort(unexpected));
    assert_eq!(c.handle_auth_flow(FlowState::Terminated, Event::Begin), abort(unexpected));
    assert_eq!(c.handle_auth_flow(FlowState::Consenting, Event::Selected { index: 0 }), abort(unexpected));
    let (state, _) = c.handle_form_action(vec![select("colour")]);
    assert_eq!(c.handle_auth_flow(state, Event::Entered { text: "First".to_string() }), abort(unexpected));
    let (state, _) = c.handle_form_action(vec![text("a", 0, 5, vec![])]);
    assert_eq!(c.handle_auth_flow(state, Event::Selected { index: 0 }), abort(unexpected));
}

#[test]
fn position_outside_the_form_is_a_protocol_error() {
    let c = client();
    let unexpected = FlowError::ProtocolError(ProtocolViolation::UnexpectedEvent);
    let state = FlowState::FillingForm {
        inputs: vec![text("a", 0, 5, vec![])],
        position: 1,
        answers: Submission::new(),
    };
    assert_eq!(
        c.handle_auth_flow(state.clone(), Event::Entered { text: "x".to_string() }),
        abort(unexpected)
    );
    assert_eq!(c.handle_auth_flow(state, Event::Selected { index: 0 }), abort(unexpected));
}

#[test]
fn form_continues_from_a_position() {
    let inputs = vec![text("a", 0, 5, vec![]), select("colour")];
    let answers = Submission::new().insert("a".to_string(), "x".to_string());
    let (state, command) = continue_form(inputs.clone(), 1, answers.clone());
    assert_eq!(state, FlowState::FillingForm { inputs: inputs.clone(), position: 1, answers: answers.clone() });
    assert_eq!(
        command,
        Command::AskChoice {
            display_text: "Choose colour".to_string(),
            labels: vec!["First".to_string(), "Second".to_string()],
        }
    );
    assert_eq!(
        continue_form(inputs, 2, answers.clone()),
        (FlowState::AwaitingResponse, Command::SubmitForm { inputs: answers })
    );
}
