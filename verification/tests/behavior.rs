use rustic_messenger::config::{ConfigError, Settings};
use rustic_messenger::messaging::{
    build_publish, handle_delivery, receiver_outcome, receiver_step, send_outcome, DeliveryAction,
    LogLevel, RecvAction, RecvEvent, RecvState,
};
use rustic_messenger::session::{
    initial_setup_stage, process_exit_code, resolve_run, setup_advance, AppError, Mode,
    RunOutcome, SetupStage,
};

#[test]
fn parse_returns_both_fields() {
    let text = "amqp_address = \"amqp://127.0.0.1:5672\"\nqueue_name = \"orders\"\n";
    let settings = Settings::parse(text).expect("both fields are present");
    assert_eq!(settings.amqp_address, "amqp://127.0.0.1:5672");
    assert_eq!(settings.queue_name, "orders");
}

#[test]
fn parse_allows_comments_blanks_and_unknown_keys() {
    let text = "# broker settings\n\n  queue_name\t=  \"q-1\"  # trailing note\nextra = \"ignored\"\n\namqp_address = \"amqp://host\"";
    let settings = Settings::parse(text).expect("grammar allows all of these");
    assert_eq!(settings.amqp_address, "amqp://host");
    assert_eq!(settings.queue_name, "q-1");
}

#[test]
fn parse_missing_queue_name_fails() {
    let text = "amqp_address = \"amqp://host\"\n";
    let err = Settings::parse(text).expect_err("one required key is absent");
    assert_eq!(err, ConfigError::MissingField);
}

#[test]
fn parse_missing_address_fails() {
    let text = "queue_name = \"q\"\n";
    let err = Settings::parse(text).expect_err("one required key is absent");
    assert_eq!(err, ConfigError::MissingField);
}

#[test]
fn parse_empty_text_fails() {
    let err = Settings::parse("").expect_err("nothing is present");
    assert_eq!(err, ConfigError::MissingField);
}

#[test]
fn parse_unquoted_value_fails() {
    let text = "amqp_address = amqp://host\nqueue_name = \"q\"\n";
    let err = Settings::parse(text).expect_err("the value is not quoted");
    assert_eq!(err, ConfigError::Malformed);
}

#[test]
fn parse_unclosed_quote_fails() {
    let text = "amqp_address = \"amqp://host\nqueue_name = \"q\"\n";
    let err = Settings::parse(text).expect_err("the quote never closes");
    assert_eq!(err, ConfigError::Malformed);
}

#[test]
fn parse_escape_in_value_fails() {
    let text = "amqp_address = \"a\\b\"\nqueue_name = \"q\"\n";
    let err = Settings::parse(text).expect_err("the grammar has no escapes");
    assert_eq!(err, ConfigError::Malformed);
}

#[test]
fn parse_repeated_required_key_fails() {
    let text = "queue_name = \"a\"\namqp_address = \"x\"\nqueue_name = \"b\"\n";
    let err = Settings::parse(text).expect_err("a required key repeats");
    assert_eq!(err, ConfigError::Malformed);
}

#[test]
fn parse_junk_after_value_fails() {
    let text = "queue_name = \"a\" oops\namqp_address = \"x\"\n";
    let err = Settings::parse(text).expect_err("text follows the value");
    assert_eq!(err, ConfigError::Malformed);
}

#[test]
fn parse_keeps_empty_values() {
    let text = "amqp_address = \"\"\nqueue_name = \"\"";
    let settings = Settings::parse(text).expect("empty values fit the grammar");
    assert_eq!(settings.amqp_address, "");
    assert_eq!(settings.queue_name, "");
}

#[test]
fn parse_accepts_crlf_line_ends() {
    let text = "amqp_address = \"amqp://host\"\r\nqueue_name = \"q\"\r\n";
    let settings = Settings::parse(text).expect("CRLF files parse too");
    assert_eq!(settings.amqp_address, "amqp://host");
    assert_eq!(settings.queue_name, "q");
}

#[test]
fn config_error_messages_name_their_fault() {
    assert_eq!(
        ConfigError::Unreadable.message(),
        "Failed to read the configuration file"
    );
    assert_eq!(
        ConfigError::Malformed.message(),
        "The configuration file is malformed"
    );
    assert_eq!(
        ConfigError::MissingField.message(),
        "A required configuration key is missing"
    );
}

#[test]
fn override_takes_precedence() {
    let settings = Settings {
        amqp_address: String::from("amqp://host"),
        queue_name: String::from("default-queue"),
    };
    let cfg = resolve_run(settings, Some(String::from("override")), Mode::Receive);
    assert_eq!(cfg.queue_name, "override");
    assert_eq!(cfg.amqp_address, "amqp://host");
}

#[test]
fn no_override_keeps_default() {
    let settings = Settings {
        amqp_address: String::from("amqp://host"),
        queue_name: String::from("default-queue"),
    };
    let cfg = resolve_run(settings, None, Mode::Receive);
    assert_eq!(cfg.queue_name, "default-queue");
    assert_eq!(cfg.amqp_address, "amqp://host");
}

#[test]
fn publish_request_encodes_hello() {
    let req = build_publish("greetings", "hello");
    assert_eq!(req.exchange, "");
    assert_eq!(req.routing_key, "greetings");
    assert_eq!(req.payload, b"hello".to_vec());
}

#[test]
fn publish_request_encodes_multibyte_text() {
    let req = build_publish("q", "héllo");
    assert_eq!(req.payload, "héllo".as_bytes().to_vec());
}

#[test]
fn setup_advances_in_order() {
    let mut stage = initial_setup_stage();
    assert_eq!(stage, SetupStage::Connecting);
    stage = setup_advance(stage, true).expect("connect succeeded");
    assert_eq!(stage, SetupStage::OpeningChannel);
    stage = setup_advance(stage, true).expect("channel succeeded");
    assert_eq!(stage, SetupStage::DeclaringQueue);
    stage = setup_advance(stage, true).expect("declare succeeded");
    assert_eq!(stage, SetupStage::Ready);
}

#[test]
fn setup_failures_name_their_step() {
    assert_eq!(
        setup_advance(SetupStage::Connecting, false),
        Err(AppError::Connection)
    );
    assert_eq!(
        setup_advance(SetupStage::OpeningChannel, false),
        Err(AppError::Channel)
    );
    assert_eq!(
        setup_advance(SetupStage::DeclaringQueue, false),
        Err(AppError::QueueDeclare)
    );
}

#[test]
fn setup_failure_exits_nonzero() {
    let err = setup_advance(SetupStage::Connecting, false).unwrap_err();
    assert_ne!(process_exit_code(&RunOutcome::Failed(err)), 0);
}

#[test]
fn publish_failure_logs_error_but_exits_zero() {
    let report = send_outcome(false);
    assert_eq!(report.log_level, LogLevel::Error);
    assert_eq!(report.outcome, RunOutcome::Completed);
    assert_eq!(process_exit_code(&report.outcome), 0);
}

#[test]
fn publish_success_logs_info_and_exits_zero() {
    let report = send_outcome(true);
    assert_eq!(report.log_level, LogLevel::Info);
    assert_eq!(process_exit_code(&report.outcome), 0);
}

#[test]
fn valid_payload_is_decoded_verbatim() {
    match handle_delivery("hello".as_bytes()) {
        DeliveryAction::LogAndAck { text } => assert_eq!(text, "hello"),
        DeliveryAction::LogDecodeError => panic!("the payload is valid UTF-8"),
    }
}

#[test]
fn invalid_payload_is_skipped() {
    let payload = [0xffu8, 0xfe, 0x41];
    match handle_delivery(&payload) {
        DeliveryAction::LogAndAck { .. } => panic!("the payload is not UTF-8"),
        DeliveryAction::LogDecodeError => {}
    }
}

#[test]
fn valid_delivery_moves_to_awaiting_ack() {
    let event = RecvEvent::Delivery {
        payload: "bonjour".as_bytes().to_vec(),
    };
    let (next, action) = receiver_step(RecvState::Listening, event);
    assert!(matches!(next, RecvState::AwaitingAck));
    match action {
        RecvAction::LogAndAck { text } => assert_eq!(text, "bonjour"),
        _ => panic!("a valid delivery is logged and acknowledged"),
    }
}

#[test]
fn invalid_delivery_keeps_listening() {
    let event = RecvEvent::Delivery {
        payload: vec![0xc3, 0x28],
    };
    let (next, action) = receiver_step(RecvState::Listening, event);
    assert!(matches!(next, RecvState::Listening));
    assert!(matches!(action, RecvAction::LogDecodeError));
}

#[test]
fn stream_end_completes_normally() {
    let (next, action) = receiver_step(RecvState::Listening, RecvEvent::StreamEnded);
    assert!(matches!(action, RecvAction::Stop));
    assert_eq!(receiver_outcome(&next), Some(RunOutcome::Completed));
    assert_eq!(process_exit_code(&RunOutcome::Completed), 0);
}

#[test]
fn stream_fault_is_fatal() {
    let (next, action) = receiver_step(RecvState::Listening, RecvEvent::StreamFaulted);
    assert!(matches!(action, RecvAction::Stop));
    assert_eq!(
        receiver_outcome(&next),
        Some(RunOutcome::Failed(AppError::Consume))
    );
}

#[test]
fn ack_success_resumes_listening() {
    let (next, action) = receiver_step(RecvState::AwaitingAck, RecvEvent::AckOk);
    assert!(matches!(next, RecvState::Listening));
    assert!(matches!(action, RecvAction::AwaitNext));
}

#[test]
fn ack_failure_is_fatal_and_exits_nonzero() {
    let (next, action) = receiver_step(RecvState::AwaitingAck, RecvEvent::AckFailed);
    assert!(matches!(action, RecvAction::Stop));
    let outcome = receiver_outcome(&next).expect("the loop has ended");
    assert_eq!(outcome, RunOutcome::Failed(AppError::Ack));
    assert_ne!(process_exit_code(&outcome), 0);
}

#[test]
fn mismatched_event_changes_nothing() {
    let (next, action) = receiver_step(RecvState::Listening, RecvEvent::AckOk);
    assert!(matches!(next, RecvState::Listening));
    assert!(matches!(action, RecvAction::AwaitNext));
}

#[test]
fn error_messages_name_their_fault() {
    assert_eq!(AppError::Connection.message(), "Failed to connect to RabbitMQ");
    assert_eq!(
        AppError::Channel.message(),
        "Failed to create RabbitMQ channel"
    );
    assert_eq!(AppError::QueueDeclare.message(), "Failed to declare a queue");
    assert_eq!(AppError::Consume.message(), "Failed to consume from queue");
    assert_eq!(AppError::Publish.message(), "Failed to publish message");
    assert_eq!(AppError::Ack.message(), "Failed to acknowledge message");
    assert_eq!(AppError::TaskJoin.message(), "Message receiver task failed");
}
