use q_stream::codec::{InputEvent, ProtocolEvent, RawRecord};
use q_stream::input::{HostItem, InputBridge, InputDirective, InputPoll};
use q_stream::output::{OutputPoll, PullDirective, ReceiverOutcome};
use q_stream::session::{CallOutcome, ServiceError, Session};

fn record(kind: &str, msg: Option<&str>) -> RawRecord {
    RawRecord { record_type: kind.to_owned(), user_message: msg.map(|m| m.to_owned()) }
}

#[test]
fn session_captures_identity() {
    let session = Session::prepare_chat("app-1".to_owned(), Some("user-1".to_owned()));
    assert_eq!(session.application_id, "app-1");
    assert_eq!(session.user_id, Some("user-1".to_owned()));
    let anonymous = Session::prepare_chat("app-2".to_owned(), None);
    assert_eq!(anonymous.user_id, None);
}

#[test]
fn chat_echo_round_trip() {
    // The host sends one text record and the end marker; a mock service
    // receives both events, echoes one text event, and closes.
    let session = Session::prepare_chat("app-1".to_owned(), None);

    let mut input = InputBridge::new();
    let mut sent = Vec::new();
    let host_items = vec![
        HostItem::Value(record("text", Some("hello"))),
        HostItem::Value(record("end", None)),
        HostItem::End,
    ];
    for item in host_items {
        assert_eq!(input.begin_pull(), InputDirective::PullHost);
        match input.accept(item) {
            InputPoll::Event(ev) => sent.push(ev),
            InputPoll::Finished => break,
            InputPoll::Error(e) => panic!("unexpected transport error: {:?}", e),
        }
    }
    assert_eq!(
        sent,
        vec![InputEvent::Text { user_message: "hello".to_owned() }, InputEvent::EndOfInput]
    );

    // The mock service establishes the call and echoes one event.
    let mut output = session.open_chat(CallOutcome::Established).expect("call established");
    let echoes = vec![
        ReceiverOutcome::Event(ProtocolEvent::Text { system_message: Some("hi there".to_owned()) }),
        ReceiverOutcome::Closed,
    ];
    let mut observed = Vec::new();
    for outcome in echoes {
        match output.begin_pull() {
            PullDirective::Poll => match output.resolve(outcome) {
                OutputPoll::Item(out) => observed.push((out.kind, out.text)),
                OutputPoll::Completed => break,
                OutputPoll::Failed(e) => panic!("unexpected receive error: {:?}", e),
            },
            PullDirective::Completed => break,
            PullDirective::Error(e) => panic!("unexpected receive error: {:?}", e),
        }
    }
    // Exactly one item, then completion signalled on the distinct channel.
    assert_eq!(observed, vec![("text".to_owned(), Some("hi there".to_owned()))]);
    assert_eq!(output.begin_pull(), PullDirective::Completed);
}

#[test]
fn chat_nonsense_record_aborts_input_stream() {
    // The host sends one malformed record: the outbound stream carries a
    // single transport error and nothing further; the mock service never
    // completes the call, so no iterator is observed.
    let mut input = InputBridge::new();
    assert_eq!(input.begin_pull(), InputDirective::PullHost);
    let poll = input.accept(HostItem::Value(record("nonsense", None)));
    assert!(matches!(poll, InputPoll::Error(_)));
    assert_eq!(input.begin_pull(), InputDirective::Finished);
}

#[test]
fn chat_rejected_call_returns_service_error() {
    let session = Session::prepare_chat("app-1".to_owned(), None);
    let outcome = CallOutcome::Rejected(ServiceError { message: "call setup failed".to_owned() });
    match session.open_chat(outcome) {
        Err(e) => assert_eq!(e.message, "call setup failed"),
        Ok(_) => panic!("no iterator may be constructed on a rejected call"),
    }
}
