use q_stream::codec::{decode, encode, CodecError, InputEvent, OutputEvent, ProtocolEvent, RawRecord};
use q_stream::output::Output;

fn text_record(msg: &str) -> RawRecord {
    RawRecord { record_type: "text".to_owned(), user_message: Some(msg.to_owned()) }
}

#[test]
fn encode_text_record_yields_text_event() {
    let r = encode(text_record("hi"));
    assert_eq!(r, Ok(InputEvent::Text { user_message: "hi".to_owned() }));
}

#[test]
fn encode_is_deterministic() {
    let a = encode(text_record("hi"));
    let b = encode(text_record("hi"));
    assert_eq!(a, b);
    assert_eq!(encode(text_record("")), Ok(InputEvent::Text { user_message: String::new() }));
}

#[test]
fn encode_end_record_yields_end_of_input() {
    let rec = RawRecord { record_type: "end".to_owned(), user_message: None };
    assert_eq!(encode(rec), Ok(InputEvent::EndOfInput));
}

#[test]
fn encode_bogus_type_fails_unknown_type() {
    let rec = RawRecord { record_type: "bogus".to_owned(), user_message: None };
    assert_eq!(encode(rec), Err(CodecError::UnknownType));
}

#[test]
fn encode_text_without_message_fails_missing_field() {
    let rec = RawRecord { record_type: "text".to_owned(), user_message: None };
    assert_eq!(encode(rec), Err(CodecError::MissingField));
}

#[test]
fn decode_text_event_keeps_message() {
    let out = decode(ProtocolEvent::Text { system_message: Some("hi there".to_owned()) });
    assert_eq!(out, OutputEvent::Text { system_message: "hi there".to_owned() });
}

#[test]
fn decode_text_event_without_message_is_empty() {
    let out = decode(ProtocolEvent::Text { system_message: None });
    assert_eq!(out, OutputEvent::Text { system_message: String::new() });
}

#[test]
fn decode_metadata_keeps_ids() {
    let out = decode(ProtocolEvent::Metadata {
        conversation_id: Some("c1".to_owned()),
        user_message_id: Some("u1".to_owned()),
        system_message_id: Some("s1".to_owned()),
    });
    assert_eq!(
        out,
        OutputEvent::Metadata {
            conversation_id: "c1".to_owned(),
            user_message_id: "u1".to_owned(),
            system_message_id: "s1".to_owned(),
        }
    );
}

#[test]
fn decode_metadata_with_absent_ids_defaults_empty() {
    let out = decode(ProtocolEvent::Metadata {
        conversation_id: None,
        user_message_id: Some("u1".to_owned()),
        system_message_id: None,
    });
    assert_eq!(
        out,
        OutputEvent::Metadata {
            conversation_id: String::new(),
            user_message_id: "u1".to_owned(),
            system_message_id: String::new(),
        }
    );
}

#[test]
fn decode_unknown_variant_degrades_to_empty_text() {
    let out = decode(ProtocolEvent::Unknown);
    assert_eq!(out, OutputEvent::Text { system_message: String::new() });
}

#[test]
fn output_text_record_shape() {
    let out = Output::text("hello".to_owned());
    assert_eq!(out.kind, "text");
    assert_eq!(out.text, Some("hello".to_owned()));
    assert_eq!(out.chat_id, None);
    assert_eq!(out.user_msg_id, None);
    assert_eq!(out.sys_msg_id, None);
}

#[test]
fn output_metadata_record_shape() {
    let out = Output::metadata("c1".to_owned(), "u1".to_owned(), "s1".to_owned());
    assert_eq!(out.kind, "metadata");
    assert_eq!(out.text, None);
    assert_eq!(out.chat_id, Some("c1".to_owned()));
    assert_eq!(out.user_msg_id, Some("u1".to_owned()));
    assert_eq!(out.sys_msg_id, Some("s1".to_owned()));
}
