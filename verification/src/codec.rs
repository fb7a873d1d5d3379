//! Event codec: validates duck-typed caller records into typed input
//! events, and decodes inbound protocol events into host-facing output
//! records.

use vstd::prelude::*;

verus! {

/// A caller-supplied record, as the host hands it over: a `type` tag and
/// the one payload field the codec reads. Any further fields of the host
/// mapping are irrelevant to the protocol and are not modelled.
#[derive(Debug, PartialEq, Eq)]
pub struct RawRecord {
    pub record_type: String,
    pub user_message: Option<String>,
}

/// Mathematical model of a `RawRecord`: both strings as character
/// sequences.
pub struct RawRecordView {
    pub record_type: Seq<char>,
    pub user_message: Option<Seq<char>>,
}

impl View for RawRecord {
    type V = RawRecordView;

    open spec fn view(&self) -> RawRecordView {
        RawRecordView {
            record_type: self.record_type@,
            user_message: match self.user_message {
                Some(m) => Some(m@),
                None => None,
            },
        }
    }
}

/// Why a caller record was rejected: its `type` tag is not a known one,
/// or a field the tag requires is absent. Both are caller errors and are
/// never retried.
#[derive(Clone, Copy, Debug, PartialEq, Eq, Structural)]
pub enum CodecError {
    UnknownType,
    MissingField,
}

/// A strictly typed outbound protocol event: either one user message, or
/// the terminal marker that closes the input side of the conversation.
#[derive(Debug, PartialEq, Eq)]
pub enum InputEvent {
    Text { user_message: String },
    EndOfInput,
}

/// What `encode` returns, as a function of the record alone: a `text`
/// record with its message becomes a text event, a `text` record without
/// one is rejected as missing a field, an `end` record becomes the
/// terminal event, and every other tag is rejected as unknown.
pub open spec fn spec_encode(rec: RawRecord) -> Result<InputEvent, CodecError> {
    if rec.record_type@ == "text"@ {
        match rec.user_message {
            Some(m) => Ok(InputEvent::Text { user_message: m }),
            None => Err(CodecError::MissingField),
        }
    } else if rec.record_type@ == "end"@ {
        Ok(InputEvent::EndOfInput)
    } else {
        Err(CodecError::UnknownType)
    }
}

/// Validates one caller record into a typed input event.
pub fn encode(rec: RawRecord) -> (r: Result<InputEvent, CodecError>)
    ensures
        r == spec_encode(rec),
{
    let text_tag: String = "text".to_owned();
    let end_tag: String = "end".to_owned();
    if rec.record_type == text_tag {
        match rec.user_message {
            Some(m) => Ok(InputEvent::Text { user_message: m }),
            None => Err(CodecError::MissingField),
        }
    } else if rec.record_type == end_tag {
        Ok(InputEvent::EndOfInput)
    } else {
        Err(CodecError::UnknownType)
    }
}

/// An inbound protocol event as the remote service produces it. Every
/// sub-field is optional on the wire, and the service may add variants
/// the client does not know; `Unknown` stands for any such extension.
#[derive(Debug, PartialEq, Eq)]
pub enum ProtocolEvent {
    Text { system_message: Option<String> },
    Metadata {
        conversation_id: Option<String>,
        user_message_id: Option<String>,
        system_message_id: Option<String>,
    },
    Unknown,
}

/// Mathematical model of a `ProtocolEvent`.
pub enum ProtocolEventView {
    Text { system_message: Option<Seq<char>> },
    Metadata {
        conversation_id: Option<Seq<char>>,
        user_message_id: Option<Seq<char>>,
        system_message_id: Option<Seq<char>>,
    },
    Unknown,
}

pub open spec fn opt_view(m: Option<String>) -> Option<Seq<char>> {
    match m {
        Some(s) => Some(s@),
        None => None,
    }
}

impl View for ProtocolEvent {
    type V = ProtocolEventView;

    open spec fn view(&self) -> ProtocolEventView {
        match self {
            ProtocolEvent::Text { system_message } => ProtocolEventView::Text {
                system_message: opt_view(*system_message),
            },
            ProtocolEvent::Metadata { conversation_id, user_message_id, system_message_id } => (
                ProtocolEventView::Metadata {
                    conversation_id: opt_view(*conversation_id),
                    user_message_id: opt_view(*user_message_id),
                    system_message_id: opt_view(*system_message_id),
                }
            ),
            ProtocolEvent::Unknown => ProtocolEventView::Unknown,
        }
    }
}

/// A decoded inbound event, owned by the host once handed over. Decoding
/// is total: absent sub-fields become empty strings rather than faults.
#[derive(Debug, PartialEq, Eq)]
pub enum OutputEvent {
    Text { system_message: String },
    Metadata {
        conversation_id: String,
        user_message_id: String,
        system_message_id: String,
    },
}

/// Mathematical model of an `OutputEvent`.
pub enum OutputEventView {
    Text { system_message: Seq<char> },
    Metadata {
        conversation_id: Seq<char>,
        user_message_id: Seq<char>,
        system_message_id: Seq<char>,
    },
}

impl View for OutputEvent {
    type V = OutputEventView;

    open spec fn view(&self) -> OutputEventView {
        match self {
            OutputEvent::Text { system_message } => OutputEventView::Text {
                system_message: system_message@,
            },
            OutputEvent::Metadata { conversation_id, user_message_id, system_message_id } => (
                OutputEventView::Metadata {
                    conversation_id: conversation_id@,
                    user_message_id: user_message_id@,
                    system_message_id: system_message_id@,
                }
            ),
        }
    }
}

/// An absent wire sub-field reads as the empty string.
pub open spec fn field_or_empty(m: Option<Seq<char>>) -> Seq<char> {
    match m {
        Some(s) => s,
        None => Seq::empty(),
    }
}

/// What `decode` returns: total over every constructible protocol event.
/// Text events keep their message (empty if absent); metadata events keep
/// their three ids (empty if absent); an unknown variant degrades to an
/// empty text event so forward-compatible service additions never break
/// the conversation.
pub open spec fn spec_decode(pe: ProtocolEventView) -> OutputEventView {
    match pe {
        ProtocolEventView::Text { system_message } => OutputEventView::Text {
            system_message: field_or_empty(system_message),
        },
        ProtocolEventView::Metadata { conversation_id, user_message_id, system_message_id } => (
            OutputEventView::Metadata {
                conversation_id: field_or_empty(conversation_id),
                user_message_id: field_or_empty(user_message_id),
                system_message_id: field_or_empty(system_message_id),
            }
        ),
        ProtocolEventView::Unknown => OutputEventView::Text { system_message: Seq::empty() },
    }
}

fn string_or_empty(m: Option<String>) -> (r: String)
    ensures
        r@ == field_or_empty(opt_view(m)),
{
    match m {
        Some(s) => s,
        None => String::new(),
    }
}

/// Decodes one inbound protocol event. Total: no input makes it fail.
pub fn decode(pe: ProtocolEvent) -> (r: OutputEvent)
    ensures
        r@ == spec_decode(pe@),
{
    match pe {
        ProtocolEvent::Text { system_message } => OutputEvent::Text {
            system_message: string_or_empty(system_message),
        },
        ProtocolEvent::Metadata { conversation_id, user_message_id, system_message_id } => (
            OutputEvent::Metadata {
                conversation_id: string_or_empty(conversation_id),
                user_message_id: string_or_empty(user_message_id),
                system_message_id: string_or_empty(system_message_id),
            }
        ),
        ProtocolEvent::Unknown => OutputEvent::Text { system_message: String::new() },
    }
}

} // verus!

