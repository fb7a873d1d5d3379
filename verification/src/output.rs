//! Output bridge: republishes the inbound protocol event receiver as a
//! host-observable, pull-based, single-consumer iterator. Every delivered
//! item is the decode of the receiver's next event, in the receiver's
//! order; clean exhaustion and failure are terminal and are signalled on
//! different channels, so the host can tell them apart.

use vstd::prelude::*;

use crate::bridge::BridgeState;
use crate::codec::{
    decode, spec_decode, opt_view, OutputEvent, OutputEventView, ProtocolEvent, ProtocolEventView,
};

verus! {

/// The host-facing record one iterator item carries. `kind` and `text`
/// are what the host reads; the three ids are retained from metadata
/// events but need not surface.
#[derive(Debug, PartialEq, Eq)]
pub struct Output {
    pub kind: String,
    pub text: Option<String>,
    pub chat_id: Option<String>,
    pub user_msg_id: Option<String>,
    pub sys_msg_id: Option<String>,
}

/// Mathematical model of an `Output` record.
pub struct OutputView {
    pub kind: Seq<char>,
    pub text: Option<Seq<char>>,
    pub chat_id: Option<Seq<char>>,
    pub user_msg_id: Option<Seq<char>>,
    pub sys_msg_id: Option<Seq<char>>,
}

impl View for Output {
    type V = OutputView;

    open spec fn view(&self) -> OutputView {
        OutputView {
            kind: self.kind@,
            text: opt_view(self.text),
            chat_id: opt_view(self.chat_id),
            user_msg_id: opt_view(self.user_msg_id),
            sys_msg_id: opt_view(self.sys_msg_id),
        }
    }
}

/// The record shape for a decoded event: text events surface their
/// message under kind `text`; metadata events surface kind `metadata`
/// with no text and the three ids kept internally.
pub open spec fn spec_record_of(ev: OutputEventView) -> OutputView {
    match ev {
        OutputEventView::Text { system_message } => OutputView {
            kind: "text"@,
            text: Some(system_message),
            chat_id: None,
            user_msg_id: None,
            sys_msg_id: None,
        },
        OutputEventView::Metadata { conversation_id, user_message_id, system_message_id } => (
            OutputView {
                kind: "metadata"@,
                text: None,
                chat_id: Some(conversation_id),
                user_msg_id: Some(user_message_id),
                sys_msg_id: Some(system_message_id),
            }
        ),
    }
}

/// The record a protocol event reaches the host as: decode, then shape.
pub open spec fn spec_host_record(pe: ProtocolEventView) -> OutputView {
    spec_record_of(spec_decode(pe))
}

impl Output {
    /// The record for one system text message.
    pub fn text(value: String) -> (r: Self)
        ensures
            r@ == (OutputView {
                kind: "text"@,
                text: Some(value@),
                chat_id: None,
                user_msg_id: None,
                sys_msg_id: None,
            }),
            r.text == Some(value),
    {
        Self {
            text: Some(value),
            chat_id: None,
            sys_msg_id: None,
            user_msg_id: None,
            kind: "text".to_owned(),
        }
    }

    /// The record for one metadata event: the three ids are retained, no
    /// text surfaces.
    pub fn metadata(chat_id: String, user_msg: String, sys_msg: String) -> (r: Self)
        ensures
            r@ == (OutputView {
                kind: "metadata"@,
                text: None,
                chat_id: Some(chat_id@),
                user_msg_id: Some(user_msg@),
                sys_msg_id: Some(sys_msg@),
            }),
            r.chat_id == Some(chat_id),
            r.user_msg_id == Some(user_msg),
            r.sys_msg_id == Some(sys_msg),
    {
        Self {
            text: None,
            chat_id: Some(chat_id),
            user_msg_id: Some(user_msg),
            sys_msg_id: Some(sys_msg),
            kind: "metadata".to_owned(),
        }
    }
}

/// Decodes one inbound event and shapes it as the host record.
pub fn host_record(pe: ProtocolEvent) -> (r: Output)
    ensures
        r@ == spec_host_record(pe@),
{
    match decode(pe) {
        OutputEvent::Text { system_message } => Output::text(system_message),
        OutputEvent::Metadata { conversation_id, user_message_id, system_message_id } => (
            Output::metadata(conversation_id, user_message_id, system_message_id)
        ),
    }
}

/// A failure while reading the inbound stream after the call succeeded,
/// with the transport's message. Terminal for the iterator it hits.
#[derive(Debug, PartialEq, Eq)]
pub struct ReceiveError {
    pub message: String,
}

impl Clone for ReceiveError {
    fn clone(&self) -> (r: Self)
        ensures
            r == self,
    {
        ReceiveError { message: self.message.clone() }
    }
}

/// One answer of the inbound receiver: the next protocol event, clean
/// exhaustion of the stream, or a transport failure with its message.
#[derive(Debug, PartialEq, Eq)]
pub enum ReceiverOutcome {
    Event(ProtocolEvent),
    Closed,
    Failure(String),
}

/// What the bridge tells its driver before a pull: poll the receiver, or
/// the iterator is already terminal and the receiver must not be touched
/// — completion is re-reported, a failure is repeated.
#[derive(Debug, PartialEq, Eq)]
pub enum PullDirective {
    Poll,
    Completed,
    Error(ReceiveError),
}

/// One host-observable iterator step: an item, clean completion, or a
/// catchable error.
#[derive(Debug, PartialEq, Eq)]
pub enum OutputPoll {
    Item(Output),
    Completed,
    Failed(ReceiveError),
}

/// What the host observes of one iterator step, up to string identity: a
/// delivered record by its model, clean completion, or an error by its
/// message.
pub enum Observation {
    Delivered(OutputView),
    Done,
    Error(Seq<char>),
}

/// The observation a poll result amounts to.
pub open spec fn spec_observation(p: OutputPoll) -> Observation {
    match p {
        OutputPoll::Item(out) => Observation::Delivered(out@),
        OutputPoll::Completed => Observation::Done,
        OutputPoll::Failed(e) => Observation::Error(e.message@),
    }
}

/// How one receiver answer moves the bridge: the new state and what the
/// host observes, as a function of the answer alone.
pub open spec fn spec_resolve(outcome: ReceiverOutcome) -> (
    BridgeState<ReceiveError>,
    Observation,
) {
    match outcome {
        ReceiverOutcome::Event(pe) => (
            BridgeState::Delivering,
            Observation::Delivered(spec_host_record(pe@)),
        ),
        ReceiverOutcome::Closed => (BridgeState::Exhausted, Observation::Done),
        ReceiverOutcome::Failure(msg) => (
            BridgeState::Failed(ReceiveError { message: msg }),
            Observation::Error(msg@),
        ),
    }
}

/// What the host observes over `n` pulls against a bridge in state `s`
/// while the receiver still holds the answers `outcomes`: a terminal
/// bridge re-reports its end without touching the receiver; a live one
/// consumes the receiver's next answer. No answer is ever read ahead:
/// one pull consumes at most one.
pub open spec fn output_trace(
    s: BridgeState<ReceiveError>,
    n: nat,
    outcomes: Seq<ReceiverOutcome>,
) -> Seq<Observation>
    decreases n,
{
    if n == 0 {
        Seq::empty()
    } else {
        match s {
            BridgeState::Exhausted => seq![Observation::Done] + output_trace(
                s,
                (n - 1) as nat,
                outcomes,
            ),
            BridgeState::Failed(e) => seq![Observation::Error(e.message@)] + output_trace(
                s,
                (n - 1) as nat,
                outcomes,
            ),
            _ => {
                if outcomes.len() == 0 {
                    Seq::empty()
                } else {
                    let step = spec_resolve(outcomes[0]);
                    seq![step.1] + output_trace(step.0, (n - 1) as nat, outcomes.drop_first())
                }
            },
        }
    }
}

/// Law: exhaustion is idempotent — once the iterator has reported
/// completion, every later pull reports completion again, and the
/// receiver is never polled for it: a stopped stream stays stopped.
pub proof fn lemma_exhaustion_idempotent(n: nat, outcomes: Seq<ReceiverOutcome>)
    ensures
        output_trace(BridgeState::<ReceiveError>::Exhausted, n, outcomes).len() == n,
        forall|i: int| 0 <= i < n ==> #[trigger] output_trace(
            BridgeState::<ReceiveError>::Exhausted,
            n,
            outcomes,
        )[i] == Observation::Done,
    decreases n,
{
    let s = BridgeState::<ReceiveError>::Exhausted;
    if n > 0 {
        lemma_exhaustion_idempotent((n - 1) as nat, outcomes);
        assert forall|i: int| 0 <= i < n implies #[trigger] output_trace(s, n, outcomes)[i]
            == Observation::Done by {
            if i > 0 {
                assert(output_trace(s, n, outcomes)[i] == output_trace(s, (n - 1) as nat, outcomes)[
                    i - 1
                ]);
            }
        }
    }
}

/// Law: a failed iterator repeats its error — every pull after a failure
/// reports the same receive error, and the receiver is never polled
/// again.
pub proof fn lemma_failure_repeats(e: ReceiveError, n: nat, outcomes: Seq<ReceiverOutcome>)
    ensures
        output_trace(BridgeState::Failed(e), n, outcomes).len() == n,
        forall|i: int| 0 <= i < n ==> #[trigger] output_trace(BridgeState::Failed(e), n, outcomes)[
            i
        ] == Observation::Error(e.message@),
    decreases n,
{
    let s = BridgeState::Failed(e);
    if n > 0 {
        lemma_failure_repeats(e, (n - 1) as nat, outcomes);
        assert forall|i: int| 0 <= i < n implies #[trigger] output_trace(s, n, outcomes)[i]
            == Observation::Error(e.message@) by {
            if i > 0 {
                assert(output_trace(s, n, outcomes)[i] == output_trace(s, (n - 1) as nat, outcomes)[
                    i - 1
                ]);
            }
        }
    }
}

/// Law: pulls are linearizable against the receiver — the host observes
/// exactly one decoded record per receiver event, in the receiver's
/// production order. Callers are serialised before each pull, so
/// concurrent callers all observe this one strict sequential order.
pub proof fn lemma_output_preserves_order(
    s: BridgeState<ReceiveError>,
    outcomes: Seq<ReceiverOutcome>,
)
    requires
        s.is_ready(),
        forall|i: int| 0 <= i < outcomes.len() ==> (#[trigger] outcomes[i]) is Event,
    ensures
        output_trace(s, outcomes.len() as nat, outcomes).len() == outcomes.len(),
        forall|i: int| 0 <= i < outcomes.len() ==> #[trigger] output_trace(
            s,
            outcomes.len() as nat,
            outcomes,
        )[i] == spec_resolve(outcomes[i]).1 && spec_resolve(outcomes[i]).1 is Delivered,
    decreases outcomes.len(),
{
    let n = outcomes.len() as nat;
    let trace = output_trace(s, n, outcomes);
    if outcomes.len() > 0 {
        let rest = outcomes.drop_first();
        let step = spec_resolve(outcomes[0]);
        assert(step.0 === BridgeState::Delivering);
        lemma_output_preserves_order(step.0, rest);
        let rec_trace = output_trace(step.0, rest.len() as nat, rest);
        assert(trace =~= seq![step.1] + rec_trace);
        assert forall|i: int| 0 <= i < outcomes.len() implies #[trigger] trace[i] == spec_resolve(
            outcomes[i],
        ).1 && spec_resolve(outcomes[i]).1 is Delivered by {
            if i > 0 {
                assert(trace[i] == rec_trace[i - 1]);
                assert(rest[i - 1] == outcomes[i]);
            }
        }
    }
}

/// Adapts the inbound receiver into the host-observable iterator. The
/// driver alternates `begin_pull` (may the receiver be polled?) and
/// `resolve` (here is what the receiver answered). Only one pull is ever
/// in flight: the driver serialises callers before `begin_pull`.
pub struct OutputBridge {
    state: BridgeState<ReceiveError>,
}

impl View for OutputBridge {
    type V = BridgeState<ReceiveError>;

    closed spec fn view(&self) -> BridgeState<ReceiveError> {
        self.state
    }
}

impl OutputBridge {
    /// A fresh iterator over a not-yet-polled receiver.
    pub fn new() -> (b: OutputBridge)
        ensures
            b@ == BridgeState::<ReceiveError>::Idle,
    {
        OutputBridge { state: BridgeState::Idle }
    }

    /// Whether a pull is in flight: `begin_pull` answered `Poll` and
    /// `resolve` has not yet run. The driver must not start another pull
    /// meanwhile.
    pub fn in_flight(&self) -> (r: bool)
        ensures
            r == (self@ is Pulling),
    {
        match &self.state {
            BridgeState::Pulling => true,
            _ => false,
        }
    }

    /// Starts one host pull. From a terminal state the receiver is not
    /// polled again: completion is re-reported and a failure is repeated,
    /// so a stopped stream is never resurrected.
    pub fn begin_pull(&mut self) -> (d: PullDirective)
        requires
            !(old(self)@ is Pulling),
        ensures
            final(self)@ == old(self)@ || final(self)@ == BridgeState::<ReceiveError>::Pulling,
            old(self)@ is Exhausted ==> final(self)@ == old(self)@ && d
                == PullDirective::Completed,
            old(self)@ matches BridgeState::Failed(e) ==> final(self)@ == old(self)@ && d
                == PullDirective::Error(e),
            old(self)@.is_ready() ==> final(self)@ == BridgeState::<ReceiveError>::Pulling && d
                == PullDirective::Poll,
    {
        match &self.state {
            BridgeState::Exhausted => PullDirective::Completed,
            BridgeState::Failed(e) => PullDirective::Error(e.clone()),
            _ => {
                self.state = BridgeState::Pulling;
                PullDirective::Poll
            },
        }
    }

    /// Finishes one pull with the receiver's answer: the next event is
    /// decoded and delivered, clean exhaustion completes the iterator,
    /// and a transport failure fails it, exactly as `spec_resolve` says.
    pub fn resolve(&mut self, outcome: ReceiverOutcome) -> (p: OutputPoll)
        requires
            old(self)@ is Pulling,
        ensures
            final(self)@ == spec_resolve(outcome).0,
            spec_observation(p) == spec_resolve(outcome).1,
            (outcome matches ReceiverOutcome::Failure(msg) ==> p == OutputPoll::Failed(
                ReceiveError { message: msg },
            )),
            (outcome is Closed ==> p == OutputPoll::Completed),
    {
        match outcome {
            ReceiverOutcome::Event(pe) => {
                self.state = BridgeState::Delivering;
                OutputPoll::Item(host_record(pe))
            },
            ReceiverOutcome::Closed => {
                self.state = BridgeState::Exhausted;
                OutputPoll::Completed
            },
            ReceiverOutcome::Failure(msg) => {
                let e = ReceiveError { message: msg };
                self.state = BridgeState::Failed(e.clone());
                OutputPoll::Failed(e)
            },
        }
    }
}

} // verus!
