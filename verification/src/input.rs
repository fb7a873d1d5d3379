//! Input bridge: republishes the host's asynchronous sequence of caller
//! records as an outbound stream of typed protocol events, one outbound
//! item per host record, in the host's order. A record the codec rejects,
//! or a failure of the host sequence itself, ends the stream with a
//! single terminal transport error; host exhaustion ends it cleanly.

use vstd::prelude::*;

use crate::bridge::BridgeState;
use crate::codec::{encode, spec_encode, CodecError, InputEvent, RawRecord};

verus! {

/// What made the outbound stream fail: the codec rejected a caller
/// record, or the host sequence itself raised with the given message.
#[derive(Debug, PartialEq, Eq)]
pub enum UnhandledCause {
    Codec(CodecError),
    Host(String),
}

impl Clone for UnhandledCause {
    fn clone(&self) -> (r: Self)
        ensures
            r == self,
    {
        match self {
            UnhandledCause::Codec(e) => UnhandledCause::Codec(*e),
            UnhandledCause::Host(m) => UnhandledCause::Host(m.clone()),
        }
    }
}

/// A transport-level error on the outbound stream. It wraps a codec or
/// host-iteration failure; the transport treats it as unhandled and
/// aborts the remote exchange.
#[derive(Debug, PartialEq, Eq)]
pub enum TransportError {
    Unhandled { cause: UnhandledCause },
}

impl Clone for TransportError {
    fn clone(&self) -> (r: Self)
        ensures
            r == self,
    {
        match self {
            TransportError::Unhandled { cause } => TransportError::Unhandled {
                cause: cause.clone(),
            },
        }
    }
}

/// One step of the host sequence, as the host runtime reports it: a
/// produced record, clean exhaustion, or a host-side failure with its
/// message.
#[derive(Debug, PartialEq, Eq)]
pub enum HostItem {
    Value(RawRecord),
    End,
    Failure(String),
}

/// What the bridge tells its driver before a pull: fetch the next host
/// item, or the outbound stream is already over and the host must not be
/// polled again.
#[derive(Debug, PartialEq, Eq, Structural)]
pub enum InputDirective {
    PullHost,
    Finished,
}

/// One outbound stream item: an event to send, a terminal error (the last
/// item the stream ever yields), or clean end of stream.
#[derive(Debug, PartialEq, Eq)]
pub enum InputPoll {
    Event(InputEvent),
    Error(TransportError),
    Finished,
}

/// How one host item moves the bridge: the new state and the outbound
/// item, as a function of the host item alone.
pub open spec fn spec_accept(item: HostItem) -> (BridgeState<TransportError>, InputPoll) {
    match item {
        HostItem::Value(rec) => match spec_encode(rec) {
            Ok(ev) => (BridgeState::Delivering, InputPoll::Event(ev)),
            Err(ce) => {
                let e = TransportError::Unhandled { cause: UnhandledCause::Codec(ce) };
                (BridgeState::Failed(e), InputPoll::Error(e))
            },
        },
        HostItem::End => (BridgeState::Exhausted, InputPoll::Finished),
        HostItem::Failure(msg) => {
            let e = TransportError::Unhandled { cause: UnhandledCause::Host(msg) };
            (BridgeState::Failed(e), InputPoll::Error(e))
        },
    }
}

/// The outbound items produced when the driver makes `n` pulls against a
/// bridge in state `s` while the host sequence still holds `items`: a
/// terminal bridge reports end of stream again without touching the host;
/// a live one consumes the host's next item.
pub open spec fn input_trace(
    s: BridgeState<TransportError>,
    n: nat,
    items: Seq<HostItem>,
) -> Seq<InputPoll>
    decreases n,
{
    if n == 0 {
        Seq::empty()
    } else if s.is_terminal() {
        seq![InputPoll::Finished] + input_trace(s, (n - 1) as nat, items)
    } else if items.len() == 0 {
        Seq::empty()
    } else {
        let step = spec_accept(items[0]);
        seq![step.1] + input_trace(step.0, (n - 1) as nat, items.drop_first())
    }
}

/// Law: a terminal input bridge never produces another event — every
/// further pull reports end of stream, whatever the host still holds.
pub proof fn lemma_input_terminal_stays_ended(
    s: BridgeState<TransportError>,
    n: nat,
    items: Seq<HostItem>,
)
    requires
        s.is_terminal(),
    ensures
        input_trace(s, n, items).len() == n,
        forall|i: int| 0 <= i < n ==> #[trigger] input_trace(s, n, items)[i]
            == InputPoll::Finished,
    decreases n,
{
    if n > 0 {
        lemma_input_terminal_stays_ended(s, (n - 1) as nat, items);
        assert forall|i: int| 0 <= i < n implies #[trigger] input_trace(s, n, items)[i]
            == InputPoll::Finished by {
            if i > 0 {
                assert(input_trace(s, n, items)[i] == input_trace(s, (n - 1) as nat, items)[
                    i - 1
                ]);
            }
        }
    }
}

/// Law: for a well-formed host sequence — zero or more records the codec
/// accepts, then host exhaustion — the bridge produces exactly one
/// outbound event per record, in the host's order, with no drops and no
/// duplicates, and then ends the stream cleanly.
pub proof fn lemma_input_preserves_order(s: BridgeState<TransportError>, items: Seq<HostItem>)
    requires
        s.is_ready(),
        items.len() >= 1,
        forall|i: int| 0 <= i < items.len() - 1 ==> ((#[trigger] items[i])
            matches HostItem::Value(rec) && spec_encode(rec) is Ok),
        items[items.len() - 1] == HostItem::End,
    ensures
        input_trace(s, items.len() as nat, items).len() == items.len(),
        forall|i: int| 0 <= i < items.len() - 1 ==> #[trigger] input_trace(
            s,
            items.len() as nat,
            items,
        )[i] == spec_accept(items[i]).1 && spec_accept(items[i]).1 is Event,
        input_trace(s, items.len() as nat, items)[items.len() - 1] == InputPoll::Finished,
    decreases items.len(),
{
    let n = items.len() as nat;
    let trace = input_trace(s, n, items);
    if items.len() == 1 {
        reveal_with_fuel(input_trace, 2);
        assert(trace =~= seq![InputPoll::Finished]);
    } else {
        let rest = items.drop_first();
        let step = spec_accept(items[0]);
        assert(items[0] matches HostItem::Value(rec) && spec_encode(rec) is Ok);
        assert(step.0 === BridgeState::Delivering);
        assert forall|i: int| 0 <= i < rest.len() - 1 implies (#[trigger] rest[i])
            matches HostItem::Value(rec) && spec_encode(rec) is Ok by {
            assert(rest[i] == items[i + 1]);
        }
        assert(rest[rest.len() - 1] == items[items.len() - 1]);
        lemma_input_preserves_order(step.0, rest);
        let rec_trace = input_trace(step.0, rest.len() as nat, rest);
        assert(trace =~= seq![step.1] + rec_trace);
        assert forall|i: int| 0 <= i < items.len() - 1 implies #[trigger] trace[i]
            == spec_accept(items[i]).1 && spec_accept(items[i]).1 is Event by {
            if i > 0 {
                assert(trace[i] == rec_trace[i - 1]);
                assert(rest[i - 1] == items[i]);
            }
        }
    }
}

/// Law: a record the codec rejects, or a failure of the host sequence
/// itself, ends the stream with a single terminal transport error; no
/// further outbound event ever follows it, however often the driver
/// pulls.
pub proof fn lemma_input_error_is_final(
    s: BridgeState<TransportError>,
    n: nat,
    items: Seq<HostItem>,
)
    requires
        s.is_ready(),
        n >= 1,
        items.len() >= 1,
        (items[0] matches HostItem::Value(rec) && spec_encode(rec) is Err) || items[0] is Failure,
    ensures
        input_trace(s, n, items).len() == n,
        input_trace(s, n, items)[0] == spec_accept(items[0]).1,
        spec_accept(items[0]).1 is Error,
        forall|i: int| 1 <= i < n ==> #[trigger] input_trace(s, n, items)[i]
            == InputPoll::Finished,
{
    let step = spec_accept(items[0]);
    assert(step.0 is Failed);
    lemma_input_terminal_stays_ended(step.0, (n - 1) as nat, items.drop_first());
    let rec_trace = input_trace(step.0, (n - 1) as nat, items.drop_first());
    assert(input_trace(s, n, items) =~= seq![step.1] + rec_trace);
    assert forall|i: int| 1 <= i < n implies #[trigger] input_trace(s, n, items)[i]
        == InputPoll::Finished by {
        assert(input_trace(s, n, items)[i] == rec_trace[i - 1]);
    }
}

/// Adapts the host's asynchronous sequence into the outbound event
/// producer. The driver alternates `begin_pull` (may the host be polled?)
/// and `accept` (here is what the host produced).
pub struct InputBridge {
    state: BridgeState<TransportError>,
}

impl View for InputBridge {
    type V = BridgeState<TransportError>;

    closed spec fn view(&self) -> BridgeState<TransportError> {
        self.state
    }
}

impl InputBridge {
    /// A fresh bridge over a not-yet-polled host sequence.
    pub fn new() -> (b: InputBridge)
        ensures
            b@ == BridgeState::<TransportError>::Idle,
    {
        InputBridge { state: BridgeState::Idle }
    }

    /// Whether a pull is in flight: `begin_pull` answered and `accept`
    /// has not yet. The driver must not start another pull meanwhile.
    pub fn in_flight(&self) -> (r: bool)
        ensures
            r == (self@ is Pulling),
    {
        match &self.state {
            BridgeState::Pulling => true,
            _ => false,
        }
    }

    /// Starts one pull. From a terminal state the stream is over: the
    /// host sequence is not polled again, and the stream stays ended.
    pub fn begin_pull(&mut self) -> (d: InputDirective)
        requires
            !(old(self)@ is Pulling),
        ensures
            old(self)@.is_terminal() ==> final(self)@ == old(self)@ && d
                == InputDirective::Finished,
            !old(self)@.is_terminal() ==> final(self)@ == BridgeState::<TransportError>::Pulling
                && d == InputDirective::PullHost,
    {
        let ended = match &self.state {
            BridgeState::Exhausted => true,
            BridgeState::Failed(_) => true,
            _ => false,
        };
        if ended {
            InputDirective::Finished
        } else {
            self.state = BridgeState::Pulling;
            InputDirective::PullHost
        }
    }

    /// Finishes one pull with what the host produced, yielding exactly
    /// the outbound item `spec_accept` names for it.
    pub fn accept(&mut self, item: HostItem) -> (p: InputPoll)
        requires
            old(self)@ is Pulling,
        ensures
            (final(self)@, p) == spec_accept(item),
    {
        match item {
            HostItem::Value(rec) => match encode(rec) {
                Ok(ev) => {
                    self.state = BridgeState::Delivering;
                    InputPoll::Event(ev)
                },
                Err(ce) => {
                    let e = TransportError::Unhandled { cause: UnhandledCause::Codec(ce) };
                    self.state = BridgeState::Failed(e.clone());
                    InputPoll::Error(e)
                },
            },
            HostItem::End => {
                self.state = BridgeState::Exhausted;
                InputPoll::Finished
            },
            HostItem::Failure(msg) => {
                let e = TransportError::Unhandled { cause: UnhandledCause::Host(msg) };
                self.state = BridgeState::Failed(e.clone());
                InputPoll::Error(e)
            },
        }
    }
}

} // verus!
