use vstd::prelude::*;
use crate::error::CaptureError;
use crate::packet::{CapturedPacket, IPV4_MIN_HEADER_LEN, PacketView, packet_of};

verus! {

/// Bound on one readability wait, in seconds.
pub const POLL_TIMEOUT_SECS: u64 = 1;

/// Pause after a wake that reported neither data nor timeout, in seconds.
pub const SPURIOUS_WAKE_PAUSE_SECS: u64 = 1;

/// Size of the receive buffer: the largest possible IP datagram.
pub const RECEIVE_BUFFER_LEN: usize = 65535;

/// Where a capture loop stands.
#[derive(Clone, Copy, Debug)]
pub enum LoopPhase {
    /// A timed readability wait is pending.
    Waiting,
    /// The socket reported data; one receive is pending.
    Draining,
    /// The loop is over, with this result.
    Stopped { result: Result<(), CaptureError> },
}

/// What the operating system reported for the last action.
#[derive(Clone, Debug)]
pub enum LoopEvent {
    /// The readability wait found data ready.
    Readable,
    /// The readability wait ran out its timeout.
    TimedOut,
    /// The readability wait returned with neither data nor timeout.
    Spurious,
    /// The readability wait itself failed.
    PollFailed { code: i32 },
    /// The receive returned these bytes (none: nothing this round).
    Received { bytes: Vec<u8> },
    /// The receive failed.
    ReceiveFailed { code: i32 },
}

pub enum LoopEventView {
    Readable,
    TimedOut,
    Spurious,
    PollFailed { code: i32 },
    Received { bytes: Seq<u8> },
    ReceiveFailed { code: i32 },
}

impl View for LoopEvent {
    type V = LoopEventView;

    open spec fn view(&self) -> LoopEventView {
        match self {
            LoopEvent::Readable => LoopEventView::Readable,
            LoopEvent::TimedOut => LoopEventView::TimedOut,
            LoopEvent::Spurious => LoopEventView::Spurious,
            LoopEvent::PollFailed { code } => LoopEventView::PollFailed { code: *code },
            LoopEvent::Received { bytes } => LoopEventView::Received { bytes: bytes@ },
            LoopEvent::ReceiveFailed { code } => LoopEventView::ReceiveFailed { code: *code },
        }
    }
}

/// What the caller must do next on behalf of the loop.
#[derive(Debug)]
pub enum LoopAction {
    /// Wait for the socket to become readable, bounded by `POLL_TIMEOUT_SECS`.
    WaitReadable,
    /// Receive one datagram into a buffer of `RECEIVE_BUFFER_LEN` bytes.
    Receive,
    /// Sleep `SPURIOUS_WAKE_PAUSE_SECS`, then wait for readability.
    PauseThenWait,
    /// Hand the packet to the handler; the loop has then ended with success.
    Deliver { packet: CapturedPacket },
    /// The loop has ended with this result.
    Finish { result: Result<(), CaptureError> },
}

pub enum LoopActionView {
    WaitReadable,
    Receive,
    PauseThenWait,
    Deliver { packet: PacketView },
    Finish { result: Result<(), CaptureError> },
}

impl View for LoopAction {
    type V = LoopActionView;

    open spec fn view(&self) -> LoopActionView {
        match self {
            LoopAction::WaitReadable => LoopActionView::WaitReadable,
            LoopAction::Receive => LoopActionView::Receive,
            LoopAction::PauseThenWait => LoopActionView::PauseThenWait,
            LoopAction::Deliver { packet } => LoopActionView::Deliver { packet: packet@ },
            LoopAction::Finish { result } => LoopActionView::Finish { result: *result },
        }
    }
}

/// At an iteration boundary: stop with success if cancellation was requested,
/// else carry on with `next`.
pub open spec fn boundary(cancelled: bool, next: LoopActionView) -> (LoopPhase, LoopActionView) {
    if cancelled {
        (LoopPhase::Stopped { result: Ok(()) }, LoopActionView::Finish { result: Ok(()) })
    } else {
        (LoopPhase::Waiting, next)
    }
}

/// One transition of the capture loop. `cancelled` is the cancellation flag as
/// read when the event is handled. An event that does not answer the pending
/// action leaves the phase as it is and repeats that action.
pub open spec fn loop_step(phase: LoopPhase, event: LoopEventView, cancelled: bool) -> (
    LoopPhase,
    LoopActionView,
) {
    match phase {
        LoopPhase::Waiting => match event {
            LoopEventView::Readable => (LoopPhase::Draining, LoopActionView::Receive),
            LoopEventView::TimedOut => boundary(cancelled, LoopActionView::WaitReadable),
            LoopEventView::Spurious => boundary(cancelled, LoopActionView::PauseThenWait),
            LoopEventView::PollFailed { code } => {
                let result = Err(CaptureError::PollFailed { code });
                (LoopPhase::Stopped { result }, LoopActionView::Finish { result })
            },
            _ => (LoopPhase::Waiting, LoopActionView::WaitReadable),
        },
        LoopPhase::Draining => match event {
            LoopEventView::Received { bytes } => {
                if bytes.len() == 0 {
                    boundary(cancelled, LoopActionView::WaitReadable)
                } else {
                    (
                        LoopPhase::Stopped { result: Ok(()) },
                        LoopActionView::Deliver { packet: packet_of(bytes) },
                    )
                }
            },
            LoopEventView::ReceiveFailed { code } => {
                let result = Err(CaptureError::ReceiveFailed { code });
                (LoopPhase::Stopped { result }, LoopActionView::Finish { result })
            },
            _ => (LoopPhase::Draining, LoopActionView::Receive),
        },
        LoopPhase::Stopped { result } => (phase, LoopActionView::Finish { result }),
    }
}

/// The one-shot capture loop of a session: it waits for readability, receives
/// one datagram, delivers the first non-empty one and ends, observing the
/// cancellation flag at each iteration boundary.
pub struct CaptureLoop {
    pub phase: LoopPhase,
}

impl CaptureLoop {
    /// A loop in its initial phase, with the first action to perform.
    pub fn new() -> (r: (CaptureLoop, LoopAction))
        ensures
            r.0.phase == LoopPhase::Waiting,
            r.1@ == LoopActionView::WaitReadable,
    {
        (CaptureLoop { phase: LoopPhase::Waiting }, LoopAction::WaitReadable)
    }

    /// Whether the loop has ended.
    pub fn is_stopped(&self) -> (r: bool)
        ensures
            r == (self.phase is Stopped),
    {
        match self.phase {
            LoopPhase::Stopped { .. } => true,
            _ => false,
        }
    }

    /// Handles the outcome of the last action and returns the next one.
    pub fn step(&mut self, event: LoopEvent, cancelled: bool) -> (r: LoopAction)
        ensures
            (final(self).phase, r@) == loop_step(old(self).phase, event@, cancelled),
    {
        match self.phase {
            LoopPhase::Waiting => match event {
                LoopEvent::Readable => {
                    self.phase = LoopPhase::Draining;
                    LoopAction::Receive
                },
                LoopEvent::TimedOut => self.at_boundary(cancelled, LoopAction::WaitReadable),
                LoopEvent::Spurious => self.at_boundary(cancelled, LoopAction::PauseThenWait),
                LoopEvent::PollFailed { code } => {
                    let result = Err(CaptureError::PollFailed { code });
                    self.phase = LoopPhase::Stopped { result };
                    LoopAction::Finish { result }
                },
                _ => LoopAction::WaitReadable,
            },
            LoopPhase::Draining => match event {
                LoopEvent::Received { bytes } => {
                    if bytes.len() == 0 {
                        self.at_boundary(cancelled, LoopAction::WaitReadable)
                    } else {
                        self.phase = LoopPhase::Stopped { result: Ok(()) };
                        LoopAction::Deliver { packet: CapturedPacket::from_bytes(bytes) }
                    }
                },
                LoopEvent::ReceiveFailed { code } => {
                    let result = Err(CaptureError::ReceiveFailed { code });
                    self.phase = LoopPhase::Stopped { result };
                    LoopAction::Finish { result }
                },
                _ => LoopAction::Receive,
            },
            LoopPhase::Stopped { result } => LoopAction::Finish { result },
        }
    }

    fn at_boundary(&mut self, cancelled: bool, next: LoopAction) -> (r: LoopAction)
        requires
            next is WaitReadable || next is PauseThenWait,
        ensures
            (final(self).phase, r@) == boundary(cancelled, next@),
    {
        if cancelled {
            self.phase = LoopPhase::Stopped { result: Ok(()) };
            LoopAction::Finish { result: Ok(()) }
        } else {
            self.phase = LoopPhase::Waiting;
            next
        }
    }
}

/// The phase reached and the actions requested when the loop, starting in
/// `phase`, is fed `events` one by one with the cancellation flag at `cancelled`.
pub open spec fn run_loop(phase: LoopPhase, events: Seq<LoopEventView>, cancelled: bool) -> (
    LoopPhase,
    Seq<LoopActionView>,
)
    decreases events.len(),
{
    if events.len() == 0 {
        (phase, Seq::empty())
    } else {
        let (next, action) = loop_step(phase, events[0], cancelled);
        let (last, rest) = run_loop(next, events.drop_first(), cancelled);
        (last, seq![action] + rest)
    }
}

/// How many of `actions` hand a packet to the handler.
pub open spec fn delivery_count(actions: Seq<LoopActionView>) -> nat
    decreases actions.len(),
{
    if actions.len() == 0 {
        0
    } else {
        (if actions[0] is Deliver {
            1nat
        } else {
            0nat
        }) + delivery_count(actions.drop_first())
    }
}

/// `n` readability waits that each ran out their timeout.
pub open spec fn timeouts(n: nat) -> Seq<LoopEventView> {
    Seq::new(n, |i: int| LoopEventView::TimedOut)
}

proof fn lemma_delivery_count_concat(a: Seq<LoopActionView>, b: Seq<LoopActionView>)
    ensures
        delivery_count(a + b) == delivery_count(a) + delivery_count(b),
    decreases a.len(),
{
    if a.len() == 0 {
        assert(a + b =~= b);
    } else {
        assert((a + b).drop_first() =~= a.drop_first() + b);
        lemma_delivery_count_concat(a.drop_first(), b);
    }
}

proof fn lemma_no_delivery_while_waiting(n: nat)
    ensures
        delivery_count(Seq::new(n, |i: int| LoopActionView::WaitReadable)) == 0,
    decreases n,
{
    let s = Seq::new(n, |i: int| LoopActionView::WaitReadable);
    if n > 0 {
        assert(s.drop_first() =~= Seq::new((n - 1) as nat, |i: int| LoopActionView::WaitReadable));
        lemma_no_delivery_while_waiting((n - 1) as nat);
    }
}

proof fn lemma_stopped_stays(result: Result<(), CaptureError>, events: Seq<LoopEventView>, cancelled: bool)
    ensures
        run_loop(LoopPhase::Stopped { result }, events, cancelled).0 == (LoopPhase::Stopped { result }),
        delivery_count(run_loop(LoopPhase::Stopped { result }, events, cancelled).1) == 0,
    decreases events.len(),
{
    if events.len() > 0 {
        lemma_stopped_stays(result, events.drop_first(), cancelled);
        let (_, rest) = run_loop(LoopPhase::Stopped { result }, events.drop_first(), cancelled);
        assert((seq![LoopActionView::Finish { result }] + rest).drop_first() =~= rest);
    }
}

proof fn lemma_timeouts_prefix(n: nat, tail: Seq<LoopEventView>)
    ensures
        run_loop(LoopPhase::Waiting, timeouts(n) + tail, false).0 == run_loop(
            LoopPhase::Waiting,
            tail,
            false,
        ).0,
        run_loop(LoopPhase::Waiting, timeouts(n) + tail, false).1 == Seq::new(
            n,
            |i: int| LoopActionView::WaitReadable,
        ) + run_loop(LoopPhase::Waiting, tail, false).1,
    decreases n,
{
    let events = timeouts(n) + tail;
    let waits = Seq::new(n, |i: int| LoopActionView::WaitReadable);
    if n == 0 {
        assert(events =~= tail);
        assert(waits + run_loop(LoopPhase::Waiting, tail, false).1 =~= run_loop(
            LoopPhase::Waiting,
            tail,
            false,
        ).1);
    } else {
        let m = (n - 1) as nat;
        assert(events[0] == LoopEventView::TimedOut);
        assert(events.drop_first() =~= timeouts(m) + tail);
        lemma_timeouts_prefix(m, tail);
        let rest = run_loop(LoopPhase::Waiting, tail, false).1;
        assert(seq![LoopActionView::WaitReadable] + (Seq::new(
            m,
            |i: int| LoopActionView::WaitReadable,
        ) + rest) =~= waits + rest);
    }
}

/// The loop is one-shot: fed any events, with the flag in any state, it hands
/// at most one packet to the handler, and none once it has stopped.
pub proof fn lemma_at_most_one_delivery(phase: LoopPhase, events: Seq<LoopEventView>, cancelled: bool)
    ensures
        delivery_count(run_loop(phase, events, cancelled).1) <= 1,
        phase is Stopped ==> delivery_count(run_loop(phase, events, cancelled).1) == 0,
    decreases events.len(),
{
    if events.len() > 0 {
        let (next, action) = loop_step(phase, events[0], cancelled);
        let (last, rest) = run_loop(next, events.drop_first(), cancelled);
        lemma_at_most_one_delivery(next, events.drop_first(), cancelled);
        assert((seq![action] + rest).drop_first() =~= rest);
        if action is Deliver {
            assert(next is Stopped);
        }
    }
}

/// Fed any number of timeouts and then a datagram that holds a minimal IPv4
/// header, with no cancellation, the loop hands exactly one packet to the
/// handler, as its last action: the datagram's bytes, with the source address
/// read from bytes 12 to 15 and the destination address from bytes 16 to 19.
/// The loop then stands stopped with success.
pub proof fn lemma_timeouts_then_datagram(n: nat, bytes: Seq<u8>)
    requires
        bytes.len() >= IPV4_MIN_HEADER_LEN,
    ensures
        ({
            let events = timeouts(n) + seq![
                LoopEventView::Readable,
                LoopEventView::Received { bytes },
            ];
            let (last, actions) = run_loop(LoopPhase::Waiting, events, false);
            &&& last == (LoopPhase::Stopped { result: Ok(()) })
            &&& actions.len() == n + 2
            &&& delivery_count(actions) == 1
            &&& actions[n + 1int] == (LoopActionView::Deliver {
                packet: PacketView {
                    bytes,
                    source_address: Some(bytes.subrange(12, 16)),
                    destination_address: Some(bytes.subrange(16, 20)),
                },
            })
        }),
{
    let tail = seq![LoopEventView::Readable, LoopEventView::Received { bytes }];
    let delivered = LoopActionView::Deliver { packet: packet_of(bytes) };
    lemma_datagram_run(bytes, false);
    lemma_timeouts_prefix(n, tail);
    let waits = Seq::new(n, |i: int| LoopActionView::WaitReadable);
    let end = seq![LoopActionView::Receive, delivered];
    lemma_no_delivery_while_waiting(n);
    lemma_delivery_count_concat(waits, end);
    assert(end.drop_first() =~= seq![delivered]);
    assert(seq![delivered].drop_first() =~= Seq::<LoopActionView>::empty());
    assert(delivery_count(Seq::<LoopActionView>::empty()) == 0);
    assert(seq![delivered][0] is Deliver);
    assert(delivery_count(seq![delivered]) == 1);
}

/// Readability followed by a non-empty datagram: one receive, then the delivery.
proof fn lemma_datagram_run(bytes: Seq<u8>, cancelled: bool)
    requires
        bytes.len() > 0,
    ensures
        run_loop(
            LoopPhase::Waiting,
            seq![LoopEventView::Readable, LoopEventView::Received { bytes }],
            cancelled,
        ) == (
            LoopPhase::Stopped { result: Ok(()) },
            seq![LoopActionView::Receive, LoopActionView::Deliver { packet: packet_of(bytes) }],
        ),
{
    let stopped = LoopPhase::Stopped { result: Ok(()) };
    let delivered = LoopActionView::Deliver { packet: packet_of(bytes) };
    let events = seq![LoopEventView::Readable, LoopEventView::Received { bytes }];
    let e1 = events.drop_first();
    let e2 = e1.drop_first();
    assert(e1 =~= seq![LoopEventView::Received { bytes }]);
    assert(e2 =~= Seq::<LoopEventView>::empty());
    assert(run_loop(stopped, e2, cancelled) == (stopped, Seq::<LoopActionView>::empty()));
    assert(run_loop(LoopPhase::Draining, e1, cancelled).1 =~= seq![delivered]);
    assert(run_loop(LoopPhase::Waiting, events, cancelled).1 =~= seq![
        LoopActionView::Receive,
        delivered,
    ]);
}

/// Fed a non-empty datagram shorter than a minimal IPv4 header, the loop hands
/// it to the handler as raw bytes, without addresses, and stops with success.
pub proof fn lemma_short_datagram(bytes: Seq<u8>, cancelled: bool)
    requires
        0 < bytes.len() < IPV4_MIN_HEADER_LEN,
    ensures
        ({
            let events = seq![LoopEventView::Readable, LoopEventView::Received { bytes }];
            let (last, actions) = run_loop(LoopPhase::Waiting, events, cancelled);
            &&& last == (LoopPhase::Stopped { result: Ok(()) })
            &&& actions == seq![
                LoopActionView::Receive,
                LoopActionView::Deliver {
                    packet: PacketView { bytes, source_address: None, destination_address: None },
                },
            ]
        }),
{
    lemma_datagram_run(bytes, cancelled);
}

/// With cancellation requested before any data arrives, the loop ends with
/// success at the first timeout and hands no packet to the handler, whatever
/// the operating system reports afterwards.
pub proof fn lemma_cancelled_before_data(events: Seq<LoopEventView>)
    requires
        events.len() > 0,
        events[0] == LoopEventView::TimedOut,
    ensures
        ({
            let (last, actions) = run_loop(LoopPhase::Waiting, events, true);
            &&& last == (LoopPhase::Stopped { result: Ok(()) })
            &&& actions[0] == (LoopActionView::Finish { result: Ok(()) })
            &&& delivery_count(actions) == 0
        }),
{
    let stopped = LoopPhase::Stopped { result: Ok(()) };
    lemma_stopped_stays(Ok(()), events.drop_first(), true);
    let (_, rest) = run_loop(stopped, events.drop_first(), true);
    let (_, actions) = run_loop(LoopPhase::Waiting, events, true);
    assert(actions.drop_first() =~= rest);
}

} // verus!
