//! The buffer-pool bridge: a bounded queue of log payloads from producers to
//! a single consumer, plus a bounded free list of reclaimed buffers flowing
//! the opposite way, so that steady-state sends need no fresh allocation.
//!
//! The two halves share one piece of state. In this sequential model the
//! shared state is owned by the receiving half, and the sending half's
//! operations take the receiver as an explicit argument; a concurrent
//! deployment performs the same exchanges through a pair of real queues.
//!
//! After [`LogSender::close`] no further payloads are accepted: a later send
//! degrades to appending the payload to the sender's fallback output instead
//! of blocking, losing data or panicking.

use vstd::prelude::*;

verus! {

/// The capacity of the payload queue and of the buffer free list.
pub const CHANNEL_CAPACITY: usize = 1024;

/// The mathematical state of the bridge: the pending payloads in send order,
/// the free list of reclaimed buffers, the shared capacity bound, and whether
/// the channel has been closed.
#[verifier::ext_equal]
pub ghost struct BridgeModel {
    pub queue: Seq<Seq<u8>>,
    pub pool: Seq<Seq<u8>>,
    pub cap: nat,
    pub closed: bool,
}

impl BridgeModel {
    /// Both queues respect the capacity bound.
    pub open spec fn wf(self) -> bool {
        self.queue.len() <= self.cap && self.pool.len() <= self.cap
    }

    /// A blocking receive would return: either a payload is queued, or the
    /// close signal has been sent.
    pub open spec fn pending(self) -> bool {
        self.queue.len() > 0 || self.closed
    }

    /// How many payload buffers the bridge currently holds, queued or free.
    /// A send that does not grow this count performed no fresh allocation.
    pub open spec fn buffer_count(self) -> nat {
        self.queue.len() + self.pool.len()
    }
}

/// What a send did with its payload.
#[derive(Clone, Copy, Debug, PartialEq, Eq, Structural)]
pub enum SendOutcome {
    /// The payload was enqueued for the consumer.
    Sent,
    /// The queue is at capacity; nothing was enqueued. A concurrent deployment
    /// blocks the producer here until the consumer frees a slot.
    Full,
    /// The channel is closed; the payload went to the fallback output.
    Fallback,
}

/// The effect of a send on the bridge state and the sender's fallback output.
pub open spec fn spec_send(m: BridgeModel, fallback: Seq<u8>, bytes: Seq<u8>) -> (BridgeModel, Seq<
    u8,
>, SendOutcome) {
    if m.closed {
        (m, fallback + bytes, SendOutcome::Fallback)
    } else if m.queue.len() >= m.cap {
        (m, fallback, SendOutcome::Full)
    } else if m.pool.len() > 0 {
        (
            BridgeModel { queue: m.queue.push(bytes), pool: m.pool.drop_last(), ..m },
            fallback,
            SendOutcome::Sent,
        )
    } else {
        (BridgeModel { queue: m.queue.push(bytes), ..m }, fallback, SendOutcome::Sent)
    }
}

/// The effect of sending the close signal.
pub open spec fn spec_close(m: BridgeModel) -> BridgeModel {
    BridgeModel { closed: true, ..m }
}

/// The effect of one receive: the payload handed out, if any, and the state
/// left behind. Pending payloads are drained before closure is reported.
pub open spec fn spec_recv(m: BridgeModel) -> (BridgeModel, Option<Seq<u8>>) {
    if m.queue.len() > 0 {
        (BridgeModel { queue: m.queue.drop_first(), ..m }, Some(m.queue[0]))
    } else {
        (m, None)
    }
}

/// The effect of returning a consumed buffer to the free list. A buffer that
/// would overflow the bounded free list is dropped instead.
pub open spec fn spec_release(m: BridgeModel, bytes: Seq<u8>) -> BridgeModel {
    if m.pool.len() < m.cap {
        BridgeModel { pool: m.pool.push(bytes), ..m }
    } else {
        m
    }
}

/// The producer half of the bridge. It owns only the fallback output: bytes
/// sent after closure end up here instead of being lost.
#[derive(Debug)]
pub struct LogSender {
    fallback: Vec<u8>,
}

impl View for LogSender {
    type V = Seq<u8>;

    closed spec fn view(&self) -> Seq<u8> {
        self.fallback@
    }
}

/// The consumer half of the bridge. In this sequential model it owns the
/// shared channel state: the payload queue and the buffer free list.
#[derive(Debug)]
pub struct LogReceiver {
    queue: Vec<Vec<u8>>,
    pool: Vec<Vec<u8>>,
    cap: usize,
    closed: bool,
}

impl View for LogReceiver {
    type V = BridgeModel;

    closed spec fn view(&self) -> BridgeModel {
        BridgeModel {
            queue: self.queue@.map_values(|v: Vec<u8>| v@),
            pool: self.pool@.map_values(|v: Vec<u8>| v@),
            cap: self.cap as nat,
            closed: self.closed,
        }
    }
}

/// A received log payload. Releasing it hands the underlying buffer back to
/// the free list for reuse.
#[derive(Debug)]
pub struct LogEntry {
    buffer: Vec<u8>,
}

impl View for LogEntry {
    type V = Seq<u8>;

    closed spec fn view(&self) -> Seq<u8> {
        self.buffer@
    }
}

/// Why a non-blocking receive returned no payload.
#[derive(Clone, Copy, Debug, PartialEq, Eq, Structural)]
pub enum TryRecvError {
    /// There is no pending payload, but the channel is still open.
    Empty,
    /// The channel is closed and fully drained; no payload will ever arrive.
    Closed,
}

impl LogSender {
    /// Send a copy of `buf` to the consumer.
    ///
    /// If the channel is open and the queue has room, the payload is enqueued,
    /// reusing a buffer from the free list when one is available. If the queue
    /// is at capacity nothing changes (a concurrent deployment blocks here).
    /// If the channel is closed the bytes go to the fallback output.
    pub fn write(&mut self, receiver: &mut LogReceiver, buf: &[u8]) -> (out: SendOutcome)
        ensures
            final(receiver)@ == spec_send(old(receiver)@, old(self)@, buf@).0,
            final(self)@ == spec_send(old(receiver)@, old(self)@, buf@).1,
            out == spec_send(old(receiver)@, old(self)@, buf@).2,
    {
        if receiver.closed {
            self.fallback.extend_from_slice(buf);
            SendOutcome::Fallback
        } else if receiver.queue.len() >= receiver.cap {
            SendOutcome::Full
        } else {
            let buffer = match receiver.pool.pop() {
                Some(mut b) => {
                    b.clear();
                    b.extend_from_slice(buf);
                    proof {
                        assert(b@ =~= buf@);
                        assert(receiver@.pool =~= old(receiver)@.pool.drop_last());
                    }
                    b
                },
                None => {
                    let mut b: Vec<u8> = Vec::new();
                    b.extend_from_slice(buf);
                    proof {
                        assert(b@ =~= buf@);
                    }
                    b
                },
            };
            receiver.queue.push(buffer);
            proof {
                assert(receiver@.queue =~= old(receiver)@.queue.push(buf@));
                assert(receiver@ =~= spec_send(old(receiver)@, old(self)@, buf@).0);
            }
            SendOutcome::Sent
        }
    }

    /// Send the close signal. Payloads already queued stay deliverable; later
    /// sends degrade to the fallback output. Closing twice has no further
    /// effect.
    pub fn close(&mut self, receiver: &mut LogReceiver)
        ensures
            final(receiver)@ == spec_close(old(receiver)@),
            final(self)@ == old(self)@,
    {
        receiver.closed = true;
    }

    /// The bytes that sends after closure wrote to the fallback output.
    pub fn fallback_output(&self) -> (b: &Vec<u8>)
        ensures
            b@ == self@,
    {
        &self.fallback
    }

    /// Flushing the sending half is a no-op: payloads are handed over whole.
    pub fn flush(&mut self) -> (r: Result<(), crate::builder::WriteError>)
        ensures
            r is Ok,
            final(self)@ == old(self)@,
    {
        Ok(())
    }
}

impl LogReceiver {
    /// Whether at least one payload is queued.
    pub fn has_queued(&self) -> (b: bool)
        ensures
            b == (self@.queue.len() > 0),
    {
        self.queue.len() > 0
    }

    /// Whether the close signal has been sent.
    pub fn is_closed(&self) -> (b: bool)
        ensures
            b == self@.closed,
    {
        self.closed
    }

    /// The number of queued payloads.
    pub fn queue_len(&self) -> (n: usize)
        ensures
            n == self@.queue.len(),
    {
        self.queue.len()
    }

    /// The number of buffers in the free list.
    pub fn pool_len(&self) -> (n: usize)
        ensures
            n == self@.pool.len(),
    {
        self.pool.len()
    }

    /// Receive the next payload.
    ///
    /// A blocking receive returns only once a payload is available or the
    /// channel is closed, so this sequential model requires one of the two;
    /// `None` means the channel is closed and fully drained.
    pub fn recv(&mut self) -> (r: Option<LogEntry>)
        requires
            old(self)@.pending(),
        ensures
            final(self)@ == spec_recv(old(self)@).0,
            (match r {
                Some(e) => Some(e@),
                None => None::<Seq<u8>>,
            }) == spec_recv(old(self)@).1,
            r is None <==> old(self)@.queue.len() == 0,
    {
        if self.queue.len() > 0 {
            let b = self.queue.remove(0);
            proof {
                assert(self@.queue =~= old(self)@.queue.drop_first());
            }
            Some(LogEntry { buffer: b })
        } else {
            None
        }
    }

    /// Receive the next payload without blocking: the payload, or the reason
    /// none is available.
    pub fn try_recv(&mut self) -> (r: Result<LogEntry, TryRecvError>)
        ensures
            final(self)@ == spec_recv(old(self)@).0,
            match r {
                Ok(e) => old(self)@.queue.len() > 0 && Some(e@) == spec_recv(old(self)@).1,
                Err(TryRecvError::Empty) => old(self)@.queue.len() == 0 && !old(self)@.closed,
                Err(TryRecvError::Closed) => old(self)@.queue.len() == 0 && old(self)@.closed,
            },
    {
        if self.queue.len() > 0 {
            let b = self.queue.remove(0);
            proof {
                assert(self@.queue =~= old(self)@.queue.drop_first());
            }
            Ok(LogEntry { buffer: b })
        } else if self.closed {
            Err(TryRecvError::Closed)
        } else {
            Err(TryRecvError::Empty)
        }
    }
}

impl LogEntry {
    /// The payload bytes.
    pub fn bytes(&self) -> (b: &[u8])
        ensures
            b@ == self@,
    {
        self.buffer.as_slice()
    }

    /// Return the underlying buffer to the free list for reuse. If the free
    /// list is at capacity the buffer is dropped instead.
    pub fn release(self, receiver: &mut LogReceiver)
        ensures
            final(receiver)@ == spec_release(old(receiver)@, self@),
    {
        if receiver.pool.len() < receiver.cap {
            receiver.pool.push(self.buffer);
            proof {
                assert(receiver@.pool =~= old(receiver)@.pool.push(self@));
            }
        }
    }
}

/// A fresh sender/receiver pair with the default capacity.
pub fn init() -> (r: (LogSender, LogReceiver))
    ensures
        r.0@ == Seq::<u8>::empty(),
        r.1@ == (BridgeModel {
            queue: Seq::empty(),
            pool: Seq::empty(),
            cap: CHANNEL_CAPACITY as nat,
            closed: false,
        }),
{
    init_with_capacity(CHANNEL_CAPACITY)
}

/// A fresh sender/receiver pair whose queues hold at most `cap` entries.
pub fn init_with_capacity(cap: usize) -> (r: (LogSender, LogReceiver))
    ensures
        r.0@ == Seq::<u8>::empty(),
        r.1@ == (BridgeModel { queue: Seq::empty(), pool: Seq::empty(), cap: cap as nat, closed: false }),
{
    let sender = LogSender { fallback: Vec::new() };
    let receiver = LogReceiver { queue: Vec::new(), pool: Vec::new(), cap, closed: false };
    proof {
        assert(sender@ =~= Seq::<u8>::empty());
        assert(receiver@.queue =~= Seq::<Seq<u8>>::empty());
        assert(receiver@.pool =~= Seq::<Seq<u8>>::empty());
    }
    (sender, receiver)
}

/// Law: in steady state the bridge reuses buffers instead of allocating.
///
/// Starting from a drained queue and a non-empty free list, a full cycle —
/// send a payload, receive it, release the received buffer — hands the
/// payload through unchanged, takes one buffer from the free list and puts
/// one back, and leaves the total number of buffers held by the bridge
/// exactly as it was: the cycle allocates nothing. Sending N payloads
/// sequentially, the consumer draining each before the next send, therefore
/// allocates at most the one buffer the first (cold) send created.
pub proof fn lemma_buffer_reuse(m: BridgeModel, fallback: Seq<u8>, bytes: Seq<u8>)
    requires
        m.wf(),
        !m.closed,
        m.queue.len() == 0,
        m.pool.len() > 0,
    ensures
        ({
            let (m1, f1, out1) = spec_send(m, fallback, bytes);
            let (m2, received) = spec_recv(m1);
            let m3 = spec_release(m2, bytes);
            &&& out1 == SendOutcome::Sent
            &&& f1 == fallback
            &&& received == Some(bytes)
            &&& m3.buffer_count() == m.buffer_count()
            &&& m3.pool.len() == m.pool.len()
            &&& m3.queue =~= m.queue
            &&& m3.cap == m.cap
            &&& !m3.closed
        }),
{
    let (m1, f1, out1) = spec_send(m, fallback, bytes);
    assert(m1.queue =~= seq![bytes]);
    let (m2, received) = spec_recv(m1);
    assert(m2.queue =~= m.queue);
}

/// Law: a cold send, with no reclaimed buffer available, allocates exactly
/// one fresh buffer.
pub proof fn lemma_first_send_allocates(m: BridgeModel, fallback: Seq<u8>, bytes: Seq<u8>)
    requires
        !m.closed,
        m.pool.len() == 0,
        m.queue.len() < m.cap,
    ensures
        spec_send(m, fallback, bytes).2 == SendOutcome::Sent,
        spec_send(m, fallback, bytes).0.buffer_count() == m.buffer_count() + 1,
{
}

/// Law: backpressure is a hard bound. A send against a full, open queue
/// changes nothing — in particular it does not grow the queue — and reports
/// `Full`; a concurrent deployment blocks the producer at this point instead
/// of letting memory grow without bound.
pub proof fn lemma_backpressure(m: BridgeModel, fallback: Seq<u8>, bytes: Seq<u8>)
    requires
        !m.closed,
        m.queue.len() >= m.cap,
    ensures
        spec_send(m, fallback, bytes) == (m, fallback, SendOutcome::Full),
{
}

/// Law: every bridge transition preserves the capacity bounds.
pub proof fn lemma_transitions_preserve_wf(m: BridgeModel, fallback: Seq<u8>, bytes: Seq<u8>)
    requires
        m.wf(),
    ensures
        spec_send(m, fallback, bytes).0.wf(),
        spec_close(m).wf(),
        spec_recv(m).0.wf(),
        spec_release(m, bytes).wf(),
{
}

/// Law: after a close, a send does not block and does not fail — it leaves
/// the bridge untouched and appends the payload bytes to the fallback output,
/// so the bytes are still observably emitted.
pub proof fn lemma_close_then_send(m: BridgeModel, fallback: Seq<u8>, bytes: Seq<u8>)
    ensures
        spec_send(spec_close(m), fallback, bytes) == (
            spec_close(m),
            fallback + bytes,
            SendOutcome::Fallback,
        ),
{
}

/// Law: sending the close signal twice has the same effect as sending it
/// once.
pub proof fn lemma_close_idempotent(m: BridgeModel)
    ensures
        spec_close(spec_close(m)) == spec_close(m),
{
}

} // verus!
