//! The threaded engine: the redraw state machine driven by the consumer side
//! of the buffer-pool bridge.
//!
//! In the concurrent deployment a background thread owns the state machine
//! and loops over [`ThreadedEngine::drain`]: block for one payload, then pick
//! up every payload that is already queued before rendering the status line
//! once. This sequential engine owns both halves of the bridge and the state
//! machine, so the whole producer/consumer exchange is verified; the
//! surrounding application runs the same drain loop over a real channel.

use vstd::prelude::*;

use crate::builder::{MakeCallback, StatusRender, WriteError};
use crate::console::{items_model, Command, Console, Item, ItemModel};
use crate::log_bridge::{
    init, BridgeModel, LogReceiver, LogSender, SendOutcome, spec_close, spec_send,
    CHANNEL_CAPACITY,
};
use crate::unthreaded::{
    burst_prefix, erase_ops, guard_ops, text_items, write_step, RedrawModel, WriteState,
};

verus! {

/// What one drain step did.
#[derive(Clone, Copy, Debug, PartialEq, Eq, Structural)]
pub enum DrainOutcome {
    /// A burst of payloads was written and the status line was rendered;
    /// the consumer loop should keep going.
    Continue,
    /// The close signal was observed; the consumer loop ends for good.
    Closed,
}

/// The free list after returning `bufs` to it, in order, never growing it
/// beyond `cap`.
pub open spec fn pool_after_release(pool: Seq<Seq<u8>>, bufs: Seq<Seq<u8>>, cap: nat) -> Seq<
    Seq<u8>,
>
    decreases bufs.len(),
{
    if bufs.len() == 0 {
        pool
    } else {
        pool_after_release(
            if pool.len() < cap {
                pool.push(bufs[0])
            } else {
                pool
            },
            bufs.drop_first(),
            cap,
        )
    }
}

/// Returning buffers in order can also be unrolled from the back.
proof fn lemma_pool_after_release_snoc(pool: Seq<Seq<u8>>, bufs: Seq<Seq<u8>>, cap: nat)
    requires
        bufs.len() > 0,
    ensures
        pool_after_release(pool, bufs, cap) == ({
            let p = pool_after_release(pool, bufs.drop_last(), cap);
            if p.len() < cap {
                p.push(bufs.last())
            } else {
                p
            }
        }),
    decreases bufs.len(),
{
    let step = if pool.len() < cap {
        pool.push(bufs[0])
    } else {
        pool
    };
    if bufs.len() == 1 {
        assert(bufs.last() == bufs[0]);
        assert(bufs.drop_last() =~= Seq::<Seq<u8>>::empty());
        assert(bufs.drop_first() =~= Seq::<Seq<u8>>::empty());
        assert(pool_after_release(pool, bufs.drop_last(), cap) == pool);
        assert(pool_after_release(pool, bufs, cap) == pool_after_release(
            step,
            bufs.drop_first(),
            cap,
        ));
        assert(pool_after_release(step, bufs.drop_first(), cap) == step);
    } else {
        lemma_pool_after_release_snoc(step, bufs.drop_first(), cap);
        assert(bufs.drop_first().drop_last() =~= bufs.drop_last().drop_first());
        assert(bufs.drop_first().last() == bufs.last());
        assert(bufs.drop_last()[0] == bufs[0]);
    }
}

/// The mathematical state of a threaded engine: the bridge, the sender's
/// fallback output, and the redraw state machine.
#[verifier::ext_equal]
pub ghost struct EngineModel {
    pub bridge: BridgeModel,
    pub fallback: Seq<u8>,
    pub redraw: RedrawModel,
}

/// One step of the consumer loop, from engine state `pre` to `post`, with
/// result `r` and the status content `rendered` appended by the callback.
///
/// With an empty queue (so: a pending close signal) the step observes the
/// closure and changes nothing. Otherwise the step drains the *whole* queue,
/// returns every consumed buffer to the free list, and writes all payloads
/// inside a single erase/raw-mode bracket; if the close signal had been sent
/// it stops there and reports `Closed`, and only otherwise follows up with
/// the single render and flush of `write_step` — one render invocation for
/// the whole burst.
pub open spec fn drain_step(
    pre: EngineModel,
    rendered: Seq<ItemModel>,
    r: Result<DrainOutcome, WriteError>,
    post: EngineModel,
) -> bool {
    &&& post.fallback == pre.fallback
    &&& post.bridge.cap == pre.bridge.cap
    &&& post.bridge.closed == pre.bridge.closed
    &&& post.redraw.raw == pre.redraw.raw
    &&& if pre.bridge.queue.len() == 0 {
        &&& r == Ok::<DrainOutcome, WriteError>(DrainOutcome::Closed)
        &&& post == pre
    } else {
        &&& post.bridge.queue.len() == 0
        &&& post.bridge.pool == pool_after_release(
            pre.bridge.pool,
            pre.bridge.queue,
            pre.bridge.cap,
        )
        &&& if pre.bridge.closed {
            &&& r == Ok::<DrainOutcome, WriteError>(DrainOutcome::Closed)
            &&& post.redraw.lines == pre.redraw.lines
            &&& post.redraw.trace == pre.redraw.trace + erase_ops(pre.redraw.lines) + guard_ops(
                pre.redraw.raw,
                Command::DisableRawMode,
            ) + text_items(pre.bridge.queue) + guard_ops(pre.redraw.raw, Command::EnableRawMode)
        } else {
            &&& r matches Ok(o) ==> o == DrainOutcome::Continue
            &&& write_step(pre.redraw, pre.bridge.queue, rendered, r is Ok, post.redraw)
        }
    }
}

/// A status-line engine whose redraw work is fed through the buffer-pool
/// bridge: producers enqueue payloads with [`ThreadedEngine::send`] and the
/// consumer applies them in coalesced bursts with [`ThreadedEngine::drain`].
pub struct ThreadedEngine<C: StatusRender> {
    sender: LogSender,
    receiver: LogReceiver,
    state: WriteState<C>,
}

impl<C: StatusRender> View for ThreadedEngine<C> {
    type V = EngineModel;

    closed spec fn view(&self) -> EngineModel {
        EngineModel { bridge: self.receiver@, fallback: self.sender@, redraw: self.state@ }
    }
}

impl<C: StatusRender> ThreadedEngine<C> {
    /// A fresh engine: an empty bridge with the default capacity, and a state
    /// machine that has drawn nothing yet. The callback maker is consumed
    /// here, mirroring the concurrent deployment where the callback is built
    /// inside the background thread.
    pub fn new<T: MakeCallback<Callback = C>>(
        callback: T,
        console: Console,
        assume_raw_mode: bool,
    ) -> (e: ThreadedEngine<C>)
        ensures
            e@ == (EngineModel {
                bridge: BridgeModel {
                    queue: Seq::empty(),
                    pool: Seq::empty(),
                    cap: CHANNEL_CAPACITY as nat,
                    closed: false,
                },
                fallback: Seq::empty(),
                redraw: RedrawModel { trace: console@, lines: 0, raw: assume_raw_mode },
            }),
    {
        let (sender, receiver) = init();
        let state = WriteState::new(callback.make_callback(), console, assume_raw_mode);
        ThreadedEngine { sender, receiver, state }
    }

    /// Enqueue one payload for the consumer; see [`LogSender::write`].
    pub fn send(&mut self, buf: &[u8]) -> (out: SendOutcome)
        ensures
            final(self)@.bridge == spec_send(old(self)@.bridge, old(self)@.fallback, buf@).0,
            final(self)@.fallback == spec_send(old(self)@.bridge, old(self)@.fallback, buf@).1,
            out == spec_send(old(self)@.bridge, old(self)@.fallback, buf@).2,
            final(self)@.redraw == old(self)@.redraw,
    {
        self.sender.write(&mut self.receiver, buf)
    }

    /// Send the close signal; see [`LogSender::close`].
    pub fn close(&mut self)
        ensures
            final(self)@.bridge == spec_close(old(self)@.bridge),
            final(self)@.fallback == old(self)@.fallback,
            final(self)@.redraw == old(self)@.redraw,
    {
        self.sender.close(&mut self.receiver);
    }

    /// Whether a drain step would make progress: a payload is queued or the
    /// close signal has been sent.
    pub fn pending(&self) -> (b: bool)
        ensures
            b == self@.bridge.pending(),
    {
        self.receiver.has_queued() || self.receiver.is_closed()
    }

    /// The number of queued payloads.
    pub fn queue_len(&self) -> (n: usize)
        ensures
            n == self@.bridge.queue.len(),
    {
        self.receiver.queue_len()
    }

    /// The number of buffers in the free list.
    pub fn pool_len(&self) -> (n: usize)
        ensures
            n == self@.bridge.pool.len(),
    {
        self.receiver.pool_len()
    }

    /// The number of extra status lines the previous render produced.
    pub fn lines(&self) -> (n: u16)
        ensures
            n as nat == self@.redraw.lines,
    {
        self.state.lines()
    }

    /// The bytes that sends after closure wrote to the fallback output.
    pub fn fallback_output(&self) -> (b: &Vec<u8>)
        ensures
            b@ == self@.fallback,
    {
        self.sender.fallback_output()
    }

    /// Remove and return everything the state machine recorded so far; see
    /// [`WriteState::take_output`].
    pub fn take_output(&mut self) -> (out: Vec<Item>)
        ensures
            items_model(out@) == old(self)@.redraw.trace,
            final(self)@.redraw == (RedrawModel { trace: Seq::empty(), ..old(self)@.redraw }),
            final(self)@.bridge == old(self)@.bridge,
            final(self)@.fallback == old(self)@.fallback,
    {
        self.state.take_output()
    }

    /// One step of the consumer loop.
    ///
    /// Block-receive one payload, then pick up every payload that is already
    /// queued, writing each in arrival order, and only then render the status
    /// line once and flush: a burst of K rapidly sent payloads costs one
    /// render invocation, not K. Each consumed buffer is returned to the free
    /// list. If the close signal is observed the step closes the raw-mode
    /// bracket, stops without rendering, and reports `Closed`;
    /// a render failure is propagated and ends the background thread in the
    /// concurrent deployment.
    #[verifier::loop_isolation(false)]
    pub fn drain(&mut self) -> (r: Result<DrainOutcome, WriteError>)
        requires
            old(self)@.bridge.pending(),
        ensures
            exists|rendered: Seq<ItemModel>|
                #[trigger] drain_step(old(self)@, rendered, r, final(self)@),
    {
        let ghost q = old(self)@.bridge.queue;
        let ghost p0 = old(self)@.bridge.pool;
        let ghost cap = old(self)@.bridge.cap;
        let first = self.receiver.recv();
        match first {
            None => {
                proof {
                    assert(drain_step(
                        old(self)@,
                        Seq::empty(),
                        Ok(DrainOutcome::Closed),
                        self@,
                    ));
                }
                Ok(DrainOutcome::Closed)
            },
            Some(entry) => {
                self.state.emit_erase();
                let guard = self.state.open_raw_guard();
                self.state.emit_text(entry.bytes());
                entry.release(&mut self.receiver);
                let ghost mut consumed: int = 1;
                proof {
                    assert(self.receiver@.queue =~= q.skip(1));
                    assert(q.take(1).drop_first() =~= Seq::<Seq<u8>>::empty());
                    assert(q.take(1)[0] == q[0]);
                    let step1 = if p0.len() < cap {
                        p0.push(q[0])
                    } else {
                        p0
                    };
                    assert(pool_after_release(p0, q.take(1), cap) == pool_after_release(
                        step1,
                        q.take(1).drop_first(),
                        cap,
                    ));
                    assert(pool_after_release(step1, q.take(1).drop_first(), cap) == step1);
                    assert(self.receiver@.pool =~= pool_after_release(p0, q.take(1), cap));
                    assert(text_items(q.take(1)) =~= seq![ItemModel::Text(q[0])]);
                    assert(self.state@.trace =~= old(self)@.redraw.trace + erase_ops(
                        old(self)@.redraw.lines,
                    ) + guard_ops(old(self)@.redraw.raw, Command::DisableRawMode) + text_items(
                        q.take(1),
                    ));
                }
                while self.receiver.has_queued()
                    invariant
                        1 <= consumed <= q.len(),
                        self.receiver@.queue == q.skip(consumed),
                        self.receiver@.pool == pool_after_release(p0, q.take(consumed), cap),
                        self.receiver@.cap == cap,
                        self.receiver@.closed == old(self)@.bridge.closed,
                        self.sender@ == old(self)@.fallback,
                        self.state@.lines == old(self)@.redraw.lines,
                        self.state@.raw == old(self)@.redraw.raw,
                        self.state@.trace == old(self)@.redraw.trace + erase_ops(
                            old(self)@.redraw.lines,
                        ) + guard_ops(old(self)@.redraw.raw, Command::DisableRawMode) + text_items(
                            q.take(consumed),
                        ),
                    decreases q.len() - consumed,
                {
                    let next = self.receiver.try_recv();
                    match next {
                        Ok(entry2) => {
                            proof {
                                assert(q.skip(consumed)[0] == q[consumed]);
                            }
                            self.state.emit_text(entry2.bytes());
                            entry2.release(&mut self.receiver);
                            proof {
                                assert(self.receiver@.queue =~= q.skip(consumed + 1));
                                assert(q.take(consumed + 1).drop_last() =~= q.take(consumed));
                                assert(q.take(consumed + 1).last() == q[consumed]);
                                lemma_pool_after_release_snoc(p0, q.take(consumed + 1), cap);
                                assert(self.receiver@.pool =~= pool_after_release(
                                    p0,
                                    q.take(consumed + 1),
                                    cap,
                                ));
                                assert(text_items(q.take(consumed + 1)) =~= text_items(
                                    q.take(consumed),
                                ) + seq![ItemModel::Text(q[consumed])]);
                                consumed = consumed + 1;
                            }
                        },
                        Err(_) => {
                            proof {
                                assert(false);
                            }
                        },
                    }
                }
                proof {
                    assert(consumed == q.len());
                    assert(q.take(consumed) =~= q);
                }
                if self.receiver.is_closed() {
                    self.state.close_raw_guard(guard);
                    proof {
                        assert(drain_step(
                            old(self)@,
                            Seq::empty(),
                            Ok(DrainOutcome::Closed),
                            self@,
                        ));
                    }
                    Ok(DrainOutcome::Closed)
                } else {
                    self.state.close_raw_guard(guard);
                    self.state.emit_move_col0();
                    proof {
                        assert(self.state@.trace =~= old(self)@.redraw.trace + burst_prefix(
                            old(self)@.redraw.lines,
                            old(self)@.redraw.raw,
                            q,
                        ));
                    }
                    let ghost pre_render = self.state@.trace;
                    let res = self.state.invoke_callback();
                    let ghost rendered = self.state@.trace.skip(pre_render.len() as int);
                    proof {
                        assert(self.state@.trace =~= pre_render + rendered) by {
                            assert(self.state@.trace.take(pre_render.len() as int) =~= pre_render);
                        }
                    }
                    match res {
                        Ok(n) => {
                            self.state.record_lines(n);
                            self.state.flush();
                            proof {
                                assert(self.state@.trace =~= old(self)@.redraw.trace
                                    + burst_prefix(
                                    old(self)@.redraw.lines,
                                    old(self)@.redraw.raw,
                                    q,
                                ) + rendered + seq![ItemModel::Flush]);
                                assert(write_step(old(self)@.redraw, q, rendered, true, self.state@));
                                assert(drain_step(
                                    old(self)@,
                                    rendered,
                                    Ok(DrainOutcome::Continue),
                                    self@,
                                ));
                            }
                            Ok(DrainOutcome::Continue)
                        },
                        Err(e) => {
                            proof {
                                assert(write_step(
                                    old(self)@.redraw,
                                    q,
                                    rendered,
                                    false,
                                    self.state@,
                                ));
                                assert(drain_step(old(self)@, rendered, Err(e), self@));
                            }
                            Err(e)
                        },
                    }
                }
            },
        }
    }
}

} // verus!
