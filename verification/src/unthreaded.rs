//! The redraw state machine and the unthreaded writer built on it.
//!
//! Every log write performs the same sequence: erase the previously drawn
//! status lines, write the new payload, re-invoke the status-render callback
//! and record how many lines it produced, so the next write can erase exactly
//! that many. The sequence is specified here as trace algebra over the
//! console record: `burst_prefix` is everything the engine itself emits for
//! one write, up to the point where the callback takes over.

use vstd::prelude::*;

use crate::builder::{StatusRender, WriteError};
use crate::console::{
    all_text, count_item, items_model, lemma_count_item_add, newline_count, Command, Console, Item,
    ItemModel,
};
use crate::utils::RawModeGuard;

verus! {

/// The clear-line/move-up pairs that erase `l` previously drawn status lines.
pub open spec fn clear_up_ops(l: nat) -> Seq<ItemModel>
    decreases l,
{
    if l == 0 {
        Seq::empty()
    } else {
        clear_up_ops((l - 1) as nat) + seq![
            ItemModel::Control(Command::ClearLine),
            ItemModel::Control(Command::MoveUp(1)),
        ]
    }
}

/// The full erase phase before a write: return to column 0, reset the text
/// attributes, erase the `l` extra status lines, then erase the current line.
pub open spec fn erase_ops(l: nat) -> Seq<ItemModel> {
    seq![
        ItemModel::Control(Command::MoveToColumn(0)),
        ItemModel::Control(Command::ResetAttributes),
    ] + clear_up_ops(l) + seq![ItemModel::Control(Command::ClearLine)]
}

/// The byte sequences of a burst of payload buffers.
pub open spec fn payloads_model(bufs: Seq<Vec<u8>>) -> Seq<Seq<u8>> {
    bufs.map_values(|b: Vec<u8>| b@)
}

/// The payloads of a burst, written verbatim and in order.
pub open spec fn text_items(bufs: Seq<Seq<u8>>) -> Seq<ItemModel> {
    bufs.map_values(|b: Seq<u8>| ItemModel::Text(b))
}

/// The raw-mode command `c`, issued only when raw mode is assumed.
pub open spec fn guard_ops(raw: bool, c: Command) -> Seq<ItemModel> {
    if raw {
        seq![ItemModel::Control(c)]
    } else {
        Seq::empty()
    }
}

/// Everything the engine itself emits for one write of the payloads `bufs`,
/// starting from `l` previously drawn status lines: the erase phase, the
/// raw-mode bracket around the payload text, and the return to column 0
/// that precedes the render callback.
pub open spec fn burst_prefix(l: nat, raw: bool, bufs: Seq<Seq<u8>>) -> Seq<ItemModel> {
    erase_ops(l) + guard_ops(raw, Command::DisableRawMode) + text_items(bufs) + guard_ops(
        raw,
        Command::EnableRawMode,
    ) + seq![ItemModel::Control(Command::MoveToColumn(0))]
}

/// The mathematical state of a redraw state machine: the trace of everything
/// written so far, the recorded status line count, and whether raw mode is
/// assumed.
#[verifier::ext_equal]
pub ghost struct RedrawModel {
    pub trace: Seq<ItemModel>,
    pub lines: nat,
    pub raw: bool,
}

/// One write step of the redraw state machine, from state `pre` to state
/// `post`: the engine emits `burst_prefix` for the payloads, the callback
/// appends `rendered` (text only), and, on success, the engine flushes and
/// records the newline count of `rendered` as the new line count. On failure
/// nothing is flushed and the recorded count is unchanged.
pub open spec fn write_step(
    pre: RedrawModel,
    bufs: Seq<Seq<u8>>,
    rendered: Seq<ItemModel>,
    ok: bool,
    post: RedrawModel,
) -> bool {
    &&& all_text(rendered)
    &&& post.raw == pre.raw
    &&& if ok {
        &&& post.trace == pre.trace + burst_prefix(pre.lines, pre.raw, bufs) + rendered + seq![
            ItemModel::Flush,
        ]
        &&& post.lines == newline_count(rendered)
    } else {
        &&& post.trace == pre.trace + burst_prefix(pre.lines, pre.raw, bufs) + rendered
        &&& post.lines == pre.lines
    }
}

/// The internal state of a writer: the status-render callback, the console
/// the engine writes to, the raw-mode setting, and the number of extra status
/// lines the previous render produced.
pub struct WriteState<C: StatusRender> {
    callback: C,
    console: Console,
    assume_raw_mode: bool,
    lines: u16,
}

impl<C: StatusRender> View for WriteState<C> {
    type V = RedrawModel;

    closed spec fn view(&self) -> RedrawModel {
        RedrawModel {
            trace: self.console@,
            lines: self.lines as nat,
            raw: self.assume_raw_mode,
        }
    }
}

impl<C: StatusRender> WriteState<C> {
    /// A fresh state: nothing drawn yet, so nothing to erase on the first
    /// write.
    pub fn new(callback: C, console: Console, assume_raw_mode: bool) -> (s: WriteState<C>)
        ensures
            s@ == (RedrawModel { trace: console@, lines: 0, raw: assume_raw_mode }),
    {
        WriteState { callback, console, assume_raw_mode, lines: 0 }
    }

    /// Invoke the status-render callback on the embedded console.
    pub(crate) fn invoke_callback(&mut self) -> (r: Result<u16, WriteError>)
        ensures
            final(self)@.lines == old(self)@.lines,
            final(self)@.raw == old(self)@.raw,
            old(self)@.trace.is_prefix_of(final(self)@.trace),
            all_text(final(self)@.trace.skip(old(self)@.trace.len() as int)),
            r matches Ok(n) ==> newline_count(
                final(self)@.trace.skip(old(self)@.trace.len() as int),
            ) == n as nat,
    {
        self.callback.render(&mut self.console)
    }

    /// Emit the erase phase for the currently recorded line count.
    #[verifier::loop_isolation(false)]
    pub(crate) fn emit_erase(&mut self)
        ensures
            final(self)@ == (RedrawModel {
                trace: old(self)@.trace + erase_ops(old(self)@.lines),
                ..old(self)@
            }),
    {
        self.console.command(Command::MoveToColumn(0));
        self.console.command(Command::ResetAttributes);
        let ghost head = old(self)@.trace + seq![
            ItemModel::Control(Command::MoveToColumn(0)),
            ItemModel::Control(Command::ResetAttributes),
        ];
        proof {
            assert(self.console@ =~= head);
        }
        let mut i: u16 = 0;
        while i < self.lines
            invariant
                i <= self.lines,
                self.lines == old(self).lines,
                self.assume_raw_mode == old(self).assume_raw_mode,
                self.callback == old(self).callback,
                self.console@ == head + clear_up_ops(i as nat),
            decreases self.lines - i,
        {
            self.console.command(Command::ClearLine);
            self.console.command(Command::MoveUp(1));
            proof {
                assert(self.console@ =~= head + clear_up_ops((i + 1) as nat));
            }
            i = i + 1;
        }
        self.console.command(Command::ClearLine);
        proof {
            assert(self.console@ =~= old(self)@.trace + erase_ops(old(self)@.lines));
        }
    }

    /// Open the raw-mode bracket: when raw mode is assumed, issue the
    /// disable-raw-mode command and hand out the guard.
    pub(crate) fn open_raw_guard(&mut self) -> (g: Option<RawModeGuard>)
        ensures
            final(self)@ == (RedrawModel {
                trace: old(self)@.trace + guard_ops(old(self)@.raw, Command::DisableRawMode),
                ..old(self)@
            }),
            g is Some <==> old(self)@.raw,
    {
        if self.assume_raw_mode {
            let g = RawModeGuard::new(&mut self.console);
            proof {
                assert(self@ =~= (RedrawModel {
                    trace: old(self)@.trace + guard_ops(old(self)@.raw, Command::DisableRawMode),
                    ..old(self)@
                }));
            }
            Some(g)
        } else {
            proof {
                assert(self@.trace =~= old(self)@.trace + guard_ops(
                    old(self)@.raw,
                    Command::DisableRawMode,
                ));
            }
            None
        }
    }

    /// Close the raw-mode bracket: release the guard, if one was taken,
    /// issuing the re-enable-raw-mode command.
    pub(crate) fn close_raw_guard(&mut self, g: Option<RawModeGuard>)
        requires
            g is Some <==> old(self)@.raw,
        ensures
            final(self)@ == (RedrawModel {
                trace: old(self)@.trace + guard_ops(old(self)@.raw, Command::EnableRawMode),
                ..old(self)@
            }),
    {
        match g {
            Some(g) => {
                g.release(&mut self.console);
                proof {
                    assert(self@ =~= (RedrawModel {
                        trace: old(self)@.trace + guard_ops(old(self)@.raw, Command::EnableRawMode),
                        ..old(self)@
                    }));
                }
            },
            None => {
                proof {
                    assert(self@.trace =~= old(self)@.trace + guard_ops(
                        old(self)@.raw,
                        Command::EnableRawMode,
                    ));
                }
            },
        }
    }

    /// Write one payload verbatim.
    pub(crate) fn emit_text(&mut self, buf: &[u8])
        ensures
            final(self)@ == (RedrawModel {
                trace: old(self)@.trace + seq![ItemModel::Text(buf@)],
                ..old(self)@
            }),
    {
        self.console.text(buf);
    }

    /// Return the cursor to column 0, ahead of the render callback.
    pub(crate) fn emit_move_col0(&mut self)
        ensures
            final(self)@ == (RedrawModel {
                trace: old(self)@.trace + seq![ItemModel::Control(Command::MoveToColumn(0))],
                ..old(self)@
            }),
    {
        self.console.command(Command::MoveToColumn(0));
    }

    /// Record the line count the render callback reported.
    pub(crate) fn record_lines(&mut self, n: u16)
        ensures
            final(self)@ == (RedrawModel { lines: n as nat, ..old(self)@ }),
    {
        self.lines = n;
    }

    /// Perform one full write of `buf`: erase the previous status lines,
    /// write the payload (inside the raw-mode bracket when raw mode is
    /// assumed), re-invoke the render callback and record its count, and
    /// flush. Returns the number of payload bytes written; fails exactly
    /// when the callback fails, in which case nothing is flushed and the
    /// recorded line count is unchanged.
    pub fn write(&mut self, buf: &[u8]) -> (r: Result<usize, WriteError>)
        ensures
            r matches Ok(n) ==> n == buf@.len(),
            exists|rendered: Seq<ItemModel>|
                #[trigger] write_step(old(self)@, seq![buf@], rendered, r is Ok, final(self)@),
    {
        self.emit_erase();
        let guard = self.open_raw_guard();
        self.emit_text(buf);
        self.close_raw_guard(guard);
        self.emit_move_col0();
        proof {
            assert(text_items(seq![buf@]) =~= seq![ItemModel::Text(buf@)]);
            assert(self.console@ =~= old(self)@.trace + burst_prefix(
                old(self)@.lines,
                old(self)@.raw,
                seq![buf@],
            ));
        }
        let ghost pre_render = self.console@;
        let r = self.invoke_callback();
        let ghost rendered = self.console@.skip(pre_render.len() as int);
        proof {
            assert(self.console@ =~= pre_render + rendered) by {
                assert(self.console@.take(pre_render.len() as int) =~= pre_render);
            }
        }
        match r {
            Ok(n) => {
                self.lines = n;
                self.console.flush();
                proof {
                    assert(self.console@ =~= old(self)@.trace + burst_prefix(
                        old(self)@.lines,
                        old(self)@.raw,
                        seq![buf@],
                    ) + rendered + seq![ItemModel::Flush]);
                    assert(write_step(old(self)@, seq![buf@], rendered, true, self@));
                }
                Ok(buf.len())
            },
            Err(e) => {
                proof {
                    assert(self.console@ =~= old(self)@.trace + burst_prefix(
                        old(self)@.lines,
                        old(self)@.raw,
                        seq![buf@],
                    ) + rendered);
                    assert(write_step(old(self)@, seq![buf@], rendered, false, self@));
                }
                Err(e)
            },
        }
    }

    /// Write every payload of a burst, verbatim and in order.
    #[verifier::loop_isolation(false)]
    fn emit_texts(&mut self, bufs: &Vec<Vec<u8>>)
        ensures
            final(self)@ == (RedrawModel {
                trace: old(self)@.trace + text_items(payloads_model(bufs@)),
                ..old(self)@
            }),
    {
        let ghost bm = payloads_model(bufs@);
        let mut i: usize = 0;
        proof {
            assert(text_items(bm.take(0)) =~= Seq::<ItemModel>::empty());
            assert(self@.trace =~= old(self)@.trace + text_items(bm.take(0)));
        }
        while i < bufs.len()
            invariant
                i <= bufs@.len(),
                self@.lines == old(self)@.lines,
                self@.raw == old(self)@.raw,
                self@.trace == old(self)@.trace + text_items(bm.take(i as int)),
            decreases bufs@.len() - i,
        {
            let b: &Vec<u8> = &bufs[i];
            self.emit_text(b.as_slice());
            proof {
                assert(text_items(bm.take(i as int + 1)) =~= text_items(bm.take(i as int))
                    + seq![ItemModel::Text(bm[i as int])]);
                assert(self@.trace =~= old(self)@.trace + text_items(bm.take(i as int + 1)));
            }
            i = i + 1;
        }
        proof {
            assert(bm.take(bufs@.len() as int) =~= bm);
        }
    }

    /// Perform one write of a whole burst of payloads: erase the previous
    /// status lines once, write every payload in order (inside a single
    /// raw-mode bracket when raw mode is assumed), then render and flush
    /// once. This is the coalesced form of [`WriteState::write`]: a burst of
    /// K payloads costs one render invocation, not K. Returns the number of
    /// payloads written; fails exactly when the callback fails.
    #[verifier::loop_isolation(false)]
    pub fn write_burst(&mut self, bufs: &Vec<Vec<u8>>) -> (r: Result<usize, WriteError>)
        requires
            bufs@.len() > 0,
        ensures
            r matches Ok(n) ==> n == bufs@.len(),
            exists|rendered: Seq<ItemModel>|
                #[trigger] write_step(
                    old(self)@,
                    payloads_model(bufs@),
                    rendered,
                    r is Ok,
                    final(self)@,
                ),
    {
        let ghost bm = payloads_model(bufs@);
        self.emit_erase();
        let guard = self.open_raw_guard();
        self.emit_texts(bufs);
        self.close_raw_guard(guard);
        self.emit_move_col0();
        proof {
            assert(self@.trace =~= old(self)@.trace + burst_prefix(
                old(self)@.lines,
                old(self)@.raw,
                bm,
            ));
        }
        let ghost pre_render = self@.trace;
        let res = self.invoke_callback();
        let ghost rendered = self@.trace.skip(pre_render.len() as int);
        proof {
            assert(self@.trace =~= pre_render + rendered) by {
                assert(self@.trace.take(pre_render.len() as int) =~= pre_render);
            }
        }
        match res {
            Ok(n) => {
                self.record_lines(n);
                self.flush();
                proof {
                    assert(self@.trace =~= old(self)@.trace + burst_prefix(
                        old(self)@.lines,
                        old(self)@.raw,
                        bm,
                    ) + rendered + seq![ItemModel::Flush]);
                    assert(write_step(old(self)@, payloads_model(bufs@), rendered, true, self@));
                }
                Ok(bufs.len())
            },
            Err(e) => {
                proof {
                    assert(write_step(old(self)@, payloads_model(bufs@), rendered, false, self@));
                }
                Err(e)
            },
        }
    }

    /// Write a final burst of payloads after the close signal was observed:
    /// erase the previous status lines and write the payloads, inside the
    /// raw-mode bracket, but render no further status line and flush nothing
    /// — the consumer is shutting down.
    pub fn write_closing_burst(&mut self, bufs: &Vec<Vec<u8>>)
        requires
            bufs@.len() > 0,
        ensures
            final(self)@ == (RedrawModel {
                trace: old(self)@.trace + erase_ops(old(self)@.lines) + guard_ops(
                    old(self)@.raw,
                    Command::DisableRawMode,
                ) + text_items(payloads_model(bufs@)) + guard_ops(
                    old(self)@.raw,
                    Command::EnableRawMode,
                ),
                ..old(self)@
            }),
    {
        self.emit_erase();
        let guard = self.open_raw_guard();
        self.emit_texts(bufs);
        self.close_raw_guard(guard);
        proof {
            assert(self@ =~= (RedrawModel {
                trace: old(self)@.trace + erase_ops(old(self)@.lines) + guard_ops(
                    old(self)@.raw,
                    Command::DisableRawMode,
                ) + text_items(payloads_model(bufs@)) + guard_ops(
                    old(self)@.raw,
                    Command::EnableRawMode,
                ),
                ..old(self)@
            }));
        }
    }

    /// Flush the sink without writing anything.
    pub fn flush(&mut self)
        ensures
            final(self)@ == (RedrawModel {
                trace: old(self)@.trace + seq![ItemModel::Flush],
                ..old(self)@
            }),
    {
        self.console.flush();
    }

    /// The number of extra status lines the previous render produced.
    pub fn lines(&self) -> (n: u16)
        ensures
            n as nat == self@.lines,
    {
        self.lines
    }

    /// Whether the wrapped output is assumed to be a raw-mode terminal.
    pub fn assumes_raw_mode(&self) -> (b: bool)
        ensures
            b == self@.raw,
    {
        self.assume_raw_mode
    }

    /// Remove and return everything recorded so far, leaving the trace empty
    /// but the line count and settings untouched. The surrounding application
    /// calls this after each write to replay the record onto a real terminal.
    pub fn take_output(&mut self) -> (out: Vec<Item>)
        ensures
            items_model(out@) == old(self)@.trace,
            final(self)@ == (RedrawModel { trace: Seq::empty(), ..old(self)@ }),
    {
        self.console.take()
    }
}

/// A writer that forwards everything written to it and follows each write
/// with an invocation of the status-render callback. This sequential writer
/// owns its state; the surrounding application shares it between handles
/// behind a lock.
pub struct LogWriter<C: StatusRender> {
    state: WriteState<C>,
}

impl<C: StatusRender> View for LogWriter<C> {
    type V = RedrawModel;

    closed spec fn view(&self) -> RedrawModel {
        self.state@
    }
}

impl<C: StatusRender> LogWriter<C> {
    /// A fresh writer around the given callback, console and raw-mode
    /// setting.
    pub fn new(callback: C, console: Console, assume_raw_mode: bool) -> (w: LogWriter<C>)
        ensures
            w@ == (RedrawModel { trace: console@, lines: 0, raw: assume_raw_mode }),
    {
        LogWriter { state: WriteState::new(callback, console, assume_raw_mode) }
    }

    /// Write one log payload; see [`WriteState::write`].
    pub fn write(&mut self, buf: &[u8]) -> (r: Result<usize, WriteError>)
        ensures
            r matches Ok(n) ==> n == buf@.len(),
            exists|rendered: Seq<ItemModel>|
                #[trigger] write_step(old(self)@, seq![buf@], rendered, r is Ok, final(self)@),
    {
        let r = self.state.write(buf);
        proof {
            let rendered = choose|rendered: Seq<ItemModel>|
                #[trigger] write_step(old(self).state@, seq![buf@], rendered, r is Ok, self.state@);
            assert(write_step(old(self)@, seq![buf@], rendered, r is Ok, self@));
        }
        r
    }

    /// Write a whole burst of payloads with a single erase and a single
    /// render; see [`WriteState::write_burst`].
    pub fn write_burst(&mut self, bufs: &Vec<Vec<u8>>) -> (r: Result<usize, WriteError>)
        requires
            bufs@.len() > 0,
        ensures
            r matches Ok(n) ==> n == bufs@.len(),
            exists|rendered: Seq<ItemModel>|
                #[trigger] write_step(
                    old(self)@,
                    payloads_model(bufs@),
                    rendered,
                    r is Ok,
                    final(self)@,
                ),
    {
        let r = self.state.write_burst(bufs);
        proof {
            let rendered = choose|rendered: Seq<ItemModel>|
                #[trigger] write_step(
                    old(self).state@,
                    payloads_model(bufs@),
                    rendered,
                    r is Ok,
                    self.state@,
                );
            assert(write_step(
                old(self)@,
                payloads_model(bufs@),
                rendered,
                r is Ok,
                self@,
            ));
        }
        r
    }

    /// Write a final burst without rendering, after the close signal was
    /// observed; see [`WriteState::write_closing_burst`].
    pub fn write_closing_burst(&mut self, bufs: &Vec<Vec<u8>>)
        requires
            bufs@.len() > 0,
        ensures
            final(self)@ == (RedrawModel {
                trace: old(self)@.trace + erase_ops(old(self)@.lines) + guard_ops(
                    old(self)@.raw,
                    Command::DisableRawMode,
                ) + text_items(payloads_model(bufs@)) + guard_ops(
                    old(self)@.raw,
                    Command::EnableRawMode,
                ),
                ..old(self)@
            }),
    {
        self.state.write_closing_burst(bufs);
    }

    /// Flush the sink without writing a payload.
    pub fn flush(&mut self)
        ensures
            final(self)@ == (RedrawModel {
                trace: old(self)@.trace + seq![ItemModel::Flush],
                ..old(self)@
            }),
    {
        self.state.flush();
    }

    /// The number of extra status lines the previous render produced.
    pub fn lines(&self) -> (n: u16)
        ensures
            n as nat == self@.lines,
    {
        self.state.lines()
    }

    /// Remove and return everything recorded so far; see
    /// [`WriteState::take_output`].
    pub fn take_output(&mut self) -> (out: Vec<Item>)
        ensures
            items_model(out@) == old(self)@.trace,
            final(self)@ == (RedrawModel { trace: Seq::empty(), ..old(self)@ }),
    {
        self.state.take_output()
    }
}

/// An unthreaded status-line log handler: the calling thread itself performs
/// every redraw. The surrounding application wraps the writer in a shared
/// lock and hands out cheap clones of the handle.
pub struct UnthreadedHandler<C: StatusRender> {
    writer: LogWriter<C>,
}

impl<C: StatusRender> View for UnthreadedHandler<C> {
    type V = RedrawModel;

    closed spec fn view(&self) -> RedrawModel {
        self.writer@
    }
}

impl<C: StatusRender> UnthreadedHandler<C> {
    /// A fresh handler around the given callback, console and raw-mode
    /// setting.
    pub fn new(callback: C, console: Console, assume_raw_mode: bool) -> (h: UnthreadedHandler<C>)
        ensures
            h@ == (RedrawModel { trace: console@, lines: 0, raw: assume_raw_mode }),
    {
        UnthreadedHandler { writer: LogWriter::new(callback, console, assume_raw_mode) }
    }

    /// The writer driving this handler.
    pub fn writer(&mut self) -> (w: &mut LogWriter<C>)
        ensures
            w@ == old(self)@,
            final(self)@ == final(w)@,
    {
        &mut self.writer
    }
}

/// How often `x` occurs in a one-element sequence.
proof fn lemma_count_item_singleton(a: ItemModel, x: ItemModel)
    ensures
        count_item(seq![a], x) == (if a == x {
            1nat
        } else {
            0nat
        }),
{
    assert(seq![a].last() == a);
    assert(seq![a].drop_last() =~= Seq::<ItemModel>::empty());
    assert(count_item(Seq::<ItemModel>::empty(), x) == 0);
}

/// The erase pairs contain `l` of each erase command and nothing else.
proof fn lemma_clear_up_ops_count(l: nat, x: ItemModel)
    ensures
        count_item(clear_up_ops(l), x) == (if x == ItemModel::Control(Command::ClearLine) || x
            == ItemModel::Control(Command::MoveUp(1)) {
            l
        } else {
            0nat
        }),
    decreases l,
{
    if l > 0 {
        let pair = seq![
            ItemModel::Control(Command::ClearLine),
            ItemModel::Control(Command::MoveUp(1)),
        ];
        lemma_clear_up_ops_count((l - 1) as nat, x);
        lemma_count_item_add(clear_up_ops((l - 1) as nat), pair, x);
        assert(pair.drop_last() =~= seq![ItemModel::Control(Command::ClearLine)]);
        lemma_count_item_singleton(ItemModel::Control(Command::ClearLine), x);
    }
}

/// A pure-text segment contains nothing but text.
proof fn lemma_all_text_count(s: Seq<ItemModel>, x: ItemModel)
    requires
        all_text(s),
        !(x is Text),
    ensures
        count_item(s, x) == 0,
    decreases s.len(),
{
    if s.len() > 0 {
        assert(s.last() == s[s.len() - 1]);
        assert(all_text(s.drop_last())) by {
            assert(forall|i: int|
                0 <= i < s.drop_last().len() ==> s.drop_last()[i] == s[i] && s[i] is Text);
        }
        lemma_all_text_count(s.drop_last(), x);
    }
}

/// Payload text contains only text.
proof fn lemma_text_items_count(bufs: Seq<Seq<u8>>, x: ItemModel)
    requires
        !(x is Text),
    ensures
        count_item(text_items(bufs), x) == 0,
{
    assert(all_text(text_items(bufs))) by {
        assert(forall|i: int|
            0 <= i < bufs.len() ==> #[trigger] text_items(bufs)[i] == ItemModel::Text(bufs[i]));
    }
    lemma_all_text_count(text_items(bufs), x);
}

/// How often the item `x` occurs in the whole erase phase.
proof fn lemma_erase_ops_count(l: nat, x: ItemModel)
    ensures
        count_item(erase_ops(l), x) == (if x == ItemModel::Control(Command::ClearLine) {
            l + 1
        } else if x == ItemModel::Control(Command::MoveUp(1)) {
            l
        } else if x == ItemModel::Control(Command::MoveToColumn(0)) || x == ItemModel::Control(
            Command::ResetAttributes,
        ) {
            1nat
        } else {
            0nat
        }),
{
    let head = seq![
        ItemModel::Control(Command::MoveToColumn(0)),
        ItemModel::Control(Command::ResetAttributes),
    ];
    let tail = seq![ItemModel::Control(Command::ClearLine)];
    lemma_count_item_add(head + clear_up_ops(l), tail, x);
    lemma_count_item_add(head, clear_up_ops(l), x);
    lemma_clear_up_ops_count(l, x);
    assert(head.drop_last() =~= seq![ItemModel::Control(Command::MoveToColumn(0))]);
    lemma_count_item_singleton(ItemModel::Control(Command::MoveToColumn(0)), x);
    lemma_count_item_singleton(ItemModel::Control(Command::ClearLine), x);
}

/// How often the non-text item `x` occurs in the whole prefix of a write.
proof fn lemma_burst_prefix_count(l: nat, raw: bool, bufs: Seq<Seq<u8>>, x: ItemModel)
    requires
        !(x is Text),
    ensures
        count_item(burst_prefix(l, raw, bufs), x) == count_item(erase_ops(l), x) + (if raw && (x
            == ItemModel::Control(Command::DisableRawMode) || x == ItemModel::Control(
            Command::EnableRawMode,
        )) {
            1nat
        } else {
            0nat
        }) + (if x == ItemModel::Control(Command::MoveToColumn(0)) {
            1nat
        } else {
            0nat
        }),
{
    let open_g = guard_ops(raw, Command::DisableRawMode);
    let close_g = guard_ops(raw, Command::EnableRawMode);
    let col0 = seq![ItemModel::Control(Command::MoveToColumn(0))];
    lemma_count_item_add(erase_ops(l) + open_g + text_items(bufs) + close_g, col0, x);
    lemma_count_item_add(erase_ops(l) + open_g + text_items(bufs), close_g, x);
    lemma_count_item_add(erase_ops(l) + open_g, text_items(bufs), x);
    lemma_count_item_add(erase_ops(l), open_g, x);
    lemma_text_items_count(bufs, x);
    lemma_count_item_singleton(ItemModel::Control(Command::MoveToColumn(0)), x);
    lemma_count_item_singleton(ItemModel::Control(Command::DisableRawMode), x);
    lemma_count_item_singleton(ItemModel::Control(Command::EnableRawMode), x);
    if raw {
        assert(open_g =~= seq![ItemModel::Control(Command::DisableRawMode)]);
        assert(close_g =~= seq![ItemModel::Control(Command::EnableRawMode)]);
    } else {
        assert(count_item(open_g, x) == 0);
        assert(count_item(close_g, x) == 0);
    }
}

/// Law (line-count invariant): before payload `k` of a write is emitted, the
/// engine issues exactly `l` move-up commands and `l + 1` clear-line commands
/// — one per previously drawn extra status line, plus one for the current
/// line — where `l` is the line count recorded by the previous write (the
/// count the render callback returned then, or 0 before the first write).
/// Nothing else in the write's prefix clears or moves up.
pub proof fn lemma_line_count_invariant(l: nat, raw: bool, bufs: Seq<Seq<u8>>)
    ensures
        count_item(burst_prefix(l, raw, bufs), ItemModel::Control(Command::MoveUp(1))) == l,
        count_item(burst_prefix(l, raw, bufs), ItemModel::Control(Command::ClearLine)) == l + 1,
{
    lemma_burst_prefix_count(l, raw, bufs, ItemModel::Control(Command::MoveUp(1)));
    lemma_erase_ops_count(l, ItemModel::Control(Command::MoveUp(1)));
    lemma_burst_prefix_count(l, raw, bufs, ItemModel::Control(Command::ClearLine));
    lemma_erase_ops_count(l, ItemModel::Control(Command::ClearLine));
}

/// Law (raw-mode toggling): when raw mode is assumed, the prefix of every
/// write contains exactly one disable-raw-mode and one re-enable-raw-mode
/// command, bracketing the payload text; without the assumption it contains
/// none. The bracket is part of the prefix, emitted in full before the render
/// callback runs, so it is complete even when the callback fails.
pub proof fn lemma_raw_mode_guard(l: nat, bufs: Seq<Seq<u8>>)
    ensures
        burst_prefix(l, true, bufs) == erase_ops(l) + seq![
            ItemModel::Control(Command::DisableRawMode),
        ] + text_items(bufs) + seq![ItemModel::Control(Command::EnableRawMode)] + seq![
            ItemModel::Control(Command::MoveToColumn(0)),
        ],
        count_item(burst_prefix(l, true, bufs), ItemModel::Control(Command::DisableRawMode)) == 1,
        count_item(burst_prefix(l, true, bufs), ItemModel::Control(Command::EnableRawMode)) == 1,
        count_item(burst_prefix(l, false, bufs), ItemModel::Control(Command::DisableRawMode)) == 0,
        count_item(burst_prefix(l, false, bufs), ItemModel::Control(Command::EnableRawMode)) == 0,
{
    lemma_burst_prefix_count(l, true, bufs, ItemModel::Control(Command::DisableRawMode));
    lemma_burst_prefix_count(l, true, bufs, ItemModel::Control(Command::EnableRawMode));
    lemma_burst_prefix_count(l, false, bufs, ItemModel::Control(Command::DisableRawMode));
    lemma_burst_prefix_count(l, false, bufs, ItemModel::Control(Command::EnableRawMode));
    lemma_erase_ops_count(l, ItemModel::Control(Command::DisableRawMode));
    lemma_erase_ops_count(l, ItemModel::Control(Command::EnableRawMode));
}

/// How often the non-text item `x` occurs in everything one write step
/// appends: the engine's prefix, the callback's rendered text, and the
/// closing flush on success.
proof fn lemma_appended_count(
    l: nat,
    raw: bool,
    bufs: Seq<Seq<u8>>,
    rendered: Seq<ItemModel>,
    ok: bool,
    x: ItemModel,
)
    requires
        !(x is Text),
        all_text(rendered),
    ensures
        count_item(
            burst_prefix(l, raw, bufs) + rendered + (if ok {
                seq![ItemModel::Flush]
            } else {
                Seq::<ItemModel>::empty()
            }),
            x,
        ) == count_item(burst_prefix(l, raw, bufs), x) + (if ok && x == ItemModel::Flush {
            1nat
        } else {
            0nat
        }),
{
    let prefix = burst_prefix(l, raw, bufs);
    let fl: Seq<ItemModel> = if ok {
        seq![ItemModel::Flush]
    } else {
        Seq::<ItemModel>::empty()
    };
    lemma_count_item_add(prefix + rendered, fl, x);
    lemma_count_item_add(prefix, rendered, x);
    lemma_all_text_count(rendered, x);
    if ok {
        lemma_count_item_singleton(ItemModel::Flush, x);
    }
}

/// Law (coalescing, and the shape of one write step): however many payloads
/// a write step carries, the items it appends to the trace contain exactly
/// one flush on success and none on failure — the status line is rendered
/// and flushed once per burst, not once per payload — exactly one
/// disable/enable raw-mode pair when raw mode is assumed and none otherwise,
/// and exactly `pre.lines` move-up and `pre.lines + 1` clear-line commands,
/// whatever text the callback rendered.
pub proof fn lemma_write_step_counts(
    pre: RedrawModel,
    bufs: Seq<Seq<u8>>,
    rendered: Seq<ItemModel>,
    ok: bool,
    post: RedrawModel,
)
    requires
        write_step(pre, bufs, rendered, ok, post),
    ensures
        ({
            let appended = post.trace.skip(pre.trace.len() as int);
            &&& count_item(appended, ItemModel::Flush) == (if ok {
                1nat
            } else {
                0nat
            })
            &&& count_item(appended, ItemModel::Control(Command::DisableRawMode)) == (if pre.raw {
                1nat
            } else {
                0nat
            })
            &&& count_item(appended, ItemModel::Control(Command::EnableRawMode)) == (if pre.raw {
                1nat
            } else {
                0nat
            })
            &&& count_item(appended, ItemModel::Control(Command::MoveUp(1))) == pre.lines
            &&& count_item(appended, ItemModel::Control(Command::ClearLine)) == pre.lines + 1
        }),
{
    let prefix = burst_prefix(pre.lines, pre.raw, bufs);
    let fl: Seq<ItemModel> = if ok {
        seq![ItemModel::Flush]
    } else {
        Seq::<ItemModel>::empty()
    };
    let app_items = prefix + rendered + fl;
    assert(post.trace =~= pre.trace + app_items);
    assert(post.trace.skip(pre.trace.len() as int) =~= app_items);
    lemma_appended_count(pre.lines, pre.raw, bufs, rendered, ok, ItemModel::Flush);
    lemma_appended_count(
        pre.lines,
        pre.raw,
        bufs,
        rendered,
        ok,
        ItemModel::Control(Command::DisableRawMode),
    );
    lemma_appended_count(
        pre.lines,
        pre.raw,
        bufs,
        rendered,
        ok,
        ItemModel::Control(Command::EnableRawMode),
    );
    lemma_appended_count(pre.lines, pre.raw, bufs, rendered, ok, ItemModel::Control(Command::MoveUp(1)));
    lemma_appended_count(
        pre.lines,
        pre.raw,
        bufs,
        rendered,
        ok,
        ItemModel::Control(Command::ClearLine),
    );
    lemma_burst_prefix_count(pre.lines, pre.raw, bufs, ItemModel::Flush);
    lemma_burst_prefix_count(pre.lines, pre.raw, bufs, ItemModel::Control(Command::DisableRawMode));
    lemma_burst_prefix_count(pre.lines, pre.raw, bufs, ItemModel::Control(Command::EnableRawMode));
    lemma_burst_prefix_count(pre.lines, pre.raw, bufs, ItemModel::Control(Command::MoveUp(1)));
    lemma_burst_prefix_count(pre.lines, pre.raw, bufs, ItemModel::Control(Command::ClearLine));
    lemma_erase_ops_count(pre.lines, ItemModel::Flush);
    lemma_erase_ops_count(pre.lines, ItemModel::Control(Command::DisableRawMode));
    lemma_erase_ops_count(pre.lines, ItemModel::Control(Command::EnableRawMode));
    lemma_erase_ops_count(pre.lines, ItemModel::Control(Command::MoveUp(1)));
    lemma_erase_ops_count(pre.lines, ItemModel::Control(Command::ClearLine));
}

} // verus!
