//! Configuration of the engines, and the status-render callback contract.
//!
//! A status-render callback is invoked after every log write; it appends the
//! status content to the console and reports how many *extra* lines it wrote
//! (0 for a single status line with no trailing line break). The engine
//! records that count and erases exactly that many lines, plus the current
//! one, before the next write.

use vstd::prelude::*;

use crate::console::{all_text, newline_count, newline_count_bytes, Console, ItemModel};
use crate::log_bridge::{BridgeModel, CHANNEL_CAPACITY};
use crate::threaded::{EngineModel, ThreadedEngine};
use crate::unthreaded::{RedrawModel, UnthreadedHandler};

verus! {

/// A failed write. The in-memory console cannot fail, so in this engine a
/// write fails exactly when the status-render callback reports a failure;
/// callbacks that drive real sinks report their I/O errors through this type.
#[derive(Clone, Copy, Debug, PartialEq, Eq, Structural)]
pub struct WriteError;

/// A status-render callback.
///
/// The contract is the engine's documented caller invariant: the callback
/// only appends to the console, appends only payload text, and, on success,
/// reports exactly the number of newline bytes it appended. An implementation
/// that misreports the count would make the engine erase the wrong number of
/// lines on the next write.
pub trait StatusRender {
    /// Append the status content to `console` and report the number of extra
    /// lines (newline bytes) written, or fail with a write error.
    fn render(&mut self, console: &mut Console) -> (r: Result<u16, WriteError>)
        ensures
            old(console)@.is_prefix_of(final(console)@),
            all_text(final(console)@.skip(old(console)@.len() as int)),
            r matches Ok(n) ==> newline_count(final(console)@.skip(old(console)@.len() as int))
                == n as nat,
    ;
}

/// Anything that can be turned into a status-render callback. Every callback
/// trivially is one; the indirection lets engine constructors defer building
/// the callback until it has reached its final owner.
pub trait MakeCallback {
    /// The callback this value turns into.
    type Callback: StatusRender;

    /// Turn this value into its callback.
    fn make_callback(self) -> Self::Callback;
}

impl<T: StatusRender> MakeCallback for T {
    type Callback = T;

    fn make_callback(self) -> T {
        self
    }
}

/// Count the newline bytes in `v`.
fn count_newlines(v: &[u8]) -> (n: usize)
    ensures
        n as nat == newline_count_bytes(v@),
{
    let mut n: usize = 0;
    let mut i: usize = 0;
    while i < v.len()
        invariant
            i <= v@.len(),
            n as nat == newline_count_bytes(v@.take(i as int)),
            n <= i,
        decreases v@.len() - i,
    {
        if v[i] == 10u8 {
            n = n + 1;
        }
        proof {
            assert(v@.take(i as int + 1).drop_last() =~= v@.take(i as int));
            assert(v@.take(i as int + 1).last() == v@[i as int]);
        }
        i = i + 1;
    }
    proof {
        assert(v@.take(v@.len() as int) =~= v@);
    }
    n
}

/// A status renderer that writes a fixed byte string on every invocation and
/// reports the number of newline bytes in it.
#[derive(Debug)]
pub struct FixedStatus {
    text: Vec<u8>,
}

impl View for FixedStatus {
    type V = Seq<u8>;

    closed spec fn view(&self) -> Seq<u8> {
        self.text@
    }
}

impl FixedStatus {
    /// A renderer that always writes `text`.
    pub fn new(text: Vec<u8>) -> (s: FixedStatus)
        ensures
            s@ == text@,
    {
        FixedStatus { text }
    }
}

/// Why an engine could not be built.
#[derive(Clone, Copy, Debug, PartialEq, Eq, Structural)]
pub enum BuildError {
    /// No status-render callback was configured.
    MissingCallback,
}

/// A finished engine: either the unthreaded handler, whose caller performs
/// every redraw itself, or the threaded engine, whose redraws are fed through
/// the buffer-pool bridge.
pub enum Engine<C: StatusRender> {
    /// The calling thread performs writes and redraws under a lock.
    Unthreaded(UnthreadedHandler<C>),
    /// Writes are enqueued on the bridge and applied by the consumer loop.
    Threaded(ThreadedEngine<C>),
}

/// The mathematical state of a builder: the output trace so far, and the
/// three configuration choices.
#[verifier::ext_equal]
pub ghost struct BuilderModel {
    pub trace: Seq<ItemModel>,
    pub has_callback: bool,
    pub raw: bool,
    pub threaded: bool,
}

/// A builder for status-line log engines.
///
/// Construction is validated: an engine can only be finished once a
/// status-render callback has been provided; finishing without one fails
/// with a configuration error.
pub struct Builder<C: StatusRender> {
    console: Console,
    callback: Option<C>,
    assume_raw_mode: bool,
    threaded: bool,
}

impl<C: StatusRender> View for Builder<C> {
    type V = BuilderModel;

    closed spec fn view(&self) -> BuilderModel {
        BuilderModel {
            trace: self.console@,
            has_callback: self.callback is Some,
            raw: self.assume_raw_mode,
            threaded: self.threaded,
        }
    }
}

impl<C: StatusRender> Builder<C> {
    /// A builder for the given output console: no callback yet, raw mode not
    /// assumed, unthreaded.
    pub fn new(console: Console) -> (b: Builder<C>)
        ensures
            b@ == (BuilderModel {
                trace: console@,
                has_callback: false,
                raw: false,
                threaded: false,
            }),
    {
        Builder { console, callback: None, assume_raw_mode: false, threaded: false }
    }

    /// Provide the status-render callback that will be invoked after every
    /// log write.
    pub fn with_callback(self, callback: C) -> (b: Builder<C>)
        ensures
            b@ == (BuilderModel { has_callback: true, ..self@ }),
    {
        Builder {
            console: self.console,
            callback: Some(callback),
            assume_raw_mode: self.assume_raw_mode,
            threaded: self.threaded,
        }
    }

    /// Declare that the terminal is in raw mode for the lifetime of the
    /// engine: every write will then suspend raw mode around the payload.
    pub fn assume_raw_mode(self) -> (b: Builder<C>)
        ensures
            b@ == (BuilderModel { raw: true, ..self@ }),
    {
        Builder {
            console: self.console,
            callback: self.callback,
            assume_raw_mode: true,
            threaded: self.threaded,
        }
    }

    /// Ask for the threaded engine, whose writes are decoupled from redraw
    /// cost through the buffer-pool bridge.
    pub fn threaded(self) -> (b: Builder<C>)
        ensures
            b@ == (BuilderModel { threaded: true, ..self@ }),
    {
        Builder {
            console: self.console,
            callback: self.callback,
            assume_raw_mode: self.assume_raw_mode,
            threaded: true,
        }
    }

    /// Finish construction: the engine asked for, in its initial state, or a
    /// configuration error if no callback was provided.
    pub fn finish(self) -> (r: Result<Engine<C>, BuildError>)
        ensures
            match r {
                Ok(e) => self@.has_callback && match e {
                    Engine::Unthreaded(h) => !self@.threaded && h@ == (RedrawModel {
                        trace: self@.trace,
                        lines: 0,
                        raw: self@.raw,
                    }),
                    Engine::Threaded(t) => self@.threaded && t@ == (EngineModel {
                        bridge: BridgeModel {
                            queue: Seq::empty(),
                            pool: Seq::empty(),
                            cap: CHANNEL_CAPACITY as nat,
                            closed: false,
                        },
                        fallback: Seq::empty(),
                        redraw: RedrawModel { trace: self@.trace, lines: 0, raw: self@.raw },
                    }),
                },
                Err(e) => !self@.has_callback && e == BuildError::MissingCallback,
            },
    {
        match self.callback {
            None => Err(BuildError::MissingCallback),
            Some(cb) => {
                if self.threaded {
                    Ok(Engine::Threaded(ThreadedEngine::new(cb, self.console, self.assume_raw_mode)))
                } else {
                    Ok(
                        Engine::Unthreaded(
                            UnthreadedHandler::new(cb, self.console, self.assume_raw_mode),
                        ),
                    )
                }
            },
        }
    }
}

impl StatusRender for FixedStatus {
    fn render(&mut self, console: &mut Console) -> (r: Result<u16, WriteError>) {
        let n = count_newlines(self.text.as_slice());
        if n > u16::MAX as usize {
            proof {
                assert(console@.skip(old(console)@.len() as int) =~= Seq::<ItemModel>::empty());
                assert(old(console)@.is_prefix_of(console@)) by {
                    assert(console@.take(old(console)@.len() as int) =~= old(console)@);
                }
            }
            return Err(WriteError);
        }
        console.text(self.text.as_slice());
        proof {
            let appended = console@.skip(old(console)@.len() as int);
            assert(appended =~= seq![ItemModel::Text(self@)]);
            assert(old(console)@.is_prefix_of(console@)) by {
                assert(console@.take(old(console)@.len() as int) =~= old(console)@);
            }
            let single = seq![ItemModel::Text(self@)];
            assert(single.last() == ItemModel::Text(self@));
            assert(single.drop_last() =~= Seq::<ItemModel>::empty());
            assert(newline_count(single.drop_last()) == 0);
            assert(newline_count(single) == newline_count_bytes(self@));
            assert(newline_count(appended) == newline_count_bytes(self@));
        }
        Ok(n as u16)
    }
}

} // verus!
