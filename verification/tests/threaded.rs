//! Behavior of the threaded engine: coalescing, closure, fallback.

use std::cell::Cell;
use std::rc::Rc;

use tracing_statusbar::{
    Command, Console, DrainOutcome, FixedStatus, Item, SendOutcome, StatusRender, ThreadedEngine,
    WriteError,
};

/// A renderer that counts its invocations.
struct CountingStatus {
    calls: Rc<Cell<u32>>,
}

impl StatusRender for CountingStatus {
    fn render(&mut self, console: &mut Console) -> Result<u16, WriteError> {
        self.calls.set(self.calls.get() + 1);
        console.text(b"status");
        Ok(0)
    }
}

/// A renderer that always fails.
struct FailingStatus;

impl StatusRender for FailingStatus {
    fn render(&mut self, _console: &mut Console) -> Result<u16, WriteError> {
        Err(WriteError)
    }
}

#[test]
fn coalescing_renders_once_per_burst() {
    let calls = Rc::new(Cell::new(0u32));
    let mut engine =
        ThreadedEngine::new(CountingStatus { calls: calls.clone() }, Console::new(), false);

    // Five rapid sends, none drained in between.
    for i in 0..5u8 {
        let payload = vec![b'l', b'0' + i, b'\n'];
        assert!(matches!(engine.send(&payload), SendOutcome::Sent));
    }
    assert_eq!(engine.queue_len(), 5);

    // One drain step writes the whole burst and renders exactly once.
    assert_eq!(engine.drain(), Ok(DrainOutcome::Continue));
    assert_eq!(calls.get(), 1);
    assert_eq!(engine.queue_len(), 0);

    // All five payloads were written, in order, before the one render.
    let items = engine.take_output();
    let texts: Vec<&Item> = items.iter().filter(|i| matches!(i, Item::Text(_))).collect();
    assert_eq!(texts.len(), 6, "five payloads and one rendered status");
    for i in 0..5u8 {
        assert_eq!(*texts[i as usize], Item::Text(vec![b'l', b'0' + i, b'\n']));
    }
    assert_eq!(*texts[5], Item::Text(b"status".to_vec()));
}

#[test]
fn drained_buffers_are_pooled_for_reuse() {
    let calls = Rc::new(Cell::new(0u32));
    let mut engine =
        ThreadedEngine::new(CountingStatus { calls: calls.clone() }, Console::new(), false);
    assert!(matches!(engine.send(b"one"), SendOutcome::Sent));
    assert!(matches!(engine.send(b"two"), SendOutcome::Sent));
    assert_eq!(engine.pool_len(), 0);
    assert_eq!(engine.drain(), Ok(DrainOutcome::Continue));
    assert_eq!(engine.pool_len(), 2);
    // The next send draws from the free list instead of allocating.
    assert!(matches!(engine.send(b"three"), SendOutcome::Sent));
    assert_eq!(engine.pool_len(), 1);
}

#[test]
fn drain_observes_closure_without_rendering() {
    let calls = Rc::new(Cell::new(0u32));
    let mut engine =
        ThreadedEngine::new(CountingStatus { calls: calls.clone() }, Console::new(), false);
    assert!(matches!(engine.send(b"tail 1\n"), SendOutcome::Sent));
    assert!(matches!(engine.send(b"tail 2\n"), SendOutcome::Sent));
    engine.close();

    // The pending payloads are still written, but with the close signal
    // observed the step ends without a render or a flush.
    assert_eq!(engine.drain(), Ok(DrainOutcome::Closed));
    assert_eq!(calls.get(), 0);
    let items = engine.take_output();
    assert!(items.iter().any(|i| *i == Item::Text(b"tail 1\n".to_vec())));
    assert!(items.iter().any(|i| *i == Item::Text(b"tail 2\n".to_vec())));
    assert!(!items.iter().any(|i| matches!(i, Item::Flush)));

    // The closure is permanent: further steps are no-ops.
    assert!(engine.pending());
    assert_eq!(engine.drain(), Ok(DrainOutcome::Closed));
    assert_eq!(calls.get(), 0);
}

#[test]
fn send_after_close_falls_back() {
    let calls = Rc::new(Cell::new(0u32));
    let mut engine =
        ThreadedEngine::new(CountingStatus { calls: calls.clone() }, Console::new(), false);
    engine.close();
    assert!(matches!(engine.send(b"hello"), SendOutcome::Fallback));
    assert_eq!(engine.fallback_output().as_slice(), b"hello");
    assert_eq!(engine.queue_len(), 0);
}

#[test]
fn drain_records_the_rendered_line_count() {
    let status = FixedStatus::new(b"top\nbottom".to_vec());
    let mut engine = ThreadedEngine::new(status, Console::new(), false);
    assert!(matches!(engine.send(b"payload\n"), SendOutcome::Sent));
    assert_eq!(engine.drain(), Ok(DrainOutcome::Continue));
    assert_eq!(engine.lines(), 1);
}

#[test]
fn failed_render_is_propagated() {
    let mut engine = ThreadedEngine::new(FailingStatus, Console::new(), false);
    assert!(matches!(engine.send(b"payload\n"), SendOutcome::Sent));
    assert_eq!(engine.drain(), Err(WriteError));
    assert_eq!(engine.lines(), 0);
}

#[test]
fn raw_mode_brackets_the_whole_burst() {
    let calls = Rc::new(Cell::new(0u32));
    let mut engine =
        ThreadedEngine::new(CountingStatus { calls: calls.clone() }, Console::new(), true);
    assert!(matches!(engine.send(b"a\n"), SendOutcome::Sent));
    assert!(matches!(engine.send(b"b\n"), SendOutcome::Sent));
    assert_eq!(engine.drain(), Ok(DrainOutcome::Continue));
    let items = engine.take_output();
    let disable = items
        .iter()
        .position(|i| *i == Item::Control(Command::DisableRawMode))
        .expect("raw mode is suspended once");
    let enable = items
        .iter()
        .position(|i| *i == Item::Control(Command::EnableRawMode))
        .expect("raw mode is restored once");
    let first_text = items.iter().position(|i| matches!(i, Item::Text(_))).unwrap();
    assert!(disable < first_text);
    assert!(items[disable + 1..enable]
        .iter()
        .filter(|i| matches!(i, Item::Text(_)))
        .count() == 2, "both payloads sit inside the bracket");
    let disables = items.iter().filter(|i| **i == Item::Control(Command::DisableRawMode)).count();
    let enables = items.iter().filter(|i| **i == Item::Control(Command::EnableRawMode)).count();
    assert_eq!(disables, 1);
    assert_eq!(enables, 1);
}
