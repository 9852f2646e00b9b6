//! Behavior of the builder, the callback conversion, and the raw-mode
//! bracket of the unthreaded writer.

use tracing_statusbar::{
    BuildError, Builder, Command, Console, Engine, FixedStatus, Item, MakeCallback, StatusRender,
    WriteError,
};

/// A renderer that always fails.
struct FailingStatus;

impl StatusRender for FailingStatus {
    fn render(&mut self, _console: &mut Console) -> Result<u16, WriteError> {
        Err(WriteError)
    }
}

#[test]
fn finish_without_callback_is_refused() {
    let builder: Builder<FixedStatus> = Builder::new(Console::new());
    match builder.finish() {
        Err(BuildError::MissingCallback) => (),
        _ => panic!("a builder without a callback must not finish"),
    }
}

#[test]
fn finish_defaults_to_the_unthreaded_engine() {
    let engine = Builder::new(Console::new())
        .with_callback(FixedStatus::new(b"s".to_vec()))
        .finish()
        .expect("a callback was provided");
    assert!(matches!(engine, Engine::Unthreaded(_)));
}

#[test]
fn finish_honors_the_threaded_choice() {
    let engine = Builder::new(Console::new())
        .with_callback(FixedStatus::new(b"s".to_vec()))
        .threaded()
        .finish()
        .expect("a callback was provided");
    assert!(matches!(engine, Engine::Threaded(_)));
}

#[test]
fn every_renderer_makes_its_own_callback() {
    let status = FixedStatus::new(b"ready\n".to_vec());
    let mut callback = status.make_callback();
    let mut console = Console::new();
    let reported = callback.render(&mut console).expect("a fixed status cannot fail");
    assert_eq!(reported, 1);
}

#[test]
fn raw_mode_bracket_surrounds_the_payload() {
    let engine = Builder::new(Console::new())
        .with_callback(FixedStatus::new(b"s".to_vec()))
        .assume_raw_mode()
        .finish()
        .expect("a callback was provided");
    let mut handler = match engine {
        Engine::Unthreaded(h) => h,
        _ => panic!("an unthreaded builder finishes into an unthreaded engine"),
    };
    handler.writer().write(b"payload\n").expect("the render cannot fail");
    let items = handler.writer().take_output();
    let disable = items
        .iter()
        .position(|i| *i == Item::Control(Command::DisableRawMode))
        .expect("raw mode is suspended");
    let text = items.iter().position(|i| *i == Item::Text(b"payload\n".to_vec())).unwrap();
    let enable = items
        .iter()
        .position(|i| *i == Item::Control(Command::EnableRawMode))
        .expect("raw mode is restored");
    assert!(disable < text && text < enable, "the bracket surrounds the payload");
    assert_eq!(
        items.iter().filter(|i| **i == Item::Control(Command::DisableRawMode)).count(),
        1
    );
    assert_eq!(
        items.iter().filter(|i| **i == Item::Control(Command::EnableRawMode)).count(),
        1
    );
}

#[test]
fn raw_mode_bracket_completes_when_the_render_fails() {
    let engine = Builder::new(Console::new())
        .with_callback(FailingStatus)
        .assume_raw_mode()
        .finish()
        .expect("a callback was provided");
    let mut handler = match engine {
        Engine::Unthreaded(h) => h,
        _ => panic!("an unthreaded builder finishes into an unthreaded engine"),
    };
    assert_eq!(handler.writer().write(b"payload\n"), Err(WriteError));
    let items = handler.writer().take_output();
    // Exactly one disable-then-enable pair was issued even though the
    // render failed: the bracket closes before the failure propagates.
    let disable = items
        .iter()
        .position(|i| *i == Item::Control(Command::DisableRawMode))
        .expect("raw mode is suspended");
    let enable = items
        .iter()
        .position(|i| *i == Item::Control(Command::EnableRawMode))
        .expect("raw mode is restored");
    assert!(disable < enable);
    assert_eq!(
        items.iter().filter(|i| **i == Item::Control(Command::DisableRawMode)).count(),
        1
    );
    assert_eq!(
        items.iter().filter(|i| **i == Item::Control(Command::EnableRawMode)).count(),
        1
    );
}

#[test]
fn without_the_assumption_no_raw_commands_are_issued() {
    let engine = Builder::new(Console::new())
        .with_callback(FixedStatus::new(b"s".to_vec()))
        .finish()
        .expect("a callback was provided");
    let mut handler = match engine {
        Engine::Unthreaded(h) => h,
        _ => panic!("an unthreaded builder finishes into an unthreaded engine"),
    };
    handler.writer().write(b"payload\n").expect("the render cannot fail");
    let items = handler.writer().take_output();
    assert!(!items.iter().any(|i| *i == Item::Control(Command::DisableRawMode)));
    assert!(!items.iter().any(|i| *i == Item::Control(Command::EnableRawMode)));
}

#[test]
fn console_records_in_order() {
    let mut console = Console::new();
    console.command(Command::MoveToColumn(0));
    console.text(b"abc");
    console.flush();
    assert_eq!(console.item_count(), 3);
    assert_eq!(*console.item_at(0), Item::Control(Command::MoveToColumn(0)));
    assert_eq!(*console.item_at(1), Item::Text(b"abc".to_vec()));
    assert_eq!(*console.item_at(2), Item::Flush);
    let taken = console.take();
    assert_eq!(taken.len(), 3);
    assert_eq!(console.item_count(), 0);
}
