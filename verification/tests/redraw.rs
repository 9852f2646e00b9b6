//! Behavior of the unthreaded redraw machine: the erase/write/render cycle.

use tracing_statusbar::{
    Builder, Command, Console, Engine, FixedStatus, Item, StatusRender, WriteError,
};

/// A renderer that always fails, as a callback driving a broken sink would.
struct FailingStatus;

impl StatusRender for FailingStatus {
    fn render(&mut self, _console: &mut Console) -> Result<u16, WriteError> {
        Err(WriteError)
    }
}

fn unthreaded_with(
    status: FixedStatus,
) -> tracing_statusbar::UnthreadedHandler<FixedStatus> {
    match Builder::new(Console::new()).with_callback(status).finish() {
        Ok(Engine::Unthreaded(h)) => h,
        _ => panic!("an unthreaded builder finishes into an unthreaded engine"),
    }
}

/// The number of clear-line/move-up pairs at the front of `items`, counted
/// after the initial move-to-column-0 and reset-attributes commands.
fn leading_erase_pairs(items: &[Item]) -> usize {
    assert!(matches!(items[0], Item::Control(Command::MoveToColumn(0))));
    assert!(matches!(items[1], Item::Control(Command::ResetAttributes)));
    let mut i = 2;
    let mut pairs = 0;
    while matches!(items[i], Item::Control(Command::ClearLine))
        && matches!(items[i + 1], Item::Control(Command::MoveUp(1)))
    {
        pairs += 1;
        i += 2;
    }
    // The erase phase ends by clearing the current line.
    assert!(matches!(items[i], Item::Control(Command::ClearLine)));
    pairs
}

#[test]
fn first_write_erases_nothing() {
    let mut handler = unthreaded_with(FixedStatus::new(b"status".to_vec()));
    let written = handler.writer().write(b"line A\n").expect("the render cannot fail");
    assert_eq!(written, b"line A\n".len());
    let items = handler.writer().take_output();
    assert_eq!(leading_erase_pairs(&items), 0);
    assert_eq!(handler.writer().lines(), 0);
}

#[test]
fn end_to_end_two_line_status() {
    // The callback writes a three-line status: two newline bytes, so it
    // reports two extra lines.
    let status = FixedStatus::new(b"status 1\nstatus 2\nstatus 3".to_vec());
    let mut handler = unthreaded_with(status);

    let written = handler.writer().write(b"line A\n").expect("the render cannot fail");
    assert_eq!(written, 7);
    assert_eq!(handler.writer().lines(), 2);
    let first = handler.writer().take_output();
    assert_eq!(leading_erase_pairs(&first), 0);

    let written = handler.writer().write(b"line B\n").expect("the render cannot fail");
    assert_eq!(written, 7);
    let second = handler.writer().take_output();

    // The second write erases exactly the two extra lines the first render
    // produced, before any new content.
    assert_eq!(leading_erase_pairs(&second), 2);
    let text_at = second
        .iter()
        .position(|i| matches!(i, Item::Text(_)))
        .expect("the payload is in the record");
    assert_eq!(second[text_at], Item::Text(b"line B\n".to_vec()));
    for item in &second[..text_at] {
        assert!(matches!(item, Item::Control(_)), "only commands precede the payload");
    }

    // The rendered status follows the payload, and the line count is
    // recorded as 2 again.
    assert_eq!(
        second[text_at + 2],
        Item::Text(b"status 1\nstatus 2\nstatus 3".to_vec())
    );
    assert!(matches!(second.last(), Some(Item::Flush)));
    assert_eq!(handler.writer().lines(), 2);
}

#[test]
fn line_count_follows_each_render() {
    let mut handler = unthreaded_with(FixedStatus::new(b"a\nb".to_vec()));
    handler.writer().write(b"x").expect("the render cannot fail");
    assert_eq!(handler.writer().lines(), 1);
    handler.writer().write(b"y").expect("the render cannot fail");
    assert_eq!(handler.writer().lines(), 1);
}

#[test]
fn failed_render_fails_the_write_and_keeps_the_count() {
    let mut handler = match Builder::new(Console::new()).with_callback(FailingStatus).finish() {
        Ok(Engine::Unthreaded(h)) => h,
        _ => panic!("an unthreaded builder finishes into an unthreaded engine"),
    };
    let r = handler.writer().write(b"line\n");
    assert_eq!(r, Err(WriteError));
    assert_eq!(handler.writer().lines(), 0);
    let items = handler.writer().take_output();
    // The payload was still emitted, but nothing was flushed.
    assert!(items.iter().any(|i| *i == Item::Text(b"line\n".to_vec())));
    assert!(!items.iter().any(|i| matches!(i, Item::Flush)));
}

#[test]
fn flush_only_flushes() {
    let mut handler = unthreaded_with(FixedStatus::new(b"s".to_vec()));
    handler.writer().flush();
    let items = handler.writer().take_output();
    assert_eq!(items, vec![Item::Flush]);
}

#[test]
fn empty_status_reports_zero_lines() {
    let mut handler = unthreaded_with(FixedStatus::new(Vec::new()));
    handler.writer().write(b"x").expect("the render cannot fail");
    assert_eq!(handler.writer().lines(), 0);
}

#[test]
fn empty_payload_still_redraws() {
    let mut handler = unthreaded_with(FixedStatus::new(b"s".to_vec()));
    let written = handler.writer().write(b"").expect("the render cannot fail");
    assert_eq!(written, 0);
    let items = handler.writer().take_output();
    assert!(items.iter().any(|i| *i == Item::Text(Vec::new())));
    assert!(matches!(items.last(), Some(Item::Flush)));
}

#[test]
fn trailing_newline_counts() {
    let mut handler = unthreaded_with(FixedStatus::new(b"x\n".to_vec()));
    handler.writer().write(b"p").expect("the render cannot fail");
    assert_eq!(handler.writer().lines(), 1);
}
