use std::cell::RefCell;
use std::rc::Rc;

use log_update::ByteSink;
use log_update::LogUpdate;
use log_update::SinkError;

/// A sink whose buffer stays readable after the updater that owns the sink
/// is dropped, like a terminal that is still on screen.
struct SharedSink(Rc<RefCell<Vec<u8>>>);

impl ByteSink for SharedSink {
    // `written` and `infallible` are the trait's specification-only view of
    // the sink; they are never called at run time.
    fn written(&self) -> vstd::seq::Seq<u8> {
        panic!()
    }

    fn infallible(&self) -> bool {
        panic!()
    }

    fn write_all(&mut self, bytes: &[u8]) -> Result<(), SinkError> {
        self.0.borrow_mut().extend_from_slice(bytes);
        Ok(())
    }

    fn flush(&mut self) -> Result<(), SinkError> {
        Ok(())
    }
}

fn shared() -> (Rc<RefCell<Vec<u8>>>, SharedSink) {
    let buf = Rc::new(RefCell::new(Vec::new()));
    let sink = SharedSink(buf.clone());
    (buf, sink)
}

fn contents(buf: &Rc<RefCell<Vec<u8>>>) -> String {
    String::from_utf8(buf.borrow().clone()).unwrap()
}

#[test]
fn it_handles_most_common_use_case() {
    let (buf, sink) = shared();
    let mut log_update = LogUpdate::new(sink).unwrap();

    log_update.render("test1").unwrap();
    log_update.render("test2").unwrap();

    log_update.done().unwrap();

    let expected = format!(
        "{}{}{}{}{}",
        "\x1B[?25l",
        "test1\n",
        "\x1B[1000D\x1B[K\x1B[1A\x1B[1000D\x1B[K",
        "test2\n",
        "\x1B[?25h",
    );
    assert_eq!(expected, contents(&buf));
}

#[test]
fn it_restores_cursor_when_dropped() {
    let (buf, sink) = shared();
    let mut log_update = LogUpdate::new(sink).unwrap();

    log_update.render("test").unwrap();

    drop(log_update);

    let expected = format!("{}{}{}", "\x1B[?25l", "test\n", "\x1B[?25h");
    assert_eq!(expected, contents(&buf));
}

#[test]
fn construction_emits_exactly_hide_cursor() {
    let (buf, sink) = shared();
    let _log_update = LogUpdate::new(sink).unwrap();
    assert_eq!("\x1B[?25l", contents(&buf));
}

#[test]
fn done_emits_show_cursor_once() {
    let (buf, sink) = shared();
    let mut log_update = LogUpdate::new(sink).unwrap();

    log_update.done().unwrap();
    assert_eq!(format!("{}{}", "\x1B[?25l", "\x1B[?25h"), contents(&buf));

    // The second call emits nothing further and cannot fail.
    log_update.done().unwrap();
    assert_eq!(format!("{}{}", "\x1B[?25l", "\x1B[?25h"), contents(&buf));
}

#[test]
fn drop_after_done_emits_nothing_further() {
    let (buf, sink) = shared();
    let mut log_update = LogUpdate::new(sink).unwrap();
    log_update.render("gone soon").unwrap();
    log_update.done().unwrap();
    drop(log_update);

    let show_count = contents(&buf).matches("\x1B[?25h").count();
    assert_eq!(1, show_count);
}

#[test]
fn drop_shows_cursor_once_regardless_of_renders() {
    let (buf, sink) = shared();
    let mut log_update = LogUpdate::new(sink).unwrap();
    log_update.render("one").unwrap();
    log_update.render("two\nlines").unwrap();
    log_update.render("three").unwrap();
    drop(log_update);

    let show_count = contents(&buf).matches("\x1B[?25h").count();
    assert_eq!(1, show_count);
    assert!(contents(&buf).ends_with("\x1B[?25h"));
}

#[test]
fn render_with_embedded_newlines_occupies_count_plus_two_lines() {
    let (buf, sink) = shared();
    let mut log_update = LogUpdate::new(sink).unwrap();

    // Two embedded line breaks: the render occupies 2 + 2 = 4 lines, so the
    // following clear erases the current line and moves up three times.
    log_update.render("a\nb\nc").unwrap();
    log_update.clear().unwrap();

    let erase_four = format!(
        "{}{}{}{}",
        "\x1B[1000D\x1B[K",
        "\x1B[1A\x1B[1000D\x1B[K",
        "\x1B[1A\x1B[1000D\x1B[K",
        "\x1B[1A\x1B[1000D\x1B[K",
    );
    let expected = format!("{}{}{}", "\x1B[?25l", "a\nb\nc\n", erase_four);
    assert_eq!(expected, contents(&buf));
}

#[test]
fn second_clear_in_a_row_emits_nothing() {
    let (buf, sink) = shared();
    let mut log_update = LogUpdate::new(sink).unwrap();

    log_update.render("text").unwrap();
    log_update.clear().unwrap();
    let after_first = contents(&buf);

    log_update.clear().unwrap();
    assert_eq!(after_first, contents(&buf));
}

#[test]
fn clear_does_not_touch_the_cursor() {
    let (buf, sink) = shared();
    let mut log_update = LogUpdate::new(sink).unwrap();

    log_update.clear().unwrap();
    log_update.clear().unwrap();

    // No show-cursor sequence was emitted by the clears; the drop still
    // restores the cursor exactly once.
    assert_eq!(0, contents(&buf).matches("\x1B[?25h").count());
    drop(log_update);
    assert_eq!(1, contents(&buf).matches("\x1B[?25h").count());
}

#[test]
fn render_after_clear_erases_nothing() {
    let (buf, sink) = shared();
    let mut log_update = LogUpdate::new(sink).unwrap();

    log_update.render("old").unwrap();
    log_update.clear().unwrap();
    let after_clear = contents(&buf);

    log_update.render("new").unwrap();
    assert_eq!(format!("{}{}", after_clear, "new\n"), contents(&buf));
}
