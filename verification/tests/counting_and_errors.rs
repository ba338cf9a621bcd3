use log_update::count_newlines;
use log_update::ByteSink;
use log_update::LogUpdate;
use log_update::MemSink;
use log_update::SinkError;

#[test]
fn counts_newlines_exactly() {
    assert_eq!(0, count_newlines(""));
    assert_eq!(0, count_newlines("test"));
    assert_eq!(1, count_newlines("a\nb"));
    assert_eq!(2, count_newlines("a\nb\nc"));
    assert_eq!(3, count_newlines("\n\n\n"));
    assert_eq!(1, count_newlines("trailing\n"));
    // Multi-byte characters hold no newline bytes.
    assert_eq!(1, count_newlines("héllo\nwörld"));
}

#[test]
fn mem_sink_records_every_write() {
    let mut sink = MemSink::new();
    assert_eq!(0, sink.contents().len());
    sink.write_all("ab".as_bytes()).unwrap();
    sink.flush().unwrap();
    sink.write_all("c".as_bytes()).unwrap();
    assert_eq!("abc".as_bytes(), sink.contents());
}

/// A sink that refuses every write after the first `accept` calls.
struct BrittleSink {
    accepted: Vec<u8>,
    accept: usize,
    writes: usize,
}

impl ByteSink for BrittleSink {
    // `written` and `infallible` are the trait's specification-only view of
    // the sink; they are never called at run time.
    fn written(&self) -> vstd::seq::Seq<u8> {
        panic!()
    }

    fn infallible(&self) -> bool {
        panic!()
    }

    fn write_all(&mut self, bytes: &[u8]) -> Result<(), SinkError> {
        if self.writes < self.accept {
            self.writes += 1;
            self.accepted.extend_from_slice(bytes);
            Ok(())
        } else {
            Err(SinkError)
        }
    }

    fn flush(&mut self) -> Result<(), SinkError> {
        Ok(())
    }
}

#[test]
fn failed_construction_creates_no_updater() {
    let sink = BrittleSink { accepted: Vec::new(), accept: 0, writes: 0 };
    let result = LogUpdate::new(sink);
    assert!(result.is_err());
    assert_eq!(SinkError, result.err().unwrap());
}

#[test]
fn failed_render_surfaces_the_error() {
    let sink = BrittleSink { accepted: Vec::new(), accept: 1, writes: 0 };
    let mut log_update = LogUpdate::new(sink).unwrap();
    let result = log_update.render("text");
    assert_eq!(Some(SinkError), result.err());
}

#[test]
fn failed_done_surfaces_the_error_while_hidden() {
    let sink = BrittleSink { accepted: Vec::new(), accept: 1, writes: 0 };
    let mut log_update = LogUpdate::new(sink).unwrap();
    assert!(log_update.done().is_err());
}
