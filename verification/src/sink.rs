//! The byte sink the updater writes to: a trait over any writable
//! destination, an in-memory implementation, and one over standard output.

use std::io::Write;
use vstd::prelude::*;

verus! {

/// The one failure an updater can meet: the underlying sink refused a write
/// or a flush.
#[derive(Clone, Copy, Debug, PartialEq, Eq, Structural)]
pub struct SinkError;

/// Whether `after` is `before` extended by some prefix of `bytes`: the state
/// a sink is left in when a write of `bytes` onto `before` is cut short.
pub open spec fn holds_prefix_of(after: Seq<u8>, before: Seq<u8>, bytes: Seq<u8>) -> bool {
    exists|k: int| 0 <= k <= bytes.len() && after == before + bytes.subrange(0, k)
}

/// A whole write is one of its own prefixes.
pub proof fn lemma_prefix_whole(after: Seq<u8>, before: Seq<u8>, bytes: Seq<u8>)
    requires
        after == before + bytes,
    ensures
        holds_prefix_of(after, before, bytes),
{
    assert(bytes.subrange(0, bytes.len() as int) =~= bytes);
}

/// A prefix of `a` is also a prefix of `a + b`.
pub proof fn lemma_prefix_extends(after: Seq<u8>, before: Seq<u8>, a: Seq<u8>, b: Seq<u8>)
    requires
        holds_prefix_of(after, before, a),
    ensures
        holds_prefix_of(after, before, a + b),
{
    let k = choose|k: int| 0 <= k <= a.len() && after == before + a.subrange(0, k);
    assert((a + b).subrange(0, k) =~= a.subrange(0, k));
}

/// What follows a completed part `done_part` as a prefix of `rest` is a
/// prefix of `done_part + rest` as a whole.
pub proof fn lemma_prefix_after(after: Seq<u8>, before: Seq<u8>, done_part: Seq<u8>, rest: Seq<u8>)
    requires
        holds_prefix_of(after, before + done_part, rest),
    ensures
        holds_prefix_of(after, before, done_part + rest),
{
    let k = choose|k: int|
        0 <= k <= rest.len() && after == (before + done_part) + rest.subrange(0, k);
    assert((done_part + rest).subrange(0, done_part.len() + k) =~= done_part + rest.subrange(
        0,
        k,
    ));
    assert(after =~= before + (done_part + rest.subrange(0, k)));
}

/// A writable byte destination.
///
/// `written()` is the sequence of bytes accepted by the sink so far.  A
/// failed write leaves the sink holding what it held plus some prefix of the
/// bytes it was handed, and the caller treats the failure as terminal for
/// that operation.  A sink that is `infallible()` never fails; the in-memory
/// sink is, standard output is not.
pub trait ByteSink: Sized {
    /// The bytes the sink has accepted so far.
    spec fn written(&self) -> Seq<u8>;

    /// Whether this sink is known never to refuse a write or a flush.
    spec fn infallible(&self) -> bool;

    /// Write all of `bytes` to the sink.
    fn write_all(&mut self, bytes: &[u8]) -> (r: Result<(), SinkError>)
        ensures
            r is Ok ==> final(self).written() == old(self).written() + bytes@,
            r is Err ==> holds_prefix_of(final(self).written(), old(self).written(), bytes@),
            old(self).infallible() ==> r is Ok,
            final(self).infallible() == old(self).infallible(),
    ;

    /// Push any buffered bytes through.  Flushing never changes which bytes
    /// the sink has accepted.
    fn flush(&mut self) -> (r: Result<(), SinkError>)
        ensures
            final(self).written() == old(self).written(),
            old(self).infallible() ==> r is Ok,
            final(self).infallible() == old(self).infallible(),
    ;
}

/// An in-memory sink: a growable buffer that accepts every write.
pub struct MemSink {
    buf: Vec<u8>,
}

impl MemSink {
    /// An empty sink.
    pub fn new() -> (r: MemSink)
        ensures
            r.written() == Seq::<u8>::empty(),
    {
        MemSink { buf: Vec::new() }
    }

    /// The bytes written so far.
    pub fn contents(&self) -> (r: &[u8])
        ensures
            r@ == self.written(),
    {
        self.buf.as_slice()
    }
}

impl ByteSink for MemSink {
    closed spec fn written(&self) -> Seq<u8> {
        self.buf@
    }

    open spec fn infallible(&self) -> bool {
        true
    }

    fn write_all(&mut self, bytes: &[u8]) -> (r: Result<(), SinkError>)
        ensures
            r is Ok,
            final(self).written() == old(self).written() + bytes@,
    {
        let mut i: usize = 0;
        proof {
            assert(old(self).buf@ + bytes@.subrange(0, 0) =~= old(self).buf@);
        }
        while i < bytes.len()
            invariant
                i <= bytes@.len(),
                self.buf@ == old(self).buf@ + bytes@.subrange(0, i as int),
            decreases bytes@.len() - i,
        {
            self.buf.push(bytes[i]);
            proof {
                assert(old(self).buf@ + bytes@.subrange(0, i as int + 1) =~= (old(
                    self,
                ).buf@ + bytes@.subrange(0, i as int)).push(bytes@[i as int]));
            }
            i = i + 1;
        }
        proof {
            assert(bytes@.subrange(0, bytes@.len() as int) =~= bytes@);
        }
        Ok(())
    }

    fn flush(&mut self) -> (r: Result<(), SinkError>)
        ensures
            r is Ok,
            final(self).written() == old(self).written(),
    {
        Ok(())
    }
}

/// The standard output handle, opaque to the library.
#[verifier::external_type_specification]
#[verifier::external_body]
pub struct ExStdout(std::io::Stdout);

/// Relies on std::io::Stdout's Write impl: `write_all` accepted the whole
/// buffer on `Ok`; on `Err` it may have accepted any part of it.
#[verifier::external_body]
fn stdout_write_all(w: &mut std::io::Stdout, bytes: &[u8]) -> (r: Result<(), SinkError>) {
    match w.write_all(bytes) {
        Ok(()) => Ok(()),
        Err(_) => Err(SinkError),
    }
}

/// Relies on std::io::Stdout's Write impl: `flush` pushes buffered bytes
/// through to the terminal without accepting new ones.
#[verifier::external_body]
fn stdout_flush(w: &mut std::io::Stdout) -> (r: Result<(), SinkError>) {
    match w.flush() {
        Ok(()) => Ok(()),
        Err(_) => Err(SinkError),
    }
}

/// A sink over the process's standard output.  The terminal is opaque to the
/// library, so the sink records the bytes it has accepted in a ghost view;
/// that the terminal really received them is what std's `write_all`
/// documents of its `Ok` result.
pub struct StdoutSink {
    inner: std::io::Stdout,
    record: Ghost<Seq<u8>>,
}

impl StdoutSink {
    /// Wrap a handle to standard output.
    pub fn new(inner: std::io::Stdout) -> (r: StdoutSink)
        ensures
            r.written() == Seq::<u8>::empty(),
    {
        StdoutSink { inner, record: Ghost(Seq::empty()) }
    }
}

impl ByteSink for StdoutSink {
    closed spec fn written(&self) -> Seq<u8> {
        self.record@
    }

    open spec fn infallible(&self) -> bool {
        false
    }

    fn write_all(&mut self, bytes: &[u8]) -> (r: Result<(), SinkError>) {
        let r = stdout_write_all(&mut self.inner, bytes);
        if r.is_ok() {
            self.record = Ghost(self.record@ + bytes@);
        } else {
            // The record counts only acknowledged bytes: a failed write adds
            // the empty prefix.
            proof {
                assert(self.record@ =~= old(self).record@ + bytes@.subrange(0, 0));
            }
        }
        r
    }

    fn flush(&mut self) -> (r: Result<(), SinkError>)
        ensures
            final(self).written() == old(self).written(),
    {
        stdout_flush(&mut self.inner)
    }
}

} // verus!
