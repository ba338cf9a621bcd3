//! The in-place log updater: a state machine over a byte sink that hides the
//! cursor on construction, erases the previous render before each new one,
//! and shows the cursor again on `done` or on drop.

use vstd::prelude::*;
use vstd::string::StringSliceAdditionalSpecFns;

use crate::escapes::cursor_hide_bytes;
use crate::escapes::cursor_hide_seq;
use crate::escapes::cursor_show_bytes;
use crate::escapes::cursor_show_seq;
use crate::escapes::count_newlines;
use crate::escapes::erase_lines_bytes;
use crate::escapes::erase_lines_seq;
use crate::escapes::newline_count;
use crate::escapes::newline_seq;
use crate::sink::holds_prefix_of;
use crate::sink::lemma_prefix_after;
use crate::sink::lemma_prefix_extends;
use crate::sink::lemma_prefix_whole;
use crate::sink::ByteSink;
use crate::sink::SinkError;

verus! {

/// The abstract state of an updater: everything its sink has accepted so
/// far, how many terminal lines the last render occupies, and whether the
/// cursor is still hidden.
#[verifier::ext_equal]
pub struct UpdState {
    pub out: Seq<u8>,
    pub lines: nat,
    pub hidden: bool,
}

/// Constructing an updater emits exactly the hide-cursor sequence.
pub open spec fn spec_construct(out: Seq<u8>) -> UpdState {
    UpdState { out: out + cursor_hide_seq(), lines: 0, hidden: true }
}

/// A render erases the lines of the previous render, then writes the text
/// and one trailing newline, and records that the new render occupies
/// (newlines inside the text) + 2 lines: one for the trailing newline and a
/// fixed one-line offset.
pub open spec fn spec_render(s: UpdState, text: Seq<u8>) -> UpdState {
    UpdState {
        out: s.out + erase_lines_seq(s.lines) + text + newline_seq(),
        lines: newline_count(text) + 2,
        hidden: s.hidden,
    }
}

/// A clear erases the lines of the previous render and forgets them; the
/// cursor is untouched.
pub open spec fn spec_clear(s: UpdState) -> UpdState {
    UpdState { out: s.out + erase_lines_seq(s.lines), lines: 0, hidden: s.hidden }
}

/// `done` shows the cursor if it is still hidden, emitting nothing
/// otherwise, and forgets the previous render.
pub open spec fn spec_done(s: UpdState) -> UpdState {
    UpdState {
        out: if s.hidden {
            s.out + cursor_show_seq()
        } else {
            s.out
        },
        lines: 0,
        hidden: false,
    }
}

/// A stateful wrapper around an output sink that repeatedly overwrites the
/// last rendered block of text.
pub struct LogUpdate<W: ByteSink> {
    stream: W,
    previous_line_count: u16,
    cursor_is_hidden: bool,
}

impl<W: ByteSink> LogUpdate<W> {
    /// The abstract state this updater is in.
    pub closed spec fn model(&self) -> UpdState {
        UpdState {
            out: self.stream.written(),
            lines: self.previous_line_count as nat,
            hidden: self.cursor_is_hidden,
        }
    }

    /// Whether the sink this updater owns is known never to fail, in which
    /// case every operation of the updater is too.
    pub closed spec fn sink_infallible(&self) -> bool {
        self.stream.infallible()
    }

    /// Create a new LogUpdate instance: hide the cursor and flush.  On
    /// failure the updater is not created.
    pub fn new(stream: W) -> (r: Result<LogUpdate<W>, SinkError>)
        ensures
            r is Ok ==> (r->Ok_0).model() == spec_construct(stream.written()),
            r is Ok ==> (r->Ok_0).sink_infallible() == stream.infallible(),
            stream.infallible() ==> r is Ok,
    {
        let mut stream = stream;
        let hide = cursor_hide_bytes();
        match stream.write_all(hide.as_slice()) {
            Ok(()) => (),
            Err(e) => {
                return Err(e);
            },
        }
        match stream.flush() {
            Ok(()) => (),
            Err(e) => {
                return Err(e);
            },
        }
        Ok(LogUpdate { stream, previous_line_count: 0, cursor_is_hidden: true })
    }

    /// Update the log to the provided text: erase the previous render, write
    /// the text and a trailing newline, flush, and recount the lines.  On
    /// failure the line count and the cursor flag keep their old values, and
    /// the sink holds some prefix of the intended emission.
    pub fn render(&mut self, text: &str) -> (r: Result<(), SinkError>)
        requires
            newline_count(text.spec_bytes()) + 2 <= u16::MAX,
        ensures
            r is Ok ==> final(self).model() == spec_render(old(self).model(), text.spec_bytes()),
            old(self).sink_infallible() ==> r is Ok,
            final(self).sink_infallible() == old(self).sink_infallible(),
            r is Err ==> final(self).model().lines == old(self).model().lines,
            final(self).model().hidden == old(self).model().hidden,
            r is Err ==> holds_prefix_of(
                final(self).model().out,
                old(self).model().out,
                erase_lines_seq(old(self).model().lines) + text.spec_bytes() + newline_seq(),
            ),
    {
        let ghost start = old(self).model().out;
        let ghost erased = erase_lines_seq(old(self).model().lines);
        let erase = erase_lines_bytes(self.previous_line_count);
        match self.stream.write_all(erase.as_slice()) {
            Ok(()) => (),
            Err(e) => {
                proof {
                    let now = self.stream.written();
                    lemma_prefix_extends(now, start, erased, text.spec_bytes());
                    lemma_prefix_extends(now, start, erased + text.spec_bytes(), newline_seq());
                }
                return Err(e);
            },
        }
        match self.stream.write_all(text.as_bytes()) {
            Ok(()) => (),
            Err(e) => {
                proof {
                    let now = self.stream.written();
                    lemma_prefix_after(now, start, erased, text.spec_bytes());
                    lemma_prefix_extends(now, start, erased + text.spec_bytes(), newline_seq());
                }
                return Err(e);
            },
        }
        let mut nl: Vec<u8> = Vec::new();
        nl.push(0x0au8);
        proof {
            assert(nl@ =~= newline_seq());
        }
        match self.stream.write_all(nl.as_slice()) {
            Ok(()) => (),
            Err(e) => {
                proof {
                    let now = self.stream.written();
                    assert((start + erased) + text.spec_bytes() =~= start + (erased
                        + text.spec_bytes()));
                    lemma_prefix_after(now, start, erased + text.spec_bytes(), newline_seq());
                }
                return Err(e);
            },
        }
        match self.stream.flush() {
            Ok(()) => (),
            Err(e) => {
                proof {
                    let now = self.stream.written();
                    assert(now =~= start + (erased + text.spec_bytes() + newline_seq()));
                    lemma_prefix_whole(now, start, erased + text.spec_bytes() + newline_seq());
                }
                return Err(e);
            },
        }
        let n = count_newlines(text);
        self.previous_line_count = (n as u16) + 2;
        Ok(())
    }

    /// Clear the logged output: erase the previous render and flush.  The
    /// cursor flag is never touched; on failure the line count keeps its old
    /// value, and the sink holds some prefix of the erase sequence.
    pub fn clear(&mut self) -> (r: Result<(), SinkError>)
        ensures
            r is Ok ==> final(self).model() == spec_clear(old(self).model()),
            old(self).sink_infallible() ==> r is Ok,
            final(self).sink_infallible() == old(self).sink_infallible(),
            r is Err ==> final(self).model().lines == old(self).model().lines,
            final(self).model().hidden == old(self).model().hidden,
            r is Err ==> holds_prefix_of(
                final(self).model().out,
                old(self).model().out,
                erase_lines_seq(old(self).model().lines),
            ),
    {
        let erase = erase_lines_bytes(self.previous_line_count);
        match self.stream.write_all(erase.as_slice()) {
            Ok(()) => (),
            Err(e) => {
                return Err(e);
            },
        }
        match self.stream.flush() {
            Ok(()) => (),
            Err(e) => {
                proof {
                    lemma_prefix_whole(
                        self.stream.written(),
                        old(self).model().out,
                        erase_lines_seq(old(self).model().lines),
                    );
                }
                return Err(e);
            },
        }
        self.previous_line_count = 0;
        Ok(())
    }

    /// Persist the logged output: show the cursor if it is still hidden and
    /// forget the previous render.  Calling it again emits nothing and
    /// cannot fail; on failure the line count and the cursor flag keep their
    /// old values, and the sink holds some prefix of the show sequence.
    pub fn done(&mut self) -> (r: Result<(), SinkError>)
        ensures
            r is Ok ==> final(self).model() == spec_done(old(self).model()),
            old(self).sink_infallible() ==> r is Ok,
            final(self).sink_infallible() == old(self).sink_infallible(),
            !old(self).model().hidden ==> r is Ok,
            r is Err ==> final(self).model().lines == old(self).model().lines,
            r is Err ==> final(self).model().hidden == old(self).model().hidden,
            r is Err ==> old(self).model().hidden && holds_prefix_of(
                final(self).model().out,
                old(self).model().out,
                cursor_show_seq(),
            ),
    {
        if self.cursor_is_hidden {
            let show = cursor_show_bytes();
            match self.stream.write_all(show.as_slice()) {
                Ok(()) => (),
                Err(e) => {
                    return Err(e);
                },
            }
            match self.stream.flush() {
                Ok(()) => (),
                Err(e) => {
                    proof {
                        lemma_prefix_whole(
                            self.stream.written(),
                            old(self).model().out,
                            cursor_show_seq(),
                        );
                    }
                    return Err(e);
                },
            }
        }
        self.previous_line_count = 0;
        self.cursor_is_hidden = false;
        Ok(())
    }
}

impl<W: ByteSink> Drop for LogUpdate<W> {
    /// Restore the cursor if the owner never called `done`.  Verus requires
    /// `drop` never to unwind, which a write to an arbitrary sink cannot
    /// promise, so this body is trusted: it delegates to the verified `done`
    /// and ignores its result, a destructor having no caller to report to.
    #[verifier::external_body]
    fn drop(&mut self)
        opens_invariants none
        no_unwind
    {
        let _ = self.done();
    }
}

/// After erasing any number of previously written lines, a render of a text
/// with `k` embedded newlines always occupies `k + 2` lines.
pub proof fn lemma_render_recounts_lines(s: UpdState, text: Seq<u8>)
    ensures
        spec_render(s, text).lines == newline_count(text) + 2,
{
}

/// No number of renders touches the cursor, so an updater that was never
/// told `done` still has it hidden, and the teardown's `done` then shows it
/// exactly once.
pub proof fn lemma_render_keeps_cursor(s: UpdState, text: Seq<u8>)
    ensures
        spec_render(s, text).hidden == s.hidden,
        s.hidden ==> spec_done(spec_render(s, text)).out == spec_render(s, text).out
            + cursor_show_seq(),
{
}

/// `done` shows the cursor exactly once: the first call on a hidden cursor
/// emits the show sequence, and a second call changes nothing at all.
pub proof fn lemma_done_idempotent(s: UpdState)
    ensures
        s.hidden ==> spec_done(s).out == s.out + cursor_show_seq(),
        !s.hidden ==> spec_done(s).out == s.out,
        spec_done(spec_done(s)) == spec_done(s),
{
}

/// `clear` resets the line count and leaves the cursor alone.
pub proof fn lemma_clear_resets_lines(s: UpdState)
    ensures
        spec_clear(s).lines == 0,
        spec_clear(s).hidden == s.hidden,
{
}

/// Two clears in a row emit the erase sequence once, for the lines of the
/// last render; the second clear erases zero lines, which emits nothing.
pub proof fn lemma_clear_idempotent(s: UpdState)
    ensures
        spec_clear(s).out == s.out + erase_lines_seq(s.lines),
        spec_clear(spec_clear(s)).out == spec_clear(s).out,
        spec_clear(spec_clear(s)) == spec_clear(s),
{
    assert(spec_clear(s).out + erase_lines_seq(0) =~= spec_clear(s).out);
    assert(spec_clear(spec_clear(s)) =~= spec_clear(s));
}

} // verus!
