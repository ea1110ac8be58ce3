use vstd::prelude::*;
use vstd::string::StrSliceExecFns;

use crate::bus::{BusAction, WritableDataBus};
use crate::charset::CharsetWithFallback;
use crate::error::Error;
use crate::memory_map::DisplayMemoryMap;
use crate::HD44780;

verus! {

/// A cursor-tracking text sink bound to a sub-rectangle of the display:
/// columns `col_min..=col_max` from `line..=line_max`.  It wraps to the
/// next row on explicit newlines and when a line's capacity is reached,
/// swallows one whitespace character right after an automatic wrap, and
/// once no rows remain marks itself done and silently discards further
/// characters rather than ever transmitting past the bound.
pub struct DisplayWriter {
    pub line: u8,
    pub col: u8,
    pub line_max: u8,
    pub col_min: u8,
    pub col_max: u8,
    pub current_col_max: u8,
    pub implicit_newline: bool,
    pub done: bool,
}

/// The column capacity of `line`: the memory map's capacity capped by
/// the caller's column bound.
pub open spec fn spec_line_cap<B: WritableDataBus, M: DisplayMemoryMap, C: CharsetWithFallback>(
    d: HD44780<B, M, C>,
    line: u8,
    col_max: u8,
) -> u8 {
    let cil = d.memory_map.spec_columns_in_line(line);
    if cil < col_max {
        cil
    } else {
        col_max
    }
}

impl DisplayWriter {
    /// The writer a construction at `position` bound by `max` yields, or
    /// `None` if the position lies outside the geometry, together with
    /// the cursor command the construction queues.
    pub open spec fn spec_new<B: WritableDataBus, M: DisplayMemoryMap, C: CharsetWithFallback>(
        d: HD44780<B, M, C>,
        position: (u8, u8),
        max: (u8, u8),
    ) -> (Option<DisplayWriter>, Seq<BusAction>) {
        match d.memory_map.spec_address(position.0, position.1) {
            Some(addr) => (
                Some(
                    DisplayWriter {
                        line: position.1,
                        col: position.0,
                        line_max: max.1,
                        col_min: position.0,
                        col_max: max.0,
                        current_col_max: spec_line_cap(d, position.1, max.0),
                        implicit_newline: false,
                        done: false,
                    },
                ),
                d.spec_command_actions((0x80 | addr) as u8),
            ),
            None => (None, Seq::empty()),
        }
    }

    /// The transition of one line advance: a writer on its last row
    /// becomes done; otherwise the cursor moves to the left edge of the
    /// next row, which becomes done instead if that position does not
    /// exist, and the capacity of the new line is taken over.
    pub open spec fn spec_new_line<B: WritableDataBus, M: DisplayMemoryMap, C: CharsetWithFallback>(
        self,
        d: HD44780<B, M, C>,
    ) -> (DisplayWriter, Seq<BusAction>) {
        if self.done || self.line >= self.line_max {
            (DisplayWriter { done: true, ..self }, Seq::empty())
        } else {
            let line = (self.line + 1) as u8;
            let col = self.col_min;
            let cap = spec_line_cap(d, line, self.col_max);
            match d.memory_map.spec_address(col, line) {
                Some(addr) => (
                    DisplayWriter { line, col, current_col_max: cap, ..self },
                    d.spec_command_actions((0x80 | addr) as u8),
                ),
                None => (DisplayWriter { line, col, current_col_max: cap, done: true, ..self }, Seq::empty()),
            }
        }
    }

    /// The transition of writing one character: explicit newlines
    /// advance the line, one whitespace character right after an
    /// automatic wrap is swallowed, and otherwise the character is
    /// transmitted and the cursor advances, wrapping at the line's
    /// capacity; a done writer silently discards the character.
    pub open spec fn spec_write_char<B: WritableDataBus, M: DisplayMemoryMap, C: CharsetWithFallback>(
        self,
        d: HD44780<B, M, C>,
        ch: char,
    ) -> (DisplayWriter, Seq<BusAction>) {
        if ch == '\n' {
            let w1 = DisplayWriter { done: self.done || self.col >= self.current_col_max, ..self };
            w1.spec_new_line(d)
        } else if self.implicit_newline && d.charset.spec_is_whitespace(ch as u32) {
            (DisplayWriter { implicit_newline: false, ..self }, Seq::empty())
        } else {
            let w1 = DisplayWriter { implicit_newline: false, ..self };
            if w1.done {
                (w1, Seq::empty())
            } else {
                let acts = d.spec_data_actions(d.charset.spec_code_with_fallback(ch as u32));
                if w1.col >= w1.current_col_max {
                    let (w2, wrap_acts) = DisplayWriter { implicit_newline: true, ..w1 }.spec_new_line(d);
                    (w2, acts + wrap_acts)
                } else {
                    (DisplayWriter { col: (w1.col + 1) as u8, ..w1 }, acts)
                }
            }
        }
    }

    /// The transition of writing a string character by character;
    /// characters past the bound contribute nothing.
    pub open spec fn spec_write_str<B: WritableDataBus, M: DisplayMemoryMap, C: CharsetWithFallback>(
        self,
        d: HD44780<B, M, C>,
        chars: Seq<char>,
    ) -> (DisplayWriter, Seq<BusAction>)
        decreases chars.len(),
    {
        if chars.len() == 0 {
            (self, Seq::empty())
        } else {
            let (w1, a1) = self.spec_write_char(d, chars[0]);
            let (w2, a2) = w1.spec_write_str(d, chars.drop_first());
            (w2, a1 + a2)
        }
    }

    /// Bind a writer to `position`, queueing the cursor move; a position
    /// outside the geometry is rejected with a position error.
    pub fn new<B: WritableDataBus, M: DisplayMemoryMap, C: CharsetWithFallback, E>(
        display: &mut HD44780<B, M, C>,
        position: (u8, u8),
        max: (u8, u8),
        queue: &mut Vec<BusAction>,
    ) -> (r: Result<Self, Error<E>>)
        requires
            old(display).memory_map.wf(),
        ensures
            *final(display) == *old(display),
            ({
                let (w, acts) = DisplayWriter::spec_new(*old(display), position, max);
                match w {
                    Some(w0) => r == Ok::<DisplayWriter, Error<E>>(w0) && final(queue)@ == old(queue)@ + acts,
                    None => r == Err::<DisplayWriter, Error<E>>(
                        Error::Position { position, size: old(display).memory_map.spec_size() },
                    ) && final(queue)@ == old(queue)@,
                }
            }),
    {
        match display.set_cursor_xy(position, queue) {
            Ok(()) => {
                let cil = display.memory_map.columns_in_line(position.1);
                let cap = if cil < max.0 {
                    cil
                } else {
                    max.0
                };
                Ok(
                    Self {
                        current_col_max: cap,
                        col: position.0,
                        line: position.1,
                        col_max: max.0,
                        line_max: max.1,
                        col_min: position.0,
                        implicit_newline: false,
                        done: false,
                    },
                )
            },
            Err(e) => Err(e),
        }
    }

    /// Advance to the next row of the bound rectangle, or become done
    /// when none remains.
    pub fn new_line<B: WritableDataBus, M: DisplayMemoryMap, C: CharsetWithFallback>(
        &mut self,
        display: &mut HD44780<B, M, C>,
        queue: &mut Vec<BusAction>,
    )
        requires
            old(display).memory_map.wf(),
        ensures
            *final(display) == *old(display),
            *final(self) == old(self).spec_new_line(*old(display)).0,
            final(queue)@ == old(queue)@ + old(self).spec_new_line(*old(display)).1,
    {
        if self.done || self.line >= self.line_max {
            self.done = true;
            return;
        }
        self.line = self.line + 1;
        self.col = self.col_min;
        let moved: Result<(), Error<()>> = display.set_cursor_xy((self.col, self.line), queue);
        if moved.is_err() {
            self.done = true;
        }
        let cil = display.memory_map.columns_in_line(self.line);
        self.current_col_max = if cil < self.col_max {
            cil
        } else {
            self.col_max
        };
    }

    /// Write one character, wrapping and swallowing whitespace as the
    /// writer's transition prescribes; a done writer silently discards
    /// it, transmitting nothing.
    pub fn write_char<B: WritableDataBus, M: DisplayMemoryMap, C: CharsetWithFallback, E>(
        &mut self,
        display: &mut HD44780<B, M, C>,
        ch: char,
        queue: &mut Vec<BusAction>,
    ) -> (r: Result<(), Error<E>>)
        requires
            old(display).memory_map.wf(),
        ensures
            r is Ok,
            *final(display) == *old(display),
            *final(self) == old(self).spec_write_char(*old(display), ch).0,
            final(queue)@ == old(queue)@ + old(self).spec_write_char(*old(display), ch).1,
    {
        if ch == '\n' {
            if self.col >= self.current_col_max {
                self.done = true;
            }
            self.new_line(display, queue);
            return Ok(());
        }
        // A space right after an automatic line break is swallowed once,
        // so that word wrap does not leave a leading blank.
        if self.implicit_newline && display.charset.is_whitespace(ch) {
            self.implicit_newline = false;
            return Ok(());
        }
        self.implicit_newline = false;

        // Past the bound rectangle the character is dropped in silence:
        // nothing may ever be transmitted beyond it.
        if self.done {
            return Ok(());
        }
        let _written: Result<(), Error<E>> = display.write_char(ch, queue);

        // Continue on a new line once the capacity is reached
        if self.col >= self.current_col_max {
            self.implicit_newline = true;
            self.new_line(display, queue);
        } else {
            self.col = self.col + 1;
        }

        Ok(())
    }

    /// Write a string character by character; characters past the bound
    /// are silently discarded.
    pub fn write_str<B: WritableDataBus, M: DisplayMemoryMap, C: CharsetWithFallback, E>(
        &mut self,
        display: &mut HD44780<B, M, C>,
        s: &str,
        queue: &mut Vec<BusAction>,
    ) -> (r: Result<(), Error<E>>)
        requires
            old(display).memory_map.wf(),
        ensures
            r is Ok,
            *final(display) == *old(display),
            *final(self) == old(self).spec_write_str(*old(display), s@).0,
            final(queue)@ == old(queue)@ + old(self).spec_write_str(*old(display), s@).1,
    {
        let n = s.unicode_len();
        let mut i: usize = 0;
        while i < n
            invariant
                i <= n,
                n == s@.len(),
                old(display).memory_map.wf(),
                *display == *old(display),
                *self == old(self).spec_write_str(*old(display), s@.take(i as int)).0,
                queue@ == old(queue)@ + old(self).spec_write_str(*old(display), s@.take(i as int)).1,
            decreases n - i,
        {
            let ch = s.get_char(i);
            let _written: Result<(), Error<E>> = self.write_char(display, ch, queue);
            i += 1;
            proof {
                lemma_write_str_snoc(*old(self), *old(display), s@.take(i - 1), ch);
                assert(s@.take(i - 1).push(ch) =~= s@.take(i as int));
            }
        }
        proof {
            assert(s@.take(n as int) =~= s@);
        }
        Ok(())
    }
}

/// Writing one more character after a string continues the string's
/// transition: the character's own transition follows the string's.
proof fn lemma_write_str_snoc<B: WritableDataBus, M: DisplayMemoryMap, C: CharsetWithFallback>(
    w: DisplayWriter,
    d: HD44780<B, M, C>,
    chars: Seq<char>,
    ch: char,
)
    ensures
        ({
            let p = w.spec_write_str(d, chars);
            let s = p.0.spec_write_char(d, ch);
            let whole = w.spec_write_str(d, chars.push(ch));
            whole.0 == s.0 && whole.1 == p.1 + s.1
        }),
    decreases chars.len(),
{
    let whole_chars = chars.push(ch);
    assert(whole_chars[chars.len() as int] == ch);
    if chars.len() == 0 {
        assert(whole_chars[0] == ch);
        assert(whole_chars.drop_first() =~= Seq::<char>::empty());
        let s = w.spec_write_char(d, ch);
        assert(s.0.spec_write_str(d, whole_chars.drop_first()).1 =~= Seq::<BusAction>::empty());
        assert(w.spec_write_str(d, whole_chars).1 =~= s.1);
    } else {
        assert(whole_chars[0] == chars[0]);
        assert(whole_chars.drop_first() =~= chars.drop_first().push(ch));
        let first = w.spec_write_char(d, chars[0]);
        lemma_write_str_snoc(first.0, d, chars.drop_first(), ch);
        let p = w.spec_write_str(d, chars);
        let s = p.0.spec_write_char(d, ch);
        assert(w.spec_write_str(d, whole_chars).1 =~= p.1 + s.1);
    }
}

/// A writer that has run out of rows transmits nothing: whatever
/// character it is handed, the queue stays untouched and the writer
/// stays done.
pub proof fn lemma_done_writer_emits_nothing<B: WritableDataBus, M: DisplayMemoryMap, C: CharsetWithFallback>(
    w: DisplayWriter,
    d: HD44780<B, M, C>,
    ch: char,
)
    requires
        w.done,
    ensures
        w.spec_write_char(d, ch).1 == Seq::<BusAction>::empty(),
        w.spec_write_char(d, ch).0.done,
{
}

/// A writer that has run out of rows silently discards whole strings:
/// no character of any further string reaches the bus.
pub proof fn lemma_done_writer_discards_string<B: WritableDataBus, M: DisplayMemoryMap, C: CharsetWithFallback>(
    w: DisplayWriter,
    d: HD44780<B, M, C>,
    chars: Seq<char>,
)
    requires
        w.done,
    ensures
        w.spec_write_str(d, chars).1 == Seq::<BusAction>::empty(),
        w.spec_write_str(d, chars).0.done,
    decreases chars.len(),
{
    if chars.len() > 0 {
        lemma_done_writer_emits_nothing(w, d, chars[0]);
        let s = w.spec_write_char(d, chars[0]);
        lemma_done_writer_discards_string(s.0, d, chars.drop_first());
        assert(w.spec_write_str(d, chars).1 =~= Seq::<BusAction>::empty());
    }
}

impl<B: WritableDataBus, M: DisplayMemoryMap, C: CharsetWithFallback> HD44780<B, M, C> {
    /// Bind a [`DisplayWriter`] to the sub-rectangle from `position` to
    /// `max`, queueing the cursor move to its start.
    pub fn writer<E>(&mut self, position: (u8, u8), max: (u8, u8), queue: &mut Vec<BusAction>) -> (r: Result<
        DisplayWriter,
        Error<E>,
    >)
        requires
            old(self).memory_map.wf(),
        ensures
            *final(self) == *old(self),
            ({
                let (w, acts) = DisplayWriter::spec_new(*old(self), position, max);
                match w {
                    Some(w0) => r == Ok::<DisplayWriter, Error<E>>(w0) && final(queue)@ == old(queue)@ + acts,
                    None => r == Err::<DisplayWriter, Error<E>>(
                        Error::Position { position, size: old(self).memory_map.spec_size() },
                    ) && final(queue)@ == old(queue)@,
                }
            }),
    {
        DisplayWriter::new(self, position, max, queue)
    }
}

} // verus!
