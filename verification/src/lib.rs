//! Driver core for the HD44780 character LCD controller.
//!
//! The controller is driven by timed sequences of bus-level operations:
//! pin levels, I2C transfers and settle delays.  This crate models those
//! sequences explicitly: every operation of the driver appends the exact
//! [`bus::BusAction`]s the chip must see to a queue, and the surrounding
//! (unverified) platform layer replays the queue against the real pins,
//! I2C peripheral and clock.

use vstd::prelude::*;
use vstd::string::StrSliceExecFns;

pub mod bus;
pub mod character;
pub mod charset;
pub mod display_mode;
pub mod display_size;
pub mod display_status;
pub mod memory_map;
pub mod setup;
pub mod writer;
pub mod entry_mode;
pub mod error;

use bus::{BusAction, WritableDataBus};
use charset::CharsetWithFallback;
use display_mode::DisplayMode;
use display_size::DisplaySize;
use entry_mode::{CursorMode, EntryMode, ShiftMode};
use error::Error;
use memory_map::DisplayMemoryMap;

verus! {

/// Marker restricting constructor plumbing that callers are not meant to
/// invoke directly.
pub struct Internal;

/// Direction argument for shifting the cursor and the display.
#[derive(Clone, Copy, Debug, PartialEq, Eq, Structural)]
pub enum Direction {
    Left,
    Right,
}

/// Whether the character positions of the display are lit at all.
#[derive(Clone, Copy, Debug, PartialEq, Eq, Structural)]
pub enum Display {
    On,
    Off,
}

/// Whether the cursor is drawn.
#[derive(Clone, Copy, Debug, PartialEq, Eq, Structural)]
pub enum Cursor {
    Visible,
    Invisible,
}

/// Whether the cursor position blinks.
#[derive(Clone, Copy, Debug, PartialEq, Eq, Structural)]
pub enum CursorBlink {
    On,
    Off,
}

/// The driver of one HD44780 controller: the exclusive owner of its bus
/// transport, its memory map and character set, and the two flag groups
/// whose command bytes are always re-derived from this state.
pub struct HD44780<B: WritableDataBus, M: DisplayMemoryMap, C: CharsetWithFallback> {
    pub bus: B,
    pub memory_map: M,
    pub charset: C,
    pub entry_mode: EntryMode,
    pub display_mode: DisplayMode,
}

/// The command byte shifting the cursor one position in `dir`.
pub open spec fn shift_cursor_cmd(dir: Direction) -> u8 {
    if dir is Left {
        0x10
    } else {
        0x14
    }
}

/// The command byte shifting the whole viewport one position in `dir`.
pub open spec fn shift_display_cmd(dir: Direction) -> u8 {
    if dir is Left {
        0x18
    } else {
        0x1c
    }
}

impl<B: WritableDataBus, M: DisplayMemoryMap, C: CharsetWithFallback> HD44780<B, M, C> {
    /// The actions of one command transmission: the byte on the command
    /// register, then the chip's documented processing delay.
    pub open spec fn spec_command_actions(self, byte: u8) -> Seq<BusAction> {
        self.bus.spec_write(byte, false) + seq![BusAction::DelayUs { us: 100 }]
    }

    /// The actions of one slow command transmission: the byte on the
    /// command register, then the longer settle the chip demands after
    /// clearing and returning home.
    pub open spec fn spec_slow_command_actions(self, byte: u8) -> Seq<BusAction> {
        self.bus.spec_write(byte, false) + seq![BusAction::DelayUs { us: 2000 }]
    }

    /// The actions of one data transmission: the byte on the data
    /// register, then the chip's documented processing delay.
    pub open spec fn spec_data_actions(self, byte: u8) -> Seq<BusAction> {
        self.bus.spec_write(byte, true) + seq![BusAction::DelayUs { us: 100 }]
    }

    /// The actions transmitting each byte of `bytes` in order.
    pub open spec fn spec_write_bytes_actions(self, bytes: Seq<u8>) -> Seq<BusAction>
        decreases bytes.len(),
    {
        if bytes.len() == 0 {
            Seq::empty()
        } else {
            self.spec_data_actions(bytes[0]) + self.spec_write_bytes_actions(bytes.drop_first())
        }
    }

    /// The actions transmitting each character of `chars` in order, each
    /// encoded through the character set with its fallback.
    pub open spec fn spec_write_str_actions(self, chars: Seq<char>) -> Seq<BusAction>
        decreases chars.len(),
    {
        if chars.len() == 0 {
            Seq::empty()
        } else {
            self.spec_data_actions(self.charset.spec_code_with_fallback(chars[0] as u32))
                + self.spec_write_str_actions(chars.drop_first())
        }
    }

    /// The transition of one `clear` call: the state it leaves behind and
    /// the actions it appends.
    pub open spec fn spec_clear(self) -> (HD44780<B, M, C>, Seq<BusAction>) {
        (self, self.spec_slow_command_actions(0x01))
    }

    /// Create an instance of a `HD44780` from a set of display options,
    /// queueing the mandatory power-on initialization sequence.
    pub fn new<Opt: setup::DisplayOptions<Bus = B, MemoryMap = M, Charset = C>>(
        options: Opt,
        queue: &mut Vec<BusAction>,
    ) -> (r: Self)
        requires
            options.wf(),
        ensures
            r == options.spec_display(),
            r.memory_map.wf(),
            final(queue)@ == old(queue)@ + options.spec_init_actions(),
    {
        options.new_display(queue, Internal)
    }

    /// Give the bus transport, and with it the pins or peripheral it
    /// owns, back to the caller.
    pub fn destroy(self) -> (r: B)
        ensures
            r == self.bus,
    {
        self.bus
    }

    pub(crate) fn new_raw(bus: B, memory_map: M, charset: C, entry_mode: EntryMode, display_mode: DisplayMode) -> (r:
        Self)
        ensures
            r == (HD44780 { bus, memory_map, charset, entry_mode, display_mode }),
    {
        Self { bus, memory_map, charset, entry_mode, display_mode }
    }

    /// Unshifts the display and sets the cursor position to 0; the chip
    /// needs its longer settle afterwards.
    pub fn reset<E>(&mut self, queue: &mut Vec<BusAction>) -> (r: Result<(), Error<E>>)
        ensures
            r is Ok,
            *final(self) == *old(self),
            final(queue)@ == old(queue)@ + old(self).spec_slow_command_actions(0x02),
    {
        self.write_slow_command(0b0000_0010, queue);

        Ok(())
    }

    /// Set if the display should be on, if the cursor should be visible,
    /// and if the cursor should blink, in one command.
    pub fn set_display_mode<E>(&mut self, display_mode: DisplayMode, queue: &mut Vec<BusAction>) -> (r: Result<
        (),
        Error<E>,
    >)
        ensures
            r is Ok,
            *final(self) == (HD44780 { display_mode, ..*old(self) }),
            final(queue)@ == old(queue)@ + old(self).spec_command_actions(display_mode.spec_as_byte()),
    {
        self.display_mode = display_mode;

        let cmd_byte = self.display_mode.as_byte();

        self.write_command(cmd_byte, queue);

        Ok(())
    }

    /// Clear the entire display; the cursor returns home, and the chip
    /// needs its longer settle afterwards.
    pub fn clear<E>(&mut self, queue: &mut Vec<BusAction>) -> (r: Result<(), Error<E>>)
        ensures
            r is Ok,
            *final(self) == old(self).spec_clear().0,
            final(queue)@ == old(queue)@ + old(self).spec_clear().1,
    {
        self.write_slow_command(0b0000_0001, queue);

        Ok(())
    }

    /// Get the memory map information for this display.
    pub fn memory_map(&self) -> (r: &M)
        ensures
            r == self.memory_map,
    {
        &self.memory_map
    }

    /// Get the display size.
    pub fn display_size(&self) -> (r: DisplaySize)
        requires
            self.memory_map.wf(),
        ensures
            r.spec_get() == self.memory_map.spec_size(),
    {
        self.memory_map.display_size()
    }

    /// If enabled, automatically scroll the display when a new character
    /// is written to the display.
    pub fn set_autoscroll<E>(&mut self, enabled: bool, queue: &mut Vec<BusAction>) -> (r: Result<(), Error<E>>)
        ensures
            r is Ok,
            *final(self) == (HD44780 {
                entry_mode: EntryMode {
                    shift_mode: if enabled {
                        ShiftMode::Enabled
                    } else {
                        ShiftMode::Disabled
                    },
                    ..old(self).entry_mode
                },
                ..*old(self)
            }),
            final(queue)@ == old(queue)@ + old(self).spec_command_actions(final(self).entry_mode.spec_as_byte()),
    {
        self.entry_mode.shift_mode = ShiftMode::from(enabled);

        let cmd = self.entry_mode.as_byte();

        self.write_command(cmd, queue);

        Ok(())
    }

    /// Set if the cursor should be visible.
    pub fn set_cursor_visibility<E>(&mut self, visibility: Cursor, queue: &mut Vec<BusAction>) -> (r: Result<
        (),
        Error<E>,
    >)
        ensures
            r is Ok,
            *final(self) == (HD44780 {
                display_mode: DisplayMode { cursor_visibility: visibility, ..old(self).display_mode },
                ..*old(self)
            }),
            final(queue)@ == old(queue)@ + old(self).spec_command_actions(final(self).display_mode.spec_as_byte()),
    {
        self.display_mode.cursor_visibility = visibility;

        let cmd = self.display_mode.as_byte();

        self.write_command(cmd, queue);

        Ok(())
    }

    /// Set if the characters on the display should be visible.
    pub fn set_display<E>(&mut self, display: Display, queue: &mut Vec<BusAction>) -> (r: Result<(), Error<E>>)
        ensures
            r is Ok,
            *final(self) == (HD44780 {
                display_mode: DisplayMode { display, ..old(self).display_mode },
                ..*old(self)
            }),
            final(queue)@ == old(queue)@ + old(self).spec_command_actions(final(self).display_mode.spec_as_byte()),
    {
        self.display_mode.display = display;

        let cmd = self.display_mode.as_byte();

        self.write_command(cmd, queue);

        Ok(())
    }

    /// Set if the cursor should blink.
    pub fn set_cursor_blink<E>(&mut self, blink: CursorBlink, queue: &mut Vec<BusAction>) -> (r: Result<(), Error<E>>)
        ensures
            r is Ok,
            *final(self) == (HD44780 {
                display_mode: DisplayMode { cursor_blink: blink, ..old(self).display_mode },
                ..*old(self)
            }),
            final(queue)@ == old(queue)@ + old(self).spec_command_actions(final(self).display_mode.spec_as_byte()),
    {
        self.display_mode.cursor_blink = blink;

        let cmd = self.display_mode.as_byte();

        self.write_command(cmd, queue);

        Ok(())
    }

    /// Set which way the cursor will move when a new character is written.
    pub fn set_cursor_mode<E>(&mut self, mode: CursorMode, queue: &mut Vec<BusAction>) -> (r: Result<(), Error<E>>)
        ensures
            r is Ok,
            *final(self) == (HD44780 {
                entry_mode: EntryMode { cursor_mode: mode, ..old(self).entry_mode },
                ..*old(self)
            }),
            final(queue)@ == old(queue)@ + old(self).spec_command_actions(final(self).entry_mode.spec_as_byte()),
    {
        self.entry_mode.cursor_mode = mode;

        let cmd = self.entry_mode.as_byte();

        self.write_command(cmd, queue);

        Ok(())
    }

    /// Set the cursor position to a linear offset: the offset is split
    /// into `(column, row)` through the visible column count and
    /// resolved through the memory map, so offsets outside the geometry
    /// are rejected with a position error naming the coordinates.
    pub fn set_cursor_pos<E>(&mut self, position: u8, queue: &mut Vec<BusAction>) -> (r: Result<(), Error<E>>)
        requires
            old(self).memory_map.wf(),
            old(self).memory_map.spec_size().0 >= 1,
        ensures
            *final(self) == *old(self),
            ({
                let x = position % old(self).memory_map.spec_size().0;
                let y = position / old(self).memory_map.spec_size().0;
                match old(self).memory_map.spec_address(x, y) {
                    Some(addr) => r is Ok && final(queue)@ == old(queue)@ + old(self).spec_command_actions(
                        (0x80 | addr) as u8,
                    ),
                    None => r == Err::<(), Error<E>>(
                        Error::Position { position: (x, y), size: old(self).memory_map.spec_size() },
                    ) && final(queue)@ == old(queue)@,
                }
            }),
    {
        let size = self.display_size();
        let columns = size.get().0;
        let x = position % columns;
        let y = position / columns;

        self.set_cursor_xy((x, y), queue)
    }

    /// Set the cursor position to the given `(column, row)` coordinates,
    /// resolved through the memory map; coordinates outside the geometry
    /// are rejected with a position error carrying the display size.
    pub fn set_cursor_xy<E>(&mut self, position: (u8, u8), queue: &mut Vec<BusAction>) -> (r: Result<(), Error<E>>)
        requires
            old(self).memory_map.wf(),
        ensures
            *final(self) == *old(self),
            match old(self).memory_map.spec_address(position.0, position.1) {
                Some(addr) => r is Ok && final(queue)@ == old(queue)@ + old(self).spec_command_actions(
                    (0x80 | addr) as u8,
                ),
                None => r == Err::<(), Error<E>>(
                    Error::Position { position, size: old(self).memory_map.spec_size() },
                ) && final(queue)@ == old(queue)@,
            },
    {
        let size = self.display_size();
        match self.memory_map.address_for_xy(position.0, position.1) {
            Some(pos) => {
                self.write_command(0b1000_0000 | pos, queue);

                Ok(())
            },
            None => Err(Error::Position { position, size: size.get() }),
        }
    }

    /// Shift just the cursor to the left or the right.
    pub fn shift_cursor<E>(&mut self, dir: Direction, queue: &mut Vec<BusAction>) -> (r: Result<(), Error<E>>)
        ensures
            r is Ok,
            *final(self) == *old(self),
            final(queue)@ == old(queue)@ + old(self).spec_command_actions(shift_cursor_cmd(dir)),
    {
        let cmd: u8 = match dir {
            Direction::Left => 0b0001_0000,
            Direction::Right => 0b0001_0100,
        };

        self.write_command(cmd, queue);

        Ok(())
    }

    /// Shift the entire display to the left or the right.
    pub fn shift_display<E>(&mut self, dir: Direction, queue: &mut Vec<BusAction>) -> (r: Result<(), Error<E>>)
        ensures
            r is Ok,
            *final(self) == *old(self),
            final(queue)@ == old(queue)@ + old(self).spec_command_actions(shift_display_cmd(dir)),
    {
        let cmd: u8 = match dir {
            Direction::Left => 0b0001_1000,
            Direction::Right => 0b0001_1100,
        };

        self.write_command(cmd, queue);

        Ok(())
    }

    /// Write a single character to the `HD44780`, encoded through the
    /// character set with its fallback byte.
    pub fn write_char<E>(&mut self, data: char, queue: &mut Vec<BusAction>) -> (r: Result<(), Error<E>>)
        ensures
            r is Ok,
            *final(self) == *old(self),
            final(queue)@ == old(queue)@ + old(self).spec_data_actions(
                old(self).charset.spec_code_with_fallback(data as u32),
            ),
    {
        let code = self.charset.code_from_utf8_with_fallback(data);
        self.write_byte(code, queue)
    }

    fn write_command(&mut self, cmd: u8, queue: &mut Vec<BusAction>)
        ensures
            *final(self) == *old(self),
            final(queue)@ == old(queue)@ + old(self).spec_command_actions(cmd),
    {
        self.bus.write(cmd, false, queue);

        // Wait for the command to be processed
        queue.push(BusAction::DelayUs { us: 100 });
    }

    fn write_slow_command(&mut self, cmd: u8, queue: &mut Vec<BusAction>)
        ensures
            *final(self) == *old(self),
            final(queue)@ == old(queue)@ + old(self).spec_slow_command_actions(cmd),
    {
        self.bus.write(cmd, false, queue);

        // Clearing and homing take the chip far longer than ordinary
        // commands
        queue.push(BusAction::DelayUs { us: 2000 });
    }

    /// Writes a string to the HD44780, character by character.
    pub fn write_str<E>(&mut self, string: &str, queue: &mut Vec<BusAction>) -> (r: Result<(), Error<E>>)
        ensures
            r is Ok,
            *final(self) == *old(self),
            final(queue)@ == old(queue)@ + old(self).spec_write_str_actions(string@),
    {
        let n = string.unicode_len();
        let mut i: usize = 0;
        while i < n
            invariant
                i <= n,
                n == string@.len(),
                *self == *old(self),
                queue@ == old(queue)@ + self.spec_write_str_actions(string@.take(i as int)),
            decreases n - i,
        {
            let ch = string.get_char(i);
            let code = self.charset.code_from_utf8_with_fallback(ch);
            self.bus.write(code, true, queue);
            queue.push(BusAction::DelayUs { us: 100 });
            i += 1;
            proof {
                lemma_write_str_actions_snoc(*self, string@.take(i - 1), ch);
                assert(string@.take(i - 1).push(ch) =~= string@.take(i as int));
                assert(queue@ =~= old(queue)@ + self.spec_write_str_actions(string@.take(i as int)));
            }
        }
        proof {
            assert(string@.take(n as int) =~= string@);
        }
        Ok(())
    }

    /// Writes a sequence of raw character codes to the HD44780, bypassing
    /// the character set.
    pub fn write_bytes<E>(&mut self, string: &[u8], queue: &mut Vec<BusAction>) -> (r: Result<(), Error<E>>)
        ensures
            r is Ok,
            *final(self) == *old(self),
            final(queue)@ == old(queue)@ + old(self).spec_write_bytes_actions(string@),
    {
        let n = string.len();
        let mut i: usize = 0;
        while i < n
            invariant
                i <= n,
                n == string@.len(),
                *self == *old(self),
                queue@ == old(queue)@ + self.spec_write_bytes_actions(string@.take(i as int)),
            decreases n - i,
        {
            let b = string[i];
            self.bus.write(b, true, queue);
            queue.push(BusAction::DelayUs { us: 100 });
            i += 1;
            proof {
                lemma_write_bytes_actions_snoc(*self, string@.take(i - 1), b);
                assert(string@.take(i - 1).push(b) =~= string@.take(i as int));
                assert(queue@ =~= old(queue)@ + self.spec_write_bytes_actions(string@.take(i as int)));
            }
        }
        proof {
            assert(string@.take(n as int) =~= string@);
        }
        Ok(())
    }

    /// Writes a single raw character code to the HD44780. These usually
    /// map to ASCII characters when printed on the screen, but not
    /// always; see the ROM's character table.
    pub fn write_byte<E>(&mut self, data: u8, queue: &mut Vec<BusAction>) -> (r: Result<(), Error<E>>)
        ensures
            r is Ok,
            *final(self) == *old(self),
            final(queue)@ == old(queue)@ + old(self).spec_data_actions(data),
    {
        self.bus.write(data, true, queue);

        // Wait for the command to be processed
        queue.push(BusAction::DelayUs { us: 100 });

        Ok(())
    }
}

/// Appending a character to a string extends its transmission by exactly
/// that character's data transmission.
pub(crate) proof fn lemma_write_str_actions_snoc<B: WritableDataBus, M: DisplayMemoryMap, C: CharsetWithFallback>(
    d: HD44780<B, M, C>,
    chars: Seq<char>,
    ch: char,
)
    ensures
        d.spec_write_str_actions(chars.push(ch)) == d.spec_write_str_actions(chars) + d.spec_data_actions(
            d.charset.spec_code_with_fallback(ch as u32),
        ),
    decreases chars.len(),
{
    let whole = chars.push(ch);
    assert(whole[chars.len() as int] == ch);
    if chars.len() == 0 {
        assert(whole[0] == ch);
        assert(whole.drop_first() =~= Seq::<char>::empty());
        assert(d.spec_write_str_actions(whole.drop_first()) == Seq::<BusAction>::empty());
        assert(d.spec_write_str_actions(chars) =~= Seq::<BusAction>::empty());
        assert(d.spec_write_str_actions(whole) =~= d.spec_data_actions(
            d.charset.spec_code_with_fallback(ch as u32),
        ));
    } else {
        assert(whole[0] == chars[0]);
        assert(whole.drop_first() =~= chars.drop_first().push(ch));
        lemma_write_str_actions_snoc(d, chars.drop_first(), ch);
        assert(d.spec_write_str_actions(whole) =~= d.spec_write_str_actions(chars) + d.spec_data_actions(
            d.charset.spec_code_with_fallback(ch as u32),
        ));
    }
}

/// Appending a byte to a byte string extends its transmission by exactly
/// that byte's data transmission.
pub(crate) proof fn lemma_write_bytes_actions_snoc<B: WritableDataBus, M: DisplayMemoryMap, C: CharsetWithFallback>(
    d: HD44780<B, M, C>,
    bytes: Seq<u8>,
    b: u8,
)
    ensures
        d.spec_write_bytes_actions(bytes.push(b)) == d.spec_write_bytes_actions(bytes) + d.spec_data_actions(b),
    decreases bytes.len(),
{
    let whole = bytes.push(b);
    assert(whole[bytes.len() as int] == b);
    if bytes.len() == 0 {
        assert(whole[0] == b);
        assert(whole.drop_first() =~= Seq::<u8>::empty());
        assert(d.spec_write_bytes_actions(whole.drop_first()) == Seq::<BusAction>::empty());
        assert(d.spec_write_bytes_actions(bytes) =~= Seq::<BusAction>::empty());
        assert(d.spec_write_bytes_actions(whole) =~= d.spec_data_actions(b));
    } else {
        assert(whole[0] == bytes[0]);
        assert(whole.drop_first() =~= bytes.drop_first().push(b));
        lemma_write_bytes_actions_snoc(d, bytes.drop_first(), b);
        assert(d.spec_write_bytes_actions(whole) =~= d.spec_write_bytes_actions(bytes) + d.spec_data_actions(b));
    }
}

/// Clearing the display twice in a row produces the same chip command
/// sequence both times: a clear leaves the driver state unchanged, so the
/// second call transmits exactly what the first did.
pub proof fn lemma_clear_idempotent<B: WritableDataBus, M: DisplayMemoryMap, C: CharsetWithFallback>(
    d: HD44780<B, M, C>,
)
    ensures
        d.spec_clear().0.spec_clear().1 == d.spec_clear().1,
        d.spec_clear().0.spec_clear().0 == d.spec_clear().0,
{
}

} // verus!
