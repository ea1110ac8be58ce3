use vstd::prelude::*;

verus! {

/// Determines if the cursor address is incremented or decremented when a
/// character is written.
#[derive(Clone, Copy, Debug, PartialEq, Eq, Structural)]
pub enum CursorMode {
    Increment,
    Decrement,
}

impl Default for CursorMode {
    fn default() -> (r: CursorMode)
        ensures
            r == CursorMode::Increment,
    {
        CursorMode::Increment
    }
}

/// Determines if the viewport is shifted when a character is written.
#[derive(Clone, Copy, Debug, PartialEq, Eq, Structural)]
pub enum ShiftMode {
    Enabled,
    Disabled,
}

impl Default for ShiftMode {
    fn default() -> (r: ShiftMode)
        ensures
            r == ShiftMode::Disabled,
    {
        ShiftMode::Disabled
    }
}

impl From<bool> for ShiftMode {
    fn from(b: bool) -> (r: ShiftMode)
        ensures
            r == (if b {
                ShiftMode::Enabled
            } else {
                ShiftMode::Disabled
            }),
    {
        if b {
            ShiftMode::Enabled
        } else {
            ShiftMode::Disabled
        }
    }
}

impl vstd::std_specs::convert::FromSpecImpl<bool> for ShiftMode {
    open spec fn obeys_from_spec() -> bool {
        true
    }

    open spec fn from_spec(b: bool) -> ShiftMode {
        if b {
            ShiftMode::Enabled
        } else {
            ShiftMode::Disabled
        }
    }
}

/// The entry-mode flag group of the controller: cursor advance direction and
/// automatic viewport shifting.
#[derive(Clone, Copy, Debug, PartialEq, Eq, Structural)]
pub struct EntryMode {
    pub cursor_mode: CursorMode,
    pub shift_mode: ShiftMode,
}

impl Default for EntryMode {
    fn default() -> (r: EntryMode)
        ensures
            r == EntryMode::spec_default(),
    {
        EntryMode { cursor_mode: CursorMode::Increment, shift_mode: ShiftMode::Disabled }
    }
}

impl EntryMode {
    /// The flag group that `Default` produces.
    pub open spec fn spec_default() -> EntryMode {
        EntryMode { cursor_mode: CursorMode::Increment, shift_mode: ShiftMode::Disabled }
    }

    /// The entry-mode command byte for this flag group: bit 2 marks the
    /// command, bit 1 the cursor direction, bit 0 automatic shifting.
    pub open spec fn spec_as_byte(self) -> u8 {
        (4 + (if self.cursor_mode is Increment {
            2int
        } else {
            0int
        }) + (if self.shift_mode is Enabled {
            1int
        } else {
            0int
        })) as u8
    }

    /// The flag group encoded by an entry-mode command byte.
    pub open spec fn spec_from_byte(b: u8) -> EntryMode {
        EntryMode {
            cursor_mode: if (b / 2) % 2 == 1 {
                CursorMode::Increment
            } else {
                CursorMode::Decrement
            },
            shift_mode: if b % 2 == 1 {
                ShiftMode::Enabled
            } else {
                ShiftMode::Disabled
            },
        }
    }

    /// Encode the flag group as the entry-mode command byte.
    pub fn as_byte(&self) -> (r: u8)
        ensures
            r == self.spec_as_byte(),
    {
        let cursor_bits: u8 = match self.cursor_mode {
            CursorMode::Increment => 2,
            CursorMode::Decrement => 0,
        };

        let shift_bits: u8 = match self.shift_mode {
            ShiftMode::Enabled => 1,
            ShiftMode::Disabled => 0,
        };

        4 + cursor_bits + shift_bits
    }
}

/// Encoding an entry-mode flag group and decoding the resulting command byte
/// yields the flag group back: the byte determines both visible flags.
pub proof fn lemma_entry_mode_round_trip(m: EntryMode)
    ensures
        EntryMode::spec_from_byte(m.spec_as_byte()) == m,
{
}

} // verus!
