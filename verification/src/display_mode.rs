use vstd::prelude::*;

use crate::{Cursor, CursorBlink, Display};

verus! {

/// The display-control flag group of the controller: whether the display,
/// the cursor and cursor blinking are enabled.
#[derive(Clone, Copy, Debug, PartialEq, Eq, Structural)]
pub struct DisplayMode {
    pub cursor_visibility: Cursor,
    pub cursor_blink: CursorBlink,
    pub display: Display,
}

impl DisplayMode {
    /// The display-control command byte for this flag group: bit 3 marks the
    /// command, bit 2 the display, bit 1 the cursor, bit 0 blinking.
    pub open spec fn spec_as_byte(self) -> u8 {
        (8 + (if self.display is On {
            4int
        } else {
            0int
        }) + (if self.cursor_visibility is Visible {
            2int
        } else {
            0int
        }) + (if self.cursor_blink is On {
            1int
        } else {
            0int
        })) as u8
    }

    /// The flag group encoded by a display-control command byte.
    pub open spec fn spec_from_byte(b: u8) -> DisplayMode {
        DisplayMode {
            cursor_visibility: if (b / 2) % 2 == 1 {
                Cursor::Visible
            } else {
                Cursor::Invisible
            },
            cursor_blink: if b % 2 == 1 {
                CursorBlink::On
            } else {
                CursorBlink::Off
            },
            display: if (b / 4) % 2 == 1 {
                Display::On
            } else {
                Display::Off
            },
        }
    }

    /// Encode the flag group as the display-control command byte.
    pub fn as_byte(&self) -> (r: u8)
        ensures
            r == self.spec_as_byte(),
    {
        let cursor_blink_bits: u8 = match self.cursor_blink {
            CursorBlink::On => 1,
            CursorBlink::Off => 0,
        };

        let cursor_visible_bits: u8 = match self.cursor_visibility {
            Cursor::Visible => 2,
            Cursor::Invisible => 0,
        };

        let display_bits: u8 = match self.display {
            Display::On => 4,
            Display::Off => 0,
        };

        8 + display_bits + cursor_visible_bits + cursor_blink_bits
    }
}

impl Default for DisplayMode {
    /// Display on, cursor visible and blinking.
    fn default() -> (r: DisplayMode)
        ensures
            r == DisplayMode::spec_default(),
    {
        DisplayMode { cursor_visibility: Cursor::Visible, cursor_blink: CursorBlink::On, display: Display::On }
    }
}

impl DisplayMode {
    /// The flag group that `Default` produces.
    pub open spec fn spec_default() -> DisplayMode {
        DisplayMode { cursor_visibility: Cursor::Visible, cursor_blink: CursorBlink::On, display: Display::On }
    }
}

/// Encoding a display-control flag group and decoding the resulting command
/// byte yields the flag group back: the byte determines every visible flag.
pub proof fn lemma_display_mode_round_trip(m: DisplayMode)
    ensures
        DisplayMode::spec_from_byte(m.spec_as_byte()) == m,
{
}

} // verus!
