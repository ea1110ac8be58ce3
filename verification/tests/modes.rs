use hd44780_driver::display_mode::DisplayMode;
use hd44780_driver::display_size::DisplaySize;
use hd44780_driver::entry_mode::{CursorMode, EntryMode, ShiftMode};
use hd44780_driver::{Cursor, CursorBlink, Display};

#[test]
fn cursor_visible() {
    let dm = DisplayMode {
        cursor_visibility: Cursor::Visible,
        ..Default::default()
    };

    assert!(dm.as_byte() & 0b0000_0010 != 0);

    let dm = DisplayMode {
        cursor_visibility: Cursor::Invisible,
        ..Default::default()
    };

    assert!(dm.as_byte() & 0b0000_0010 == 0);
}

#[test]
fn cursor_blink() {
    let dm = DisplayMode {
        cursor_blink: CursorBlink::On,
        ..Default::default()
    };

    assert!(dm.as_byte() & 0b0000_0001 != 0);

    let dm = DisplayMode {
        cursor_blink: CursorBlink::Off,
        ..Default::default()
    };

    assert!(dm.as_byte() & 0b0000_0001 == 0);
}

#[test]
fn display_visible() {
    let dm = DisplayMode {
        display: Display::On,
        ..Default::default()
    };

    assert!(dm.as_byte() & 0b0000_0100 != 0);

    let dm = DisplayMode {
        display: Display::Off,
        ..Default::default()
    };

    assert!(dm.as_byte() & 0b0000_0100 == 0);
}

#[test]
fn test_default_get() {
    let std = DisplaySize::default();
    assert_eq!(20, std.get().0);
    assert_eq!(4, std.get().1);
}

#[test]
fn cursor_mode() {
    let em = EntryMode {
        cursor_mode: CursorMode::Increment,
        shift_mode: Default::default(),
    };

    assert!(em.as_byte() & 0b0000_0010 != 0);

    let em = EntryMode {
        cursor_mode: CursorMode::Decrement,
        shift_mode: Default::default(),
    };

    assert!(em.as_byte() & 0b0000_0010 == 0);
}

#[test]
fn shift_mode() {
    let em = EntryMode {
        cursor_mode: Default::default(),
        shift_mode: ShiftMode::Enabled,
    };

    assert!(em.as_byte() & 0b0000_0001 != 0);

    let em = EntryMode {
        cursor_mode: Default::default(),
        shift_mode: ShiftMode::Disabled,
    };

    assert!(em.as_byte() & 0b0000_0001 == 0);
}

#[test]
fn display_mode_exact_bytes() {
    // Every flag combination encodes to its exact command byte.
    let all = DisplayMode {
        display: Display::On,
        cursor_visibility: Cursor::Visible,
        cursor_blink: CursorBlink::On,
    };
    assert_eq!(all.as_byte(), 0b0000_1111);

    let none = DisplayMode {
        display: Display::Off,
        cursor_visibility: Cursor::Invisible,
        cursor_blink: CursorBlink::Off,
    };
    assert_eq!(none.as_byte(), 0b0000_1000);

    let display_only = DisplayMode {
        display: Display::On,
        cursor_visibility: Cursor::Invisible,
        cursor_blink: CursorBlink::Off,
    };
    assert_eq!(display_only.as_byte(), 0b0000_1100);
}

#[test]
fn entry_mode_exact_bytes() {
    let default_mode = EntryMode::default();
    assert_eq!(default_mode.as_byte(), 0b0000_0110);

    let shifted = EntryMode {
        cursor_mode: CursorMode::Decrement,
        shift_mode: ShiftMode::Enabled,
    };
    assert_eq!(shifted.as_byte(), 0b0000_0101);
}

#[test]
fn display_mode_byte_determines_flags() {
    // Decoding the encoded byte restores every flag set: the byte's bits
    // pin each flag down, for all eight combinations.
    for display in [Display::On, Display::Off] {
        for cursor_visibility in [Cursor::Visible, Cursor::Invisible] {
            for cursor_blink in [CursorBlink::On, CursorBlink::Off] {
                let dm = DisplayMode {
                    cursor_visibility,
                    cursor_blink,
                    display,
                };
                let byte = dm.as_byte();
                let decoded = DisplayMode {
                    cursor_visibility: if (byte >> 1) & 1 == 1 {
                        Cursor::Visible
                    } else {
                        Cursor::Invisible
                    },
                    cursor_blink: if byte & 1 == 1 {
                        CursorBlink::On
                    } else {
                        CursorBlink::Off
                    },
                    display: if (byte >> 2) & 1 == 1 {
                        Display::On
                    } else {
                        Display::Off
                    },
                };
                assert_eq!(decoded, dm);
            }
        }
    }
}

#[test]
fn entry_mode_byte_determines_flags() {
    for cursor_mode in [CursorMode::Increment, CursorMode::Decrement] {
        for shift_mode in [ShiftMode::Enabled, ShiftMode::Disabled] {
            let em = EntryMode {
                cursor_mode,
                shift_mode,
            };
            let byte = em.as_byte();
            let decoded = EntryMode {
                cursor_mode: if (byte >> 1) & 1 == 1 {
                    CursorMode::Increment
                } else {
                    CursorMode::Decrement
                },
                shift_mode: if byte & 1 == 1 {
                    ShiftMode::Enabled
                } else {
                    ShiftMode::Disabled
                },
            };
            assert_eq!(decoded, em);
        }
    }
}
