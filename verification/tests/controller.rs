use hd44780_driver::bus::{BusAction, EightBitBus, EightBitBusPins, WriteOnlyMode};
use hd44780_driver::character::CharacterDefinition;
use hd44780_driver::charset::{CharsetUniversal, EmptyFallback};
use hd44780_driver::display_mode::DisplayMode;
use hd44780_driver::error::{Error, Port};
use hd44780_driver::memory_map::{DisplayMemoryMap, StandardMemoryMap};
use hd44780_driver::setup::{DisplayOptions8Bit, Unspecified};
use hd44780_driver::{Cursor, CursorBlink, Direction, Display, HD44780};

type Lcd = HD44780<
    EightBitBus<
        Unspecified,
        WriteOnlyMode,
        Unspecified,
        Unspecified,
        Unspecified,
        Unspecified,
        Unspecified,
        Unspecified,
        Unspecified,
        Unspecified,
        Unspecified,
    >,
    StandardMemoryMap,
    EmptyFallback<CharsetUniversal>,
>;

/// Build a display over an eight-bit bus, discarding the queued
/// initialization sequence.
fn eightbit_display(columns: u8, rows: u8) -> Lcd {
    let mut queue: Vec<BusAction> = Vec::new();
    let options = DisplayOptions8Bit::new(StandardMemoryMap::new(columns, rows, 40)).with_pins(EightBitBusPins {
        rs: Unspecified,
        rw: WriteOnlyMode,
        en: Unspecified,
        d0: Unspecified,
        d1: Unspecified,
        d2: Unspecified,
        d3: Unspecified,
        d4: Unspecified,
        d5: Unspecified,
        d6: Unspecified,
        d7: Unspecified,
    });
    HD44780::new(options, &mut queue)
}

/// The byte-level transmissions in an eight-bit action queue: each entry
/// is the register-select level and the byte the data lines carried.
fn transmissions(actions: &[BusAction]) -> Vec<(bool, u8)> {
    let mut out = Vec::new();
    let mut i = 0;
    while i < actions.len() {
        if let BusAction::SetLine {
            line: Port::RS,
            high,
        } = actions[i]
        {
            let mut byte = 0u8;
            for k in 0..8 {
                if let BusAction::SetLine { high: true, .. } = actions[i + 1 + k] {
                    byte |= 1 << k;
                }
            }
            out.push((high, byte));
            i += 9;
        } else {
            i += 1;
        }
    }
    out
}

#[test]
fn eightbit_init_sequence() {
    let mut queue: Vec<BusAction> = Vec::new();
    let options = DisplayOptions8Bit::new(StandardMemoryMap::new(16, 2, 40)).with_pins(EightBitBusPins {
        rs: Unspecified,
        rw: WriteOnlyMode,
        en: Unspecified,
        d0: Unspecified,
        d1: Unspecified,
        d2: Unspecified,
        d3: Unspecified,
        d4: Unspecified,
        d5: Unspecified,
        d6: Unspecified,
        d7: Unspecified,
    });
    let _lcd = HD44780::new(options, &mut queue);

    // The datasheet-mandated power-on wait comes first.
    assert_eq!(queue[0], BusAction::DelayUs { us: 15000 });
    // Width twice, display control, clear, cursor home, entry mode; all
    // commands, in order.
    let sent = transmissions(&queue);
    let bytes: Vec<u8> = sent.iter().map(|&(_, b)| b).collect();
    assert_eq!(bytes, vec![0x30, 0x38, 0x0e, 0x01, 0x07, 0x06]);
    assert!(sent.iter().all(|&(is_data, _)| !is_data));
}

#[test]
fn clear_idempotent() {
    // Two clears in a row produce the same chip command sequence.
    let mut lcd = eightbit_display(16, 2);
    let mut first: Vec<BusAction> = Vec::new();
    let mut second: Vec<BusAction> = Vec::new();
    lcd.clear::<()>(&mut first).unwrap();
    lcd.clear::<()>(&mut second).unwrap();
    assert_eq!(first, second);
    assert_eq!(transmissions(&first), vec![(false, 0x01)]);
    // Clearing needs the chip's longer settle, not the ordinary 100us.
    assert_eq!(first.last(), Some(&BusAction::DelayUs { us: 2000 }));
}

#[test]
fn reset_has_long_settle() {
    let mut lcd = eightbit_display(16, 2);
    let mut queue: Vec<BusAction> = Vec::new();
    lcd.reset::<()>(&mut queue).unwrap();
    assert_eq!(transmissions(&queue), vec![(false, 0x02)]);
    assert_eq!(queue.last(), Some(&BusAction::DelayUs { us: 2000 }));
}

#[test]
fn command_bytes() {
    let mut lcd = eightbit_display(16, 2);
    let mut queue: Vec<BusAction> = Vec::new();
    lcd.reset::<()>(&mut queue).unwrap();
    lcd.shift_cursor::<()>(Direction::Left, &mut queue).unwrap();
    lcd.shift_cursor::<()>(Direction::Right, &mut queue).unwrap();
    lcd.shift_display::<()>(Direction::Left, &mut queue).unwrap();
    lcd.shift_display::<()>(Direction::Right, &mut queue).unwrap();
    let bytes: Vec<u8> = transmissions(&queue).iter().map(|&(_, b)| b).collect();
    assert_eq!(bytes, vec![0x02, 0x10, 0x14, 0x18, 0x1c]);
}

#[test]
fn set_cursor_pos_converts_linear_offset() {
    // The legacy linear form splits the offset through the column count
    // and resolves it through the memory map, so the command carries the
    // row's real register address.
    let mut lcd = eightbit_display(20, 4);
    let mut queue: Vec<BusAction> = Vec::new();
    lcd.set_cursor_pos::<()>(40, &mut queue).unwrap();
    assert_eq!(transmissions(&queue), vec![(false, 0x80 | 20)]);
}

#[test]
fn set_cursor_pos_rejects_out_of_bounds() {
    // Offset 85 on a 20x4 display would land on a fifth row.
    let mut lcd = eightbit_display(20, 4);
    let mut queue: Vec<BusAction> = Vec::new();
    let r = lcd.set_cursor_pos::<()>(85, &mut queue);
    match r {
        Err(Error::Position { position, size }) => {
            assert_eq!(position, (5, 4));
            assert_eq!(size, (20, 4));
        }
        _ => panic!("expected a position error"),
    }
    assert!(queue.is_empty());
}

#[test]
fn setters_resend_full_flag_byte() {
    // Each setter re-encodes the whole flag group from driver state, so
    // the transmitted byte always equals the state's own encoding.
    let mut lcd = eightbit_display(16, 2);
    let mut queue: Vec<BusAction> = Vec::new();

    lcd.set_display::<()>(Display::Off, &mut queue).unwrap();
    assert_eq!(lcd.display_mode.display, Display::Off);
    lcd.set_cursor_visibility::<()>(Cursor::Invisible, &mut queue).unwrap();
    assert_eq!(lcd.display_mode.cursor_visibility, Cursor::Invisible);
    lcd.set_cursor_blink::<()>(CursorBlink::Off, &mut queue).unwrap();
    assert_eq!(lcd.display_mode.cursor_blink, CursorBlink::Off);
    lcd.set_autoscroll::<()>(true, &mut queue).unwrap();
    lcd.set_cursor_mode::<()>(hd44780_driver::entry_mode::CursorMode::Decrement, &mut queue)
        .unwrap();

    let bytes: Vec<u8> = transmissions(&queue).iter().map(|&(_, b)| b).collect();
    // The driver starts from the flags init transmitted (blink already
    // off); each setter flips one flag and re-sends the whole byte, and
    // entry-mode setters re-send the entry byte.
    assert_eq!(bytes, vec![0b0000_1010, 0b0000_1000, 0b0000_1000, 0b0000_0111, 0b0000_0101]);
    assert_eq!(bytes[2], lcd.display_mode.as_byte());
    assert_eq!(bytes[4], lcd.entry_mode.as_byte());
}

#[test]
fn set_display_mode_round_trip() {
    // Setting a whole flag group leaves the driver holding exactly the
    // flags given, and transmits their encoding.
    let mut lcd = eightbit_display(16, 2);
    let mut queue: Vec<BusAction> = Vec::new();
    let wanted = DisplayMode {
        display: Display::On,
        cursor_visibility: Cursor::Invisible,
        cursor_blink: CursorBlink::On,
    };
    lcd.set_display_mode::<()>(wanted, &mut queue).unwrap();
    assert_eq!(lcd.display_mode, wanted);
    assert_eq!(transmissions(&queue), vec![(false, wanted.as_byte())]);
}

#[test]
fn set_cursor_xy_resolves_addresses() {
    let mut lcd = eightbit_display(20, 4);
    let mut queue: Vec<BusAction> = Vec::new();
    lcd.set_cursor_xy::<()>((19, 0), &mut queue).unwrap();
    lcd.set_cursor_xy::<()>((0, 1), &mut queue).unwrap();
    lcd.set_cursor_xy::<()>((3, 2), &mut queue).unwrap();
    let bytes: Vec<u8> = transmissions(&queue).iter().map(|&(_, b)| b).collect();
    assert_eq!(bytes, vec![0x80 | 19, 0x80 | 64, 0x80 | 23]);
}

#[test]
fn set_cursor_xy_rejects_out_of_bounds() {
    let mut lcd = eightbit_display(20, 4);
    let mut queue: Vec<BusAction> = Vec::new();
    let r = lcd.set_cursor_xy::<()>((20, 0), &mut queue);
    match r {
        Err(Error::Position { position, size }) => {
            assert_eq!(position, (20, 0));
            assert_eq!(size, (20, 4));
        }
        _ => panic!("expected a position error"),
    }
    // A rejected move transmits nothing.
    assert!(queue.is_empty());
}

#[test]
fn wrap_io_tags_the_port() {
    let e: Error<u8> = Error::wrap_io(Port::D4, 7);
    match e {
        Error::Io { port, error } => {
            assert_eq!(port, Port::D4);
            assert_eq!(error, 7);
        }
        _ => panic!("expected an io error"),
    }
}

#[test]
fn write_byte_and_bytes_bypass_encoding() {
    let mut lcd = eightbit_display(16, 2);
    let mut queue: Vec<BusAction> = Vec::new();
    lcd.write_byte::<()>(0xff, &mut queue).unwrap();
    lcd.write_bytes::<()>(&[0xb1, 0xb2], &mut queue).unwrap();
    let sent = transmissions(&queue);
    assert_eq!(sent, vec![(true, 0xff), (true, 0xb1), (true, 0xb2)]);
}

#[test]
fn write_char_encodes_through_charset() {
    let mut lcd = eightbit_display(16, 2);
    let mut queue: Vec<BusAction> = Vec::new();
    lcd.write_char::<()>('A', &mut queue).unwrap();
    // Unmappable characters become the fallback blank.
    lcd.write_char::<()>('\\', &mut queue).unwrap();
    let sent = transmissions(&queue);
    assert_eq!(sent, vec![(true, 0x41), (true, 0x20)]);
}

#[test]
fn define_custom_character_uploads_rows() {
    let mut lcd = eightbit_display(16, 2);
    let mut queue: Vec<BusAction> = Vec::new();
    let def = CharacterDefinition {
        pattern: [1, 2, 3, 4, 5, 6, 7, 8, 9, 10],
        cursor: 0x1f,
    };
    lcd.define_custom_character::<()>(2, &def, &mut queue).unwrap();
    let sent = transmissions(&queue);
    // Switch to the CGRAM slot, the eleven rows, then back to DDRAM.
    assert_eq!(sent[0], (false, 0x40 | (2 << 4)));
    for (k, row) in [1u8, 2, 3, 4, 5, 6, 7, 8, 9, 10, 0x1f].iter().enumerate() {
        assert_eq!(sent[1 + k], (true, *row));
    }
    assert_eq!(sent[12], (false, 0x80));
    assert_eq!(sent.len(), 13);
}

#[test]
fn init_state_agrees_with_transmitted_control_byte() {
    // The init sequence's display-control byte (0x0E) and the
    // constructed driver state encode the same flags, so state and chip
    // agree from the start.
    let lcd = eightbit_display(16, 2);
    assert_eq!(lcd.display_mode.as_byte(), 0x0e);
    assert_eq!(lcd.display_mode.cursor_blink, CursorBlink::Off);
    assert_eq!(lcd.display_mode.display, Display::On);
    assert_eq!(lcd.display_mode.cursor_visibility, Cursor::Visible);
}

#[test]
fn destroy_returns_the_bus() {
    let lcd = eightbit_display(16, 2);
    let bus = lcd.destroy();
    let _pins = bus.destroy();
}

#[test]
fn display_size_reports_geometry() {
    let lcd = eightbit_display(16, 2);
    assert_eq!(lcd.display_size().get(), (16, 2));
    assert_eq!(lcd.memory_map().columns_in_line(0), 40);
}
