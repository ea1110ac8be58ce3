use hd44780_driver::bus::{BusAction, EightBitBus, EightBitBusPins, WriteOnlyMode};
use hd44780_driver::charset::{CharsetUniversal, EmptyFallback};
use hd44780_driver::error::{Error, Port};
use hd44780_driver::memory_map::StandardMemoryMap;
use hd44780_driver::setup::{DisplayOptions8Bit, Unspecified};
use hd44780_driver::HD44780;

type Lcd = HD44780<
    EightBitBus<
        Unspecified,
        WriteOnlyMode,
        Unspecified,
        Unspecified,
        Unspecified,
        Unspecified,
        Unspecified,
        Unspecified,
        Unspecified,
        Unspecified,
        Unspecified,
    >,
    StandardMemoryMap,
    EmptyFallback<CharsetUniversal>,
>;

fn eightbit_display(columns: u8, rows: u8) -> Lcd {
    let mut queue: Vec<BusAction> = Vec::new();
    let options = DisplayOptions8Bit::new(StandardMemoryMap::new(columns, rows, 40)).with_pins(EightBitBusPins {
        rs: Unspecified,
        rw: WriteOnlyMode,
        en: Unspecified,
        d0: Unspecified,
        d1: Unspecified,
        d2: Unspecified,
        d3: Unspecified,
        d4: Unspecified,
        d5: Unspecified,
        d6: Unspecified,
        d7: Unspecified,
    });
    HD44780::new(options, &mut queue)
}

/// The byte-level transmissions in an eight-bit action queue: each entry
/// is the register-select level and the byte the data lines carried.
fn transmissions(actions: &[BusAction]) -> Vec<(bool, u8)> {
    let mut out = Vec::new();
    let mut i = 0;
    while i < actions.len() {
        if let BusAction::SetLine {
            line: Port::RS,
            high,
        } = actions[i]
        {
            let mut byte = 0u8;
            for k in 0..8 {
                if let BusAction::SetLine { high: true, .. } = actions[i + 1 + k] {
                    byte |= 1 << k;
                }
            }
            out.push((high, byte));
            i += 9;
        } else {
            i += 1;
        }
    }
    out
}

fn data_bytes(actions: &[BusAction]) -> Vec<u8> {
    transmissions(actions)
        .iter()
        .filter_map(|&(is_data, b)| if is_data { Some(b) } else { None })
        .collect()
}

#[test]
fn hello_world_no_wrap() {
    // A 16x2 display with "Hello, world!" at (0,0): thirteen data-byte
    // transmissions, each preceded by the register-select line set to
    // data, and no automatic line wrap since thirteen is below sixteen.
    let mut lcd = eightbit_display(16, 2);
    let mut queue: Vec<BusAction> = Vec::new();
    let mut writer = lcd.writer::<()>((0, 0), (15, 1), &mut queue).unwrap();
    writer.write_str::<_, _, _, ()>(&mut lcd, "Hello, world!", &mut queue).unwrap();

    let sent = transmissions(&queue);
    // The cursor move to (0,0), then exactly the thirteen characters.
    assert_eq!(sent[0], (false, 0x80));
    let data: Vec<(bool, u8)> = sent[1..].to_vec();
    assert_eq!(data.len(), 13);
    assert!(data.iter().all(|&(is_data, _)| is_data));
    let bytes: Vec<u8> = data.iter().map(|&(_, b)| b).collect();
    assert_eq!(bytes, b"Hello, world!".to_vec());
}

#[test]
fn writer_bound_single_row_discards_overflow() {
    // Bound to columns zero to four on a single row, "ab cdef" fills the
    // five columns; the writer then runs out of rows, so the remaining
    // characters are silently discarded and nothing is transmitted past
    // the bound.
    let mut lcd = eightbit_display(16, 2);
    let mut queue: Vec<BusAction> = Vec::new();
    let mut writer = lcd.writer::<()>((0, 0), (4, 0), &mut queue).unwrap();
    let r = writer.write_str::<_, _, _, ()>(&mut lcd, "ab cdef", &mut queue);

    assert!(r.is_ok());
    assert_eq!(data_bytes(&queue), b"ab cd".to_vec());

    // Once done, every further character is dropped in silence.
    let before = queue.len();
    let again = writer.write_char::<_, _, _, ()>(&mut lcd, 'x', &mut queue);
    assert!(again.is_ok());
    assert_eq!(queue.len(), before);
}

#[test]
fn writer_swallows_space_after_wrap() {
    // Wrapping at the column bound swallows one whitespace character,
    // so word wrap leaves no leading blank on the new row.
    let mut lcd = eightbit_display(16, 2);
    let mut queue: Vec<BusAction> = Vec::new();
    let mut writer = lcd.writer::<()>((0, 0), (4, 1), &mut queue).unwrap();
    writer.write_str::<_, _, _, ()>(&mut lcd, "abcde fgh", &mut queue).unwrap();

    // Five characters fill row zero, the wrap moves the cursor to row
    // one, the space is swallowed, and the word continues flush left.
    assert_eq!(data_bytes(&queue), b"abcdefgh".to_vec());
    let sent = transmissions(&queue);
    assert_eq!(sent[0], (false, 0x80));
    // The automatic wrap queued the cursor move to (0,1).
    assert_eq!(sent[6], (false, 0x80 | 0x40));
}

#[test]
fn writer_explicit_newline() {
    let mut lcd = eightbit_display(16, 2);
    let mut queue: Vec<BusAction> = Vec::new();
    let mut writer = lcd.writer::<()>((0, 0), (15, 1), &mut queue).unwrap();
    writer.write_str::<_, _, _, ()>(&mut lcd, "ab\ncd", &mut queue).unwrap();

    let sent = transmissions(&queue);
    // Cursor home, two characters, the newline's cursor move, two more.
    assert_eq!(
        sent,
        vec![
            (false, 0x80),
            (true, b'a'),
            (true, b'b'),
            (false, 0x80 | 0x40),
            (true, b'c'),
            (true, b'd'),
        ]
    );
    // An explicit newline does not swallow following whitespace.
    let mut more: Vec<BusAction> = Vec::new();
    let mut w2 = lcd.writer::<()>((0, 0), (15, 1), &mut more).unwrap();
    w2.write_str::<_, _, _, ()>(&mut lcd, "a\n b", &mut more).unwrap();
    assert_eq!(data_bytes(&more), b"a b".to_vec());
}

#[test]
fn writer_rejects_bad_start() {
    let mut lcd = eightbit_display(16, 2);
    let mut queue: Vec<BusAction> = Vec::new();
    let r = lcd.writer::<()>((0, 2), (15, 1), &mut queue);
    match r {
        Err(Error::Position { position, size }) => {
            assert_eq!(position, (0, 2));
            assert_eq!(size, (16, 2));
        }
        _ => panic!("expected a position error"),
    }
    assert!(queue.is_empty());
}
