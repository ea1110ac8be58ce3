use hd44780_driver::bus::{
    BusAction, FourBitBus, FourBitBusPins, I2CBus, I2CMCP23008Bus, ReadSelect, ReadableDataBus, SealedReadSelect,
    SealedWriteSelect, WritableDataBus, WriteSelect,
};
use hd44780_driver::entry_mode::{CursorMode, EntryMode, ShiftMode};
use hd44780_driver::memory_map::StandardMemoryMap;
use hd44780_driver::setup::{DisplayOptionsI2C, Unspecified};
use hd44780_driver::HD44780;

/// A read/write-select slot that allows reads, standing in for a real
/// pin wired to the chip's RW line.
struct RwPin;

impl SealedWriteSelect for RwPin {}
impl WriteSelect for RwPin {}
impl SealedReadSelect for RwPin {}
impl ReadSelect for RwPin {}

#[test]
fn i2c_init_write_has_enable_pulse_and_backlight() {
    // The first init command, 0x33, travels nibble by nibble: each
    // nibble is one two-byte transfer raising enable, a settle delay,
    // and one transfer dropping it, with the backlight bit in every
    // byte.
    let mut queue: Vec<BusAction> = Vec::new();
    let options = DisplayOptionsI2C::new(StandardMemoryMap::new(16, 2, 40)).with_i2c_bus(Unspecified, 0x27);
    let _lcd = HD44780::new(options, &mut queue);

    assert_eq!(queue[0], BusAction::DelayUs { us: 15000 });
    assert_eq!(
        queue[1],
        BusAction::I2cWritePair {
            address: 0x27,
            first: 0x38,
            second: 0x38 | 0x04,
        }
    );
    assert_eq!(queue[2], BusAction::DelayUs { us: 2000 });
    assert_eq!(queue[3], BusAction::I2cWrite { address: 0x27, byte: 0x38 });
    assert_eq!(
        queue[4],
        BusAction::I2cWritePair {
            address: 0x27,
            first: 0x38,
            second: 0x38 | 0x04,
        }
    );
    assert_eq!(queue[6], BusAction::I2cWrite { address: 0x27, byte: 0x38 });

    // The backlight bit is OR'd into every byte of the whole init.
    for action in &queue {
        match *action {
            BusAction::I2cWrite { byte, .. } => assert!(byte & 0x08 != 0),
            BusAction::I2cWritePair { first, second, .. } => {
                assert!(first & 0x08 != 0);
                assert!(second & 0x08 != 0);
            }
            _ => {}
        }
    }
}

#[test]
fn with_i2c_bus_preserves_entry_mode() {
    // Choosing the bus after the entry mode keeps the chosen mode, like
    // every other builder step.
    let chosen = EntryMode {
        cursor_mode: CursorMode::Decrement,
        shift_mode: ShiftMode::Enabled,
    };
    let mut queue: Vec<BusAction> = Vec::new();
    let options = DisplayOptionsI2C::new(StandardMemoryMap::new(16, 2, 40))
        .with_entry_mode(chosen)
        .with_i2c_bus(Unspecified, 0x27);
    let lcd = HD44780::new(options, &mut queue);
    assert_eq!(lcd.entry_mode, chosen);
}

#[test]
fn i2c_data_write_sets_register_select() {
    let mut bus = I2CBus::new(Unspecified, 0x27);
    let mut queue: Vec<BusAction> = Vec::new();
    bus.write(0xa5, true, &mut queue);
    // Upper nibble 0xa0, then lower nibble 0x50, each with the
    // register-select and backlight bits: 0xa0|1|8 and 0x50|1|8.
    assert_eq!(
        queue[0],
        BusAction::I2cWritePair {
            address: 0x27,
            first: 0xa9,
            second: 0xa9 | 0x04,
        }
    );
    assert_eq!(queue[3], BusAction::I2cWritePair {
        address: 0x27,
        first: 0x59,
        second: 0x59 | 0x04,
    });
    assert_eq!(queue.len(), 6);
}

#[test]
fn i2c_read_and_decode() {
    let mut bus = I2CBus::new(Unspecified, 0x27);
    let mut queue: Vec<BusAction> = Vec::new();
    bus.read(false, &mut queue);
    // Each nibble read releases the data lines (0xf0), raises the read
    // and backlight bits, pulses enable, and samples the expander.
    assert_eq!(
        queue[0],
        BusAction::I2cWritePair {
            address: 0x27,
            first: 0xfa,
            second: 0xfa | 0x04,
        }
    );
    assert_eq!(queue[2], BusAction::I2cReadWrite { address: 0x27, byte: 0xfa });
    assert_eq!(queue.len(), 6);

    // The byte is the upper nibbles of the two samples.
    assert_eq!(bus.decode_read(&vec![0xa5, 0x5b]), 0xa5);
}

#[test]
fn fourbit_read_and_decode() {
    let mut bus = FourBitBus::from_pins(FourBitBusPins {
        rs: Unspecified,
        rw: RwPin,
        en: Unspecified,
        d4: Unspecified,
        d5: Unspecified,
        d6: Unspecified,
        d7: Unspecified,
    });
    let mut queue: Vec<BusAction> = Vec::new();
    bus.read(true, &mut queue);
    let samples: Vec<&BusAction> = queue
        .iter()
        .filter(|a| matches!(a, BusAction::ReadLine { .. }))
        .collect();
    assert_eq!(samples.len(), 8);

    // Upper nibble samples come first: 0b1001 upper, 0b0110 lower.
    let byte = bus.decode_read(&vec![1, 0, 0, 1, 0, 1, 1, 0]);
    assert_eq!(byte, 0x96);
}

#[test]
fn mcp23008_setup_and_write() {
    let mut queue: Vec<BusAction> = Vec::new();
    let mut bus = I2CMCP23008Bus::new(Unspecified, 0x20, true, &mut queue);
    // Reset every register, then make pins one to seven outputs.
    assert_eq!(queue[0], BusAction::I2cWritePair { address: 0x20, first: 0x00, second: 0xff });
    for k in 0u8..9 {
        assert_eq!(
            queue[1 + k as usize],
            BusAction::I2cWritePair { address: 0x20, first: k + 1, second: 0 }
        );
    }
    assert_eq!(queue[10], BusAction::I2cWritePair { address: 0x20, first: 0x00, second: 0x01 });
    assert_eq!(queue.len(), 11);

    // One command byte: register select settles, each nibble is latched
    // by the enable pin, and the pins are released, backlight kept.
    let mut write_queue: Vec<BusAction> = Vec::new();
    bus.write(0x33, false, &mut write_queue);
    let gpio: Vec<u8> = write_queue
        .iter()
        .filter_map(|a| match *a {
            BusAction::I2cWritePair { first: 0x09, second, .. } => Some(second),
            _ => None,
        })
        .collect();
    assert_eq!(gpio, vec![0x80, 0x9c, 0x98, 0x9c, 0x98, 0x80]);

    let mut backlight_queue: Vec<BusAction> = Vec::new();
    bus.set_backlight(false, &mut backlight_queue);
    assert_eq!(
        backlight_queue,
        vec![BusAction::I2cWritePair { address: 0x20, first: 0x09, second: 0x00 }]
    );
}
