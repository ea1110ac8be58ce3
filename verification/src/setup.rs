use vstd::prelude::*;

use crate::bus::{BusAction, EightBitBus, EightBitBusPins, FourBitBus, FourBitBusPins, I2CBus, WritableDataBus};
use crate::charset::{CharsetUniversal, CharsetWithFallback, EmptyFallback, Fallback};
use crate::display_mode::DisplayMode;
use crate::entry_mode::EntryMode;
use crate::memory_map::DisplayMemoryMap;
use crate::{Cursor, CursorBlink, Display, Internal, HD44780};

verus! {

/// Placeholder until the pin/bus is specified.
#[derive(Clone, Copy, Debug, PartialEq, Eq, Structural)]
pub struct Unspecified;

/// A set of display options ready to construct a driver: use this as an
/// argument to [`HD44780::new`].
/// - [`DisplayOptionsI2C`]
/// - [`DisplayOptions4Bit`]
/// - [`DisplayOptions8Bit`]
pub trait DisplayOptions: Sized {
    type Bus: WritableDataBus;

    type MemoryMap: DisplayMemoryMap;

    type Charset: CharsetWithFallback;

    /// Validity of the configured geometry.
    spec fn wf(self) -> bool;

    /// The driver state the construction produces.
    spec fn spec_display(self) -> HD44780<Self::Bus, Self::MemoryMap, Self::Charset>;

    /// The initialization sequence the construction queues.
    spec fn spec_init_actions(self) -> Seq<BusAction>;

    /// Build the driver, queueing the power-on initialization sequence.
    fn new_display(self, queue: &mut Vec<BusAction>, internal: Internal) -> (r: HD44780<
        Self::Bus,
        Self::MemoryMap,
        Self::Charset,
    >)
        requires
            self.wf(),
        ensures
            r == self.spec_display(),
            r.memory_map.wf(),
            final(queue)@ == old(queue)@ + self.spec_init_actions(),
    ;
}

/// Options for a display wired over all eight data lines.
pub struct DisplayOptions8Bit<M: DisplayMemoryMap, C: CharsetWithFallback, RS, RW, EN, D0, D1, D2, D3, D4, D5, D6, D7> {
    /// Memory map used for mapping 2D coordinates to the display.
    pub memory_map: M,
    /// The character set this display uses.
    pub charset: C,
    pub entry_mode: EntryMode,
    pub pins: EightBitBusPins<RS, RW, EN, D0, D1, D2, D3, D4, D5, D6, D7>,
}

/// Options for a display wired over the upper four data lines.
pub struct DisplayOptions4Bit<M: DisplayMemoryMap, C: CharsetWithFallback, RS, RW, EN, D4, D5, D6, D7> {
    /// Memory map used for mapping 2D coordinates to the display.
    pub memory_map: M,
    /// The character set this display uses.
    pub charset: C,
    pub entry_mode: EntryMode,
    pub pins: FourBitBusPins<RS, RW, EN, D4, D5, D6, D7>,
}

/// Options for a display reached through an I2C GPIO expander.
pub struct DisplayOptionsI2C<M: DisplayMemoryMap, C: CharsetWithFallback, I2C> {
    /// Memory map used for mapping 2D coordinates to the display.
    pub memory_map: M,
    /// The character set this display uses.
    pub charset: C,
    pub entry_mode: EntryMode,
    pub i2c_bus: I2C,
    pub address: u8,
}

impl<M: DisplayMemoryMap> DisplayOptions8Bit<
    M,
    EmptyFallback<CharsetUniversal>,
    Unspecified,
    Unspecified,
    Unspecified,
    Unspecified,
    Unspecified,
    Unspecified,
    Unspecified,
    Unspecified,
    Unspecified,
    Unspecified,
    Unspecified,
> {
    /// Start from a memory map, the universal character set with a blank
    /// fallback, and no pins chosen yet.
    pub fn new(memory_map: M) -> (r: Self)
        ensures
            r.memory_map == memory_map,
            r.charset == (Fallback::<CharsetUniversal, 32>(CharsetUniversal)),
            r.entry_mode == EntryMode::spec_default(),
    {
        Self {
            memory_map,
            charset: Fallback::new(CharsetUniversal),
            entry_mode: EntryMode::default(),
            pins: EightBitBusPins {
                rs: Unspecified,
                rw: Unspecified,
                en: Unspecified,
                d0: Unspecified,
                d1: Unspecified,
                d2: Unspecified,
                d3: Unspecified,
                d4: Unspecified,
                d5: Unspecified,
                d6: Unspecified,
                d7: Unspecified,
            },
        }
    }
}

impl<M: DisplayMemoryMap> DisplayOptions4Bit<
    M,
    EmptyFallback<CharsetUniversal>,
    Unspecified,
    Unspecified,
    Unspecified,
    Unspecified,
    Unspecified,
    Unspecified,
    Unspecified,
> {
    /// Start from a memory map, the universal character set with a blank
    /// fallback, and no pins chosen yet.
    pub fn new(memory_map: M) -> (r: Self)
        ensures
            r.memory_map == memory_map,
            r.charset == (Fallback::<CharsetUniversal, 32>(CharsetUniversal)),
            r.entry_mode == EntryMode::spec_default(),
    {
        Self {
            memory_map,
            charset: Fallback::new(CharsetUniversal),
            entry_mode: EntryMode::default(),
            pins: FourBitBusPins {
                rs: Unspecified,
                rw: Unspecified,
                en: Unspecified,
                d4: Unspecified,
                d5: Unspecified,
                d6: Unspecified,
                d7: Unspecified,
            },
        }
    }
}

impl<M: DisplayMemoryMap> DisplayOptionsI2C<M, EmptyFallback<CharsetUniversal>, Unspecified> {
    /// Start from a memory map, the universal character set with a blank
    /// fallback, and no I2C bus chosen yet.
    pub fn new(memory_map: M) -> (r: Self)
        ensures
            r.memory_map == memory_map,
            r.charset == (Fallback::<CharsetUniversal, 32>(CharsetUniversal)),
            r.entry_mode == EntryMode::spec_default(),
            r.address == 0,
    {
        Self {
            memory_map,
            charset: Fallback::new(CharsetUniversal),
            entry_mode: EntryMode::default(),
            i2c_bus: Unspecified,
            address: 0,
        }
    }
}

impl<M: DisplayMemoryMap, C: CharsetWithFallback, RS, RW, EN, D0, D1, D2, D3, D4, D5, D6, D7> DisplayOptions8Bit<
    M,
    C,
    RS,
    RW,
    EN,
    D0,
    D1,
    D2,
    D3,
    D4,
    D5,
    D6,
    D7,
> {
    /// Choose a different memory map.
    pub fn with_memory_map<M2: DisplayMemoryMap>(self, memory_map: M2) -> (r: DisplayOptions8Bit<
        M2,
        C,
        RS,
        RW,
        EN,
        D0,
        D1,
        D2,
        D3,
        D4,
        D5,
        D6,
        D7,
    >)
        ensures
            r.memory_map == memory_map,
            r.charset == self.charset,
            r.entry_mode == self.entry_mode,
            r.pins == self.pins,
    {
        DisplayOptions8Bit { memory_map, charset: self.charset, entry_mode: self.entry_mode, pins: self.pins }
    }

    /// Choose a different character set.
    pub fn with_charset<C2: CharsetWithFallback>(self, charset: C2) -> (r: DisplayOptions8Bit<
        M,
        C2,
        RS,
        RW,
        EN,
        D0,
        D1,
        D2,
        D3,
        D4,
        D5,
        D6,
        D7,
    >)
        ensures
            r.memory_map == self.memory_map,
            r.charset == charset,
            r.entry_mode == self.entry_mode,
            r.pins == self.pins,
    {
        DisplayOptions8Bit { memory_map: self.memory_map, charset, entry_mode: self.entry_mode, pins: self.pins }
    }

    /// Choose the initial entry mode.
    pub fn with_entry_mode(self, entry_mode: EntryMode) -> (r: Self)
        ensures
            r.memory_map == self.memory_map,
            r.charset == self.charset,
            r.entry_mode == entry_mode,
            r.pins == self.pins,
    {
        DisplayOptions8Bit { memory_map: self.memory_map, charset: self.charset, entry_mode, pins: self.pins }
    }

    /// The eight d0..d7 pins are used to send and receive with the
    /// `HD44780`.  The register select pin `rs` tells the `HD44780` if
    /// incoming data is a command or data, and the enable pin `en` that
    /// the data pins should be read in.
    pub fn with_pins<RS2, RW2, EN2, D02, D12, D22, D32, D42, D52, D62, D72>(
        self,
        pins: EightBitBusPins<RS2, RW2, EN2, D02, D12, D22, D32, D42, D52, D62, D72>,
    ) -> (r: DisplayOptions8Bit<M, C, RS2, RW2, EN2, D02, D12, D22, D32, D42, D52, D62, D72>)
        ensures
            r.memory_map == self.memory_map,
            r.charset == self.charset,
            r.entry_mode == self.entry_mode,
            r.pins == pins,
    {
        DisplayOptions8Bit { memory_map: self.memory_map, charset: self.charset, entry_mode: self.entry_mode, pins }
    }
}

impl<M: DisplayMemoryMap, C: CharsetWithFallback, RS, RW, EN, D4, D5, D6, D7> DisplayOptions4Bit<
    M,
    C,
    RS,
    RW,
    EN,
    D4,
    D5,
    D6,
    D7,
> {
    /// Choose a different memory map.
    pub fn with_memory_map<M2: DisplayMemoryMap>(self, memory_map: M2) -> (r: DisplayOptions4Bit<
        M2,
        C,
        RS,
        RW,
        EN,
        D4,
        D5,
        D6,
        D7,
    >)
        ensures
            r.memory_map == memory_map,
            r.charset == self.charset,
            r.entry_mode == self.entry_mode,
            r.pins == self.pins,
    {
        DisplayOptions4Bit { memory_map, charset: self.charset, entry_mode: self.entry_mode, pins: self.pins }
    }

    /// Choose a different character set.
    pub fn with_charset<C2: CharsetWithFallback>(self, charset: C2) -> (r: DisplayOptions4Bit<
        M,
        C2,
        RS,
        RW,
        EN,
        D4,
        D5,
        D6,
        D7,
    >)
        ensures
            r.memory_map == self.memory_map,
            r.charset == charset,
            r.entry_mode == self.entry_mode,
            r.pins == self.pins,
    {
        DisplayOptions4Bit { memory_map: self.memory_map, charset, entry_mode: self.entry_mode, pins: self.pins }
    }

    /// Choose the initial entry mode.
    pub fn with_entry_mode(self, entry_mode: EntryMode) -> (r: Self)
        ensures
            r.memory_map == self.memory_map,
            r.charset == self.charset,
            r.entry_mode == entry_mode,
            r.pins == self.pins,
    {
        DisplayOptions4Bit { memory_map: self.memory_map, charset: self.charset, entry_mode, pins: self.pins }
    }

    /// The four d4..d7 pins are used to send and receive with the
    /// `HD44780`.  The register select pin `rs` tells the `HD44780` if
    /// incoming data is a command or data, and the enable pin `en` that
    /// the data pins should be read in.
    pub fn with_pins<RS2, RW2, EN2, D42, D52, D62, D72>(
        self,
        pins: FourBitBusPins<RS2, RW2, EN2, D42, D52, D62, D72>,
    ) -> (r: DisplayOptions4Bit<M, C, RS2, RW2, EN2, D42, D52, D62, D72>)
        ensures
            r.memory_map == self.memory_map,
            r.charset == self.charset,
            r.entry_mode == self.entry_mode,
            r.pins == pins,
    {
        DisplayOptions4Bit { memory_map: self.memory_map, charset: self.charset, entry_mode: self.entry_mode, pins }
    }
}

impl<M: DisplayMemoryMap, C: CharsetWithFallback, I2C> DisplayOptionsI2C<M, C, I2C> {
    /// Choose a different memory map.
    pub fn with_memory_map<M2: DisplayMemoryMap>(self, memory_map: M2) -> (r: DisplayOptionsI2C<M2, C, I2C>)
        ensures
            r.memory_map == memory_map,
            r.charset == self.charset,
            r.entry_mode == self.entry_mode,
            r.i2c_bus == self.i2c_bus,
            r.address == self.address,
    {
        DisplayOptionsI2C {
            memory_map,
            charset: self.charset,
            entry_mode: self.entry_mode,
            i2c_bus: self.i2c_bus,
            address: self.address,
        }
    }

    /// Choose a different character set.
    pub fn with_charset<C2: CharsetWithFallback>(self, charset: C2) -> (r: DisplayOptionsI2C<M, C2, I2C>)
        ensures
            r.memory_map == self.memory_map,
            r.charset == charset,
            r.entry_mode == self.entry_mode,
            r.i2c_bus == self.i2c_bus,
            r.address == self.address,
    {
        DisplayOptionsI2C {
            memory_map: self.memory_map,
            charset,
            entry_mode: self.entry_mode,
            i2c_bus: self.i2c_bus,
            address: self.address,
        }
    }

    /// Choose the initial entry mode.
    pub fn with_entry_mode(self, entry_mode: EntryMode) -> (r: Self)
        ensures
            r.memory_map == self.memory_map,
            r.charset == self.charset,
            r.entry_mode == entry_mode,
            r.i2c_bus == self.i2c_bus,
            r.address == self.address,
    {
        DisplayOptionsI2C {
            memory_map: self.memory_map,
            charset: self.charset,
            entry_mode,
            i2c_bus: self.i2c_bus,
            address: self.address,
        }
    }

    /// Choose the I2C peripheral and the expander's bus address; the
    /// previously chosen entry mode is carried over like every other
    /// field.
    pub fn with_i2c_bus<I2C2>(self, i2c_bus: I2C2, address: u8) -> (r: DisplayOptionsI2C<M, C, I2C2>)
        ensures
            r.memory_map == self.memory_map,
            r.charset == self.charset,
            r.entry_mode == self.entry_mode,
            r.i2c_bus == i2c_bus,
            r.address == address,
    {
        DisplayOptionsI2C {
            memory_map: self.memory_map,
            charset: self.charset,
            entry_mode: self.entry_mode,
            i2c_bus,
            address,
        }
    }
}

/// The display-control flags both initialization sequences transmit
/// (control byte 0x0E): display on, cursor visible, blinking off.  The
/// constructed driver starts from these flags, so its state agrees with
/// the chip from the first moment.
pub open spec fn spec_initial_display_mode() -> DisplayMode {
    DisplayMode { cursor_visibility: Cursor::Visible, cursor_blink: CursorBlink::Off, display: Display::On }
}

fn initial_display_mode() -> (r: DisplayMode)
    ensures
        r == spec_initial_display_mode(),
{
    DisplayMode { cursor_visibility: Cursor::Visible, cursor_blink: CursorBlink::Off, display: Display::On }
}

/// The 8-bit setup procedure as specified in the HD44780 datasheet:
/// power-on wait, the interface-width command twice with its font bits,
/// display control, clear, and the caller's entry mode, each followed by
/// its mandated settle delay.
pub open spec fn init_8bit_actions<B: WritableDataBus>(bus: B, entry_mode: EntryMode) -> Seq<BusAction> {
    seq![BusAction::DelayUs { us: 15000 }] + bus.spec_write(0x30, false) + seq![BusAction::DelayUs { us: 5000 }]
        + bus.spec_write(0x38, false) + seq![BusAction::DelayUs { us: 100 }] + bus.spec_write(0x0e, false)
        + seq![BusAction::DelayUs { us: 100 }] + bus.spec_write(0x01, false) + seq![BusAction::DelayUs { us: 100 }]
        + bus.spec_write(0x07, false) + seq![BusAction::DelayUs { us: 100 }] + bus.spec_write(
        entry_mode.spec_as_byte(),
        false,
    ) + seq![BusAction::DelayUs { us: 100 }]
}

/// The 4-bit setup procedure as specified in the HD44780 datasheet: as
/// the 8-bit one, but the width commands first bring the chip into
/// 4-bit mode nibble by nibble, and a final width command latches 4-bit
/// addressing.
pub open spec fn init_4bit_actions<B: WritableDataBus>(bus: B, entry_mode: EntryMode) -> Seq<BusAction> {
    seq![BusAction::DelayUs { us: 15000 }] + bus.spec_write(0x33, false) + seq![BusAction::DelayUs { us: 5000 }]
        + bus.spec_write(0x32, false) + seq![BusAction::DelayUs { us: 100 }] + bus.spec_write(0x28, false)
        + seq![BusAction::DelayUs { us: 100 }] + bus.spec_write(0x0e, false) + seq![BusAction::DelayUs { us: 100 }]
        + bus.spec_write(0x01, false) + seq![BusAction::DelayUs { us: 100 }] + bus.spec_write(
        entry_mode.spec_as_byte(),
        false,
    ) + seq![BusAction::DelayUs { us: 100 }] + bus.spec_write(0x80, false) + seq![BusAction::DelayUs { us: 100 }]
}

// Follow the 8-bit setup procedure as specified in the HD44780 datasheet
fn init_8bit<B: WritableDataBus>(bus: &mut B, entry_mode: &EntryMode, queue: &mut Vec<BusAction>)
    ensures
        *final(bus) == *old(bus),
        final(queue)@ == old(queue)@ + init_8bit_actions(*old(bus), *entry_mode),
{
    // Wait for the LCD to wake up if it was off
    queue.push(BusAction::DelayUs { us: 15000 });

    // Initialize LCD in 8-bit mode
    bus.write(0b0011_0000, false, queue);

    // Wait for the command to be processed
    queue.push(BusAction::DelayUs { us: 5000 });

    // Set 8-bit operation and enable 5x7 mode for chars
    bus.write(0b0011_1000, false, queue);

    // Wait for the command to be processed
    queue.push(BusAction::DelayUs { us: 100 });

    bus.write(0b0000_1110, false, queue);

    // Wait for the command to be processed
    queue.push(BusAction::DelayUs { us: 100 });

    // Clear display
    bus.write(0b0000_0001, false, queue);

    // Wait for the command to be processed
    queue.push(BusAction::DelayUs { us: 100 });

    // Move the cursor to beginning of first line
    bus.write(0b0000_0111, false, queue);

    // Wait for the command to be processed
    queue.push(BusAction::DelayUs { us: 100 });

    // Set entry mode
    bus.write(entry_mode.as_byte(), false, queue);

    // Wait for the command to be processed
    queue.push(BusAction::DelayUs { us: 100 });

    proof {
        assert(queue@ =~= old(queue)@ + init_8bit_actions(*old(bus), *entry_mode));
    }
}

// Follow the 4-bit setup procedure as specified in the HD44780 datasheet
fn init_4bit<B: WritableDataBus>(bus: &mut B, entry_mode: &EntryMode, queue: &mut Vec<BusAction>)
    ensures
        *final(bus) == *old(bus),
        final(queue)@ == old(queue)@ + init_4bit_actions(*old(bus), *entry_mode),
{
    // Wait for the LCD to wake up if it was off
    queue.push(BusAction::DelayUs { us: 15000 });

    // Initialize LCD into 4-bit mode
    bus.write(0x33, false, queue);

    // Wait for the command to be processed
    queue.push(BusAction::DelayUs { us: 5000 });

    // Set 4-bit operation and enable 5x7 mode for chars
    bus.write(0x32, false, queue);

    // Wait for the command to be processed
    queue.push(BusAction::DelayUs { us: 100 });

    bus.write(0x28, false, queue);

    // Wait for the command to be processed
    queue.push(BusAction::DelayUs { us: 100 });

    bus.write(0x0e, false, queue);

    // Wait for the command to be processed
    queue.push(BusAction::DelayUs { us: 100 });

    // Clear display
    bus.write(0x01, false, queue);

    // Wait for the command to be processed
    queue.push(BusAction::DelayUs { us: 100 });

    // Set entry mode
    bus.write(entry_mode.as_byte(), false, queue);

    // Wait for the command to be processed
    queue.push(BusAction::DelayUs { us: 100 });

    // Latch 4-bit addressing
    bus.write(0x80, false, queue);

    // Wait for the command to be processed
    queue.push(BusAction::DelayUs { us: 100 });

    proof {
        assert(queue@ =~= old(queue)@ + init_4bit_actions(*old(bus), *entry_mode));
    }
}

impl<
    M: DisplayMemoryMap,
    C: CharsetWithFallback,
    RS,
    RW: crate::bus::WriteSelect,
    EN,
    D0,
    D1,
    D2,
    D3,
    D4,
    D5,
    D6,
    D7,
> DisplayOptions for DisplayOptions8Bit<M, C, RS, RW, EN, D0, D1, D2, D3, D4, D5, D6, D7> {
    type Bus = EightBitBus<RS, RW, EN, D0, D1, D2, D3, D4, D5, D6, D7>;

    type MemoryMap = M;

    type Charset = C;

    open spec fn wf(self) -> bool {
        self.memory_map.wf()
    }

    open spec fn spec_display(self) -> HD44780<Self::Bus, M, C> {
        HD44780 {
            bus: EightBitBus { pins: self.pins },
            memory_map: self.memory_map,
            charset: self.charset,
            entry_mode: self.entry_mode,
            display_mode: spec_initial_display_mode(),
        }
    }

    open spec fn spec_init_actions(self) -> Seq<BusAction> {
        init_8bit_actions(EightBitBus { pins: self.pins }, self.entry_mode)
    }

    fn new_display(self, queue: &mut Vec<BusAction>, _internal: Internal) -> (r: HD44780<Self::Bus, M, C>) {
        let mut bus = EightBitBus::from_pins(self.pins);

        init_8bit(&mut bus, &self.entry_mode, queue);

        HD44780::new_raw(bus, self.memory_map, self.charset, self.entry_mode, initial_display_mode())
    }
}

impl<M: DisplayMemoryMap, C: CharsetWithFallback, RS, RW: crate::bus::WriteSelect, EN, D4, D5, D6, D7> DisplayOptions
    for DisplayOptions4Bit<M, C, RS, RW, EN, D4, D5, D6, D7> {
    type Bus = FourBitBus<RS, RW, EN, D4, D5, D6, D7>;

    type MemoryMap = M;

    type Charset = C;

    open spec fn wf(self) -> bool {
        self.memory_map.wf()
    }

    open spec fn spec_display(self) -> HD44780<Self::Bus, M, C> {
        HD44780 {
            bus: FourBitBus { pins: self.pins },
            memory_map: self.memory_map,
            charset: self.charset,
            entry_mode: self.entry_mode,
            display_mode: spec_initial_display_mode(),
        }
    }

    open spec fn spec_init_actions(self) -> Seq<BusAction> {
        init_4bit_actions(FourBitBus { pins: self.pins }, self.entry_mode)
    }

    fn new_display(self, queue: &mut Vec<BusAction>, _internal: Internal) -> (r: HD44780<Self::Bus, M, C>) {
        let mut bus = FourBitBus::from_pins(self.pins);

        init_4bit(&mut bus, &self.entry_mode, queue);

        HD44780::new_raw(bus, self.memory_map, self.charset, self.entry_mode, initial_display_mode())
    }
}

impl<M: DisplayMemoryMap, C: CharsetWithFallback, I2C> DisplayOptions for DisplayOptionsI2C<M, C, I2C> {
    type Bus = I2CBus<I2C>;

    type MemoryMap = M;

    type Charset = C;

    open spec fn wf(self) -> bool {
        self.memory_map.wf()
    }

    open spec fn spec_display(self) -> HD44780<Self::Bus, M, C> {
        HD44780 {
            bus: I2CBus { i2c_bus: self.i2c_bus, address: self.address },
            memory_map: self.memory_map,
            charset: self.charset,
            entry_mode: self.entry_mode,
            display_mode: spec_initial_display_mode(),
        }
    }

    open spec fn spec_init_actions(self) -> Seq<BusAction> {
        init_4bit_actions(I2CBus { i2c_bus: self.i2c_bus, address: self.address }, self.entry_mode)
    }

    fn new_display(self, queue: &mut Vec<BusAction>, _internal: Internal) -> (r: HD44780<Self::Bus, M, C>) {
        let mut bus = I2CBus::new(self.i2c_bus, self.address);

        init_4bit(&mut bus, &self.entry_mode, queue);

        HD44780::new_raw(bus, self.memory_map, self.charset, self.entry_mode, initial_display_mode())
    }
}

} // verus!
