use vstd::prelude::*;

use crate::bus::{BusAction, ReadableDataBus, WritableDataBus};

verus! {

/// A bus speaking the four-bit protocol through an I2C GPIO expander:
/// each nibble travels in one serialized byte together with the control
/// bits, and the enable pulse is realized as two I2C transfers.
pub struct I2CBus<I2C> {
    /// The I2C peripheral the expander hangs off; opaque to the driver
    /// and handed back by [`I2CBus::destroy`].
    pub i2c_bus: I2C,
    /// The fixed bus address of the expander.
    pub address: u8,
}

/// Bit of the serialized expander byte that keeps the backlight lit; OR'd
/// into every transmitted byte.
pub const BACKLIGHT: u8 = 0b0000_1000;

/// Bit of the serialized expander byte driving the enable line.
pub const ENABLE: u8 = 0b0000_0100;

/// Bit of the serialized expander byte selecting a read from the chip.
pub const READ: u8 = 0b0000_0010;

/// Bit of the serialized expander byte selecting the data register.
pub const REGISTER_SELECT: u8 = 0b0000_0001;

/// The serialized expander byte carrying `nibble` in its upper half,
/// with the register-select and backlight bits folded in.
pub open spec fn i2c_nibble_byte(nibble: u8, data: bool) -> u8 {
    nibble | (if data {
        REGISTER_SELECT
    } else {
        0
    }) | BACKLIGHT
}

/// The transfer of one nibble: the byte with the enable bit raised in a
/// second position of the same transaction, a settle delay, then the byte
/// alone, dropping enable.
pub open spec fn i2c_nibble_actions(address: u8, nibble: u8, data: bool) -> Seq<BusAction> {
    seq![
        BusAction::I2cWritePair {
            address,
            first: i2c_nibble_byte(nibble, data),
            second: i2c_nibble_byte(nibble, data) | ENABLE,
        },
        BusAction::DelayUs { us: 2000 },
        BusAction::I2cWrite { address, byte: i2c_nibble_byte(nibble, data) },
    ]
}

/// The full transmission of one byte over the I2C expander: the upper
/// nibble, then the lower nibble shifted into the upper half.
pub open spec fn i2c_write_actions(address: u8, byte: u8, data: bool) -> Seq<BusAction> {
    i2c_nibble_actions(address, byte & 0xf0, data) + i2c_nibble_actions(address, (byte & 0x0f) << 4, data)
}

/// The expander byte that releases the data lines for one nibble read.
pub open spec fn i2c_read_control_byte(data: bool) -> u8 {
    0xf0 | READ | BACKLIGHT | (if data {
        REGISTER_SELECT
    } else {
        0
    })
}

/// The read of one nibble: raise enable, settle, then read the expander
/// while dropping enable again.
pub open spec fn i2c_nibble_read_actions(address: u8, data: bool) -> Seq<BusAction> {
    seq![
        BusAction::I2cWritePair {
            address,
            first: i2c_read_control_byte(data),
            second: i2c_read_control_byte(data) | ENABLE,
        },
        BusAction::DelayUs { us: 2000 },
        BusAction::I2cReadWrite { address, byte: i2c_read_control_byte(data) },
    ]
}

/// The full read of one byte over the I2C expander: two nibble reads,
/// upper nibble first.
pub open spec fn i2c_read_actions(address: u8, data: bool) -> Seq<BusAction> {
    i2c_nibble_read_actions(address, data) + i2c_nibble_read_actions(address, data)
}

/// The byte encoded by the two samples of an expander read: the upper
/// nibble of the first sample and the upper nibble of the second, the
/// latter shifted down.
pub open spec fn i2c_decode(samples: Seq<u8>) -> u8 {
    (samples[0] & 0xf0) | (samples[1] >> 4)
}

impl<I2C> I2CBus<I2C> {
    /// Bind the expander at `address` on the given I2C peripheral.
    pub fn new(i2c_bus: I2C, address: u8) -> (r: I2CBus<I2C>)
        ensures
            r == (I2CBus { i2c_bus, address }),
    {
        I2CBus { i2c_bus, address }
    }

    /// Release the I2C peripheral back to the caller.
    pub fn destroy(self) -> (r: I2C)
        ensures
            r == self.i2c_bus,
    {
        self.i2c_bus
    }

    /// Queue a nibble transfer to the lcd.
    /// The nibble should be in the upper part of the byte.
    fn write_nibble(&mut self, nibble: u8, data: bool, queue: &mut Vec<BusAction>)
        ensures
            *final(self) == *old(self),
            final(queue)@ == old(queue)@ + i2c_nibble_actions(old(self).address, nibble, data),
    {
        let rs: u8 = match data {
            false => 0,
            true => REGISTER_SELECT,
        };
        let byte: u8 = nibble | rs | BACKLIGHT;

        queue.push(BusAction::I2cWritePair { address: self.address, first: byte, second: byte | ENABLE });
        queue.push(BusAction::DelayUs { us: 2000 });
        queue.push(BusAction::I2cWrite { address: self.address, byte });
    }

    /// Queue a nibble read from the lcd.
    /// The nibble will be in the upper part of the sampled byte.
    fn read_nibble(&mut self, data: bool, queue: &mut Vec<BusAction>)
        ensures
            *final(self) == *old(self),
            final(queue)@ == old(queue)@ + i2c_nibble_read_actions(old(self).address, data),
    {
        let rs: u8 = match data {
            false => 0,
            true => REGISTER_SELECT,
        };
        let byte: u8 = 0xf0 | READ | BACKLIGHT | rs;

        queue.push(BusAction::I2cWritePair { address: self.address, first: byte, second: byte | ENABLE });
        queue.push(BusAction::DelayUs { us: 2000 });
        queue.push(BusAction::I2cReadWrite { address: self.address, byte });
    }
}

impl<I2C> WritableDataBus for I2CBus<I2C> {
    open spec fn spec_write(self, byte: u8, data: bool) -> Seq<BusAction> {
        i2c_write_actions(self.address, byte, data)
    }

    fn write(&mut self, byte: u8, data: bool, queue: &mut Vec<BusAction>) {
        let upper_nibble = byte & 0xf0;
        self.write_nibble(upper_nibble, data, queue);

        let lower_nibble = (byte & 0x0f) << 4;
        self.write_nibble(lower_nibble, data, queue);
    }
}

impl<I2C> ReadableDataBus for I2CBus<I2C> {
    open spec fn spec_read(self, data: bool) -> Seq<BusAction> {
        i2c_read_actions(self.address, data)
    }

    open spec fn spec_sample_count(self) -> int {
        2
    }

    open spec fn spec_decode(self, samples: Seq<u8>) -> u8 {
        i2c_decode(samples)
    }

    fn read(&mut self, data: bool, queue: &mut Vec<BusAction>) {
        self.read_nibble(data, queue);
        self.read_nibble(data, queue);
    }

    fn decode_read(&self, samples: &Vec<u8>) -> (r: u8) {
        let upper_nibble = samples[0];
        let lower_nibble = samples[1];

        (upper_nibble & 0xf0) | (lower_nibble >> 4)
    }
}

} // verus!
