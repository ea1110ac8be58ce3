use vstd::prelude::*;

use crate::bus::{BusAction, WritableDataBus};

verus! {

/// A bus speaking the four-bit protocol through an I2C backpack built
/// around an MCP23008 port expander, like the one from adafruit.
/// Expander pin one drives register select, pin two enable, pins three to
/// six the data lines, and pin seven the backlight; the read/write line
/// is tied to ground.
pub struct I2CMCP23008Bus<I2C> {
    /// The I2C peripheral the expander hangs off; opaque to the driver.
    pub i2c_bus: I2C,
    /// The bus address of the expander, `0b010_0xxx` with `x` set by
    /// bootstrap pins.
    pub address: u8,
    /// The backlight bit OR'd into every pin image written.
    pub backlight: u8,
}

/// The expander register selecting pin directions.
pub const REG_IODIR: u8 = 0x00;

/// The expander register holding the pin levels.
pub const REG_GPIO: u8 = 0x09;

/// One register write to the expander: register number, then the value.
pub open spec fn mcp_reg_actions(address: u8, reg: u8, value: u8) -> Seq<BusAction> {
    seq![BusAction::I2cWritePair { address, first: reg, second: value }]
}

/// The power-on configuration of the expander: every register to its
/// reset value, then pins one to seven turned into outputs.
pub open spec fn mcp_setup_actions(address: u8) -> Seq<BusAction> {
    mcp_reg_actions(address, REG_IODIR, 0xff) + Seq::new(9, |i: int| BusAction::I2cWritePair {
        address,
        first: (i + 1) as u8,
        second: 0,
    }) + mcp_reg_actions(address, REG_IODIR, 0x01)
}

/// The enable bit within the expander pin image.
pub open spec fn mcp_enable_bit() -> u8 {
    0b0000_0100
}

/// The pin image carrying the register-select and backlight bits alone.
pub open spec fn mcp_rs_byte(backlight: u8, data: bool) -> u8 {
    backlight | (if data {
        0b10u8
    } else {
        0b00u8
    })
}

/// The pin image presenting the upper nibble of `byte` on the data pins.
pub open spec fn mcp_upper_byte(backlight: u8, byte: u8, data: bool) -> u8 {
    mcp_rs_byte(backlight, data) | ((byte & 0xf0) >> 1)
}

/// The pin image presenting the lower nibble of `byte` on the data pins.
pub open spec fn mcp_lower_byte(backlight: u8, byte: u8, data: bool) -> u8 {
    mcp_rs_byte(backlight, data) | ((byte & 0x0f) << 3)
}

/// The full transmission of one byte through the expander: register
/// select settles first, then each nibble is latched by raising and
/// dropping the enable pin, and the pins are released afterwards.
pub open spec fn mcp_write_actions(address: u8, backlight: u8, byte: u8, data: bool) -> Seq<BusAction> {
    let rs = mcp_rs_byte(backlight, data);
    let upper = mcp_upper_byte(backlight, byte, data);
    let lower = mcp_lower_byte(backlight, byte, data);
    mcp_reg_actions(address, REG_GPIO, rs) + seq![BusAction::DelayUs { us: 1 }] + mcp_reg_actions(
        address,
        REG_GPIO,
        mcp_enable_bit() | upper,
    ) + seq![BusAction::DelayUs { us: 1 }] + mcp_reg_actions(address, REG_GPIO, upper) + seq![
        BusAction::DelayUs { us: 1 },
    ] + mcp_reg_actions(address, REG_GPIO, mcp_enable_bit() | lower) + seq![BusAction::DelayUs { us: 1 }]
        + mcp_reg_actions(address, REG_GPIO, lower) + seq![BusAction::DelayUs { us: 1 }] + mcp_reg_actions(
        address,
        REG_GPIO,
        backlight,
    )
}

impl<I2C> I2CMCP23008Bus<I2C> {
    /// Bind the expander at `address` and queue its power-on
    /// configuration.
    pub fn new(i2c_bus: I2C, address: u8, backlight: bool, queue: &mut Vec<BusAction>) -> (r: I2CMCP23008Bus<I2C>)
        ensures
            r.i2c_bus == i2c_bus,
            r.address == address,
            r.backlight == (if backlight {
                0b1000_0000u8
            } else {
                0u8
            }),
            final(queue)@ == old(queue)@ + mcp_setup_actions(address),
    {
        let backlight_bits: u8 = if backlight {
            0b1000_0000
        } else {
            0
        };
        // Set to reset values according to datasheet
        queue.push(BusAction::I2cWritePair { address, first: REG_IODIR, second: 0xff });
        let mut reg: u8 = 0x01;
        while reg < 0x0a
            invariant
                1 <= reg <= 0x0a,
                queue@ == old(queue)@ + mcp_reg_actions(address, REG_IODIR, 0xff) + Seq::new(
                    (reg - 1) as nat,
                    |i: int| BusAction::I2cWritePair { address, first: (i + 1) as u8, second: 0 },
                ),
            decreases 0x0a - reg,
        {
            queue.push(BusAction::I2cWritePair { address, first: reg, second: 0 });
            reg += 1;
            proof {
                assert(queue@ =~= old(queue)@ + mcp_reg_actions(address, REG_IODIR, 0xff) + Seq::new(
                    (reg - 1) as nat,
                    |i: int| BusAction::I2cWritePair { address, first: (i + 1) as u8, second: 0 },
                ));
            }
        }
        // Configure pins 1..=7 as outputs, see the pin mapping above
        queue.push(BusAction::I2cWritePair { address, first: REG_IODIR, second: 0x01 });
        proof {
            assert(queue@ =~= old(queue)@ + mcp_setup_actions(address));
        }
        I2CMCP23008Bus { i2c_bus, address, backlight: backlight_bits }
    }

    /// Turns the backlight on or off based on the value of `backlight`.
    pub fn set_backlight(&mut self, backlight: bool, queue: &mut Vec<BusAction>)
        ensures
            final(self).i2c_bus == old(self).i2c_bus,
            final(self).address == old(self).address,
            final(self).backlight == (if backlight {
                0b1000_0000u8
            } else {
                0u8
            }),
            final(queue)@ == old(queue)@ + mcp_reg_actions(old(self).address, REG_GPIO, final(self).backlight),
    {
        self.backlight = if backlight {
            0b1000_0000
        } else {
            0
        };
        let pins = self.backlight;
        self.set_pins(pins, queue);
    }

    fn write_reg(&mut self, reg: u8, value: u8, queue: &mut Vec<BusAction>)
        ensures
            *final(self) == *old(self),
            final(queue)@ == old(queue)@ + mcp_reg_actions(old(self).address, reg, value),
    {
        queue.push(BusAction::I2cWritePair { address: self.address, first: reg, second: value });
    }

    fn set_pins(&mut self, pins: u8, queue: &mut Vec<BusAction>)
        ensures
            *final(self) == *old(self),
            final(queue)@ == old(queue)@ + mcp_reg_actions(old(self).address, REG_GPIO, pins),
    {
        self.write_reg(REG_GPIO, pins, queue);
    }
}

impl<I2C> WritableDataBus for I2CMCP23008Bus<I2C> {
    open spec fn spec_write(self, byte: u8, data: bool) -> Seq<BusAction> {
        mcp_write_actions(self.address, self.backlight, byte, data)
    }

    fn write(&mut self, byte: u8, data: bool, queue: &mut Vec<BusAction>) {
        let en: u8 = 0b0000_0100;
        let backlight = self.backlight;

        let rs: u8 = backlight | (if data {
            0b10
        } else {
            0b00
        });
        let upper_nibble: u8 = rs | ((byte & 0xf0) >> 1);
        let lower_nibble: u8 = rs | ((byte & 0x0f) << 3);

        // RS and R/W need to be set 40ns before E goes high.
        // R/W is tied to GND, so only do RS.
        self.set_pins(rs, queue);
        queue.push(BusAction::DelayUs { us: 1 });

        // E can go high at the same time as changing the data pins.
        self.set_pins(en | upper_nibble, queue);
        queue.push(BusAction::DelayUs { us: 1 });  // E needs to be high for at least 230ns.

        // E is falling edge triggered and the data bits have to be valid
        // for 80ns before and 10ns after.
        self.set_pins(upper_nibble, queue);
        queue.push(BusAction::DelayUs { us: 1 });  // E's total cycle time needs to be 500ns.

        // Same as above for the lower nibble.
        self.set_pins(en | lower_nibble, queue);
        queue.push(BusAction::DelayUs { us: 1 });
        self.set_pins(lower_nibble, queue);
        queue.push(BusAction::DelayUs { us: 1 });  // Caller will wait for command processing.

        // Reset all pins other than the backlight for next time.
        self.set_pins(backlight, queue);
    }
}

} // verus!
