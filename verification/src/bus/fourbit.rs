use vstd::prelude::*;

use crate::bus::{
    enable_pulse_actions, push_enable_pulse, BusAction, ReadSelect, ReadableDataBus, WritableDataBus, WriteSelect,
};
use crate::error::Port;

verus! {

/// The wiring of a four-bit bus: register select, read/write select,
/// enable, and the upper four data lines.
#[derive(Clone, Copy, Debug)]
pub struct FourBitBusPins<RS, RW, EN, D4, D5, D6, D7> {
    pub rs: RS,
    pub rw: RW,
    pub en: EN,
    pub d4: D4,
    pub d5: D5,
    pub d6: D6,
    pub d7: D7,
}

/// A bus that transmits each byte as two nibbles over four data lines,
/// with one enable pulse per nibble.
#[derive(Clone, Copy, Debug)]
pub struct FourBitBus<RS, RW, EN, D4, D5, D6, D7> {
    pub pins: FourBitBusPins<RS, RW, EN, D4, D5, D6, D7>,
}

/// Levels for the four data lines holding the upper nibble of `data`.
pub open spec fn upper_nibble_actions(data: u8) -> Seq<BusAction> {
    seq![
        BusAction::SetLine { line: Port::D4, high: (0x10 & data) != 0 },
        BusAction::SetLine { line: Port::D5, high: (0x20 & data) != 0 },
        BusAction::SetLine { line: Port::D6, high: (0x40 & data) != 0 },
        BusAction::SetLine { line: Port::D7, high: (0x80 & data) != 0 },
    ]
}

/// Levels for the four data lines holding the lower nibble of `data`.
pub open spec fn lower_nibble_actions(data: u8) -> Seq<BusAction> {
    seq![
        BusAction::SetLine { line: Port::D4, high: (0x01 & data) != 0 },
        BusAction::SetLine { line: Port::D5, high: (0x02 & data) != 0 },
        BusAction::SetLine { line: Port::D6, high: (0x04 & data) != 0 },
        BusAction::SetLine { line: Port::D7, high: (0x08 & data) != 0 },
    ]
}

/// The four samples of one nibble read, upper data line last.
pub open spec fn nibble_read_actions() -> Seq<BusAction> {
    seq![
        BusAction::ReadLine { line: Port::D4 },
        BusAction::ReadLine { line: Port::D5 },
        BusAction::ReadLine { line: Port::D6 },
        BusAction::ReadLine { line: Port::D7 },
    ]
}

/// The full transmission of one byte over a four-bit bus: register select,
/// upper nibble with its enable pulse, a settle delay, then the lower
/// nibble with its enable pulse; a data transmission releases the register
/// select line afterwards.
pub open spec fn four_bit_write_actions(byte: u8, data: bool) -> Seq<BusAction> {
    seq![BusAction::SetLine { line: Port::RS, high: data }] + upper_nibble_actions(byte) + enable_pulse_actions()
        + lower_nibble_actions(byte) + seq![BusAction::DelayUs { us: 20 }] + enable_pulse_actions() + (if data {
        seq![BusAction::SetLine { line: Port::RS, high: false }]
    } else {
        Seq::empty()
    })
}

/// The full read of one byte over a four-bit bus: the data lines are
/// released high, the read/write line selects reading, and each nibble is
/// sampled under its own enable pulse, upper nibble first.
pub open spec fn four_bit_read_actions(data: bool) -> Seq<BusAction> {
    seq![BusAction::SetLine { line: Port::RS, high: data }] + lower_nibble_actions(0x0f)
        + seq![
        BusAction::SetLine { line: Port::RW, high: true },
        BusAction::SetLine { line: Port::EN, high: true },
        BusAction::DelayUs { us: 2000 },
    ] + nibble_read_actions()
        + seq![
        BusAction::SetLine { line: Port::EN, high: false },
        BusAction::DelayUs { us: 20 },
        BusAction::SetLine { line: Port::EN, high: true },
        BusAction::DelayUs { us: 2000 },
    ] + nibble_read_actions()
        + seq![
        BusAction::SetLine { line: Port::EN, high: false },
        BusAction::SetLine { line: Port::RW, high: false },
    ]
}

/// The byte encoded by the eight samples of a four-bit read: the first
/// four samples are the upper nibble, the last four the lower, each
/// ordered from the lowest data line up.
pub open spec fn four_bit_decode(samples: Seq<u8>) -> u8 {
    ((if samples[0] != 0 {
        0x10int
    } else {
        0int
    }) + (if samples[1] != 0 {
        0x20int
    } else {
        0int
    }) + (if samples[2] != 0 {
        0x40int
    } else {
        0int
    }) + (if samples[3] != 0 {
        0x80int
    } else {
        0int
    }) + (if samples[4] != 0 {
        0x01int
    } else {
        0int
    }) + (if samples[5] != 0 {
        0x02int
    } else {
        0int
    }) + (if samples[6] != 0 {
        0x04int
    } else {
        0int
    }) + (if samples[7] != 0 {
        0x08int
    } else {
        0int
    })) as u8
}

impl<RS, RW, EN, D4, D5, D6, D7> FourBitBus<RS, RW, EN, D4, D5, D6, D7> {
    /// Take ownership of the pins of the wiring.
    pub fn from_pins(pins: FourBitBusPins<RS, RW, EN, D4, D5, D6, D7>) -> (r: FourBitBus<RS, RW, EN, D4, D5, D6, D7>)
        ensures
            r == (FourBitBus { pins }),
    {
        FourBitBus { pins }
    }

    /// Release the pins of the wiring back to the caller.
    pub fn destroy(self) -> (r: FourBitBusPins<RS, RW, EN, D4, D5, D6, D7>)
        ensures
            r == self.pins,
    {
        self.pins
    }

    fn write_lower_nibble(&mut self, data: u8, queue: &mut Vec<BusAction>)
        ensures
            *final(self) == *old(self),
            final(queue)@ == old(queue)@ + lower_nibble_actions(data),
    {
        let db0: bool = (0x01 & data) != 0;
        let db1: bool = (0x02 & data) != 0;
        let db2: bool = (0x04 & data) != 0;
        let db3: bool = (0x08 & data) != 0;

        queue.push(BusAction::SetLine { line: Port::D4, high: db0 });
        queue.push(BusAction::SetLine { line: Port::D5, high: db1 });
        queue.push(BusAction::SetLine { line: Port::D6, high: db2 });
        queue.push(BusAction::SetLine { line: Port::D7, high: db3 });
    }

    fn write_upper_nibble(&mut self, data: u8, queue: &mut Vec<BusAction>)
        ensures
            *final(self) == *old(self),
            final(queue)@ == old(queue)@ + upper_nibble_actions(data),
    {
        let db4: bool = (0x10 & data) != 0;
        let db5: bool = (0x20 & data) != 0;
        let db6: bool = (0x40 & data) != 0;
        let db7: bool = (0x80 & data) != 0;

        queue.push(BusAction::SetLine { line: Port::D4, high: db4 });
        queue.push(BusAction::SetLine { line: Port::D5, high: db5 });
        queue.push(BusAction::SetLine { line: Port::D6, high: db6 });
        queue.push(BusAction::SetLine { line: Port::D7, high: db7 });
    }

    fn read_nibble(&mut self, queue: &mut Vec<BusAction>)
        ensures
            *final(self) == *old(self),
            final(queue)@ == old(queue)@ + nibble_read_actions(),
    {
        queue.push(BusAction::ReadLine { line: Port::D4 });
        queue.push(BusAction::ReadLine { line: Port::D5 });
        queue.push(BusAction::ReadLine { line: Port::D6 });
        queue.push(BusAction::ReadLine { line: Port::D7 });
    }
}

impl<RS, RW: WriteSelect, EN, D4, D5, D6, D7> WritableDataBus for FourBitBus<RS, RW, EN, D4, D5, D6, D7> {
    open spec fn spec_write(self, byte: u8, data: bool) -> Seq<BusAction> {
        four_bit_write_actions(byte, data)
    }

    fn write(&mut self, byte: u8, data: bool, queue: &mut Vec<BusAction>) {
        queue.push(BusAction::SetLine { line: Port::RS, high: data });

        self.write_upper_nibble(byte, queue);

        // Pulse the enable pin to receive the upper nibble
        push_enable_pulse(queue);

        self.write_lower_nibble(byte, queue);
        queue.push(BusAction::DelayUs { us: 20 });

        // Pulse the enable pin to receive the lower nibble
        push_enable_pulse(queue);

        if data {
            queue.push(BusAction::SetLine { line: Port::RS, high: false });
        }
    }
}

impl<RS, RW: WriteSelect + ReadSelect, EN, D4, D5, D6, D7> ReadableDataBus for FourBitBus<RS, RW, EN, D4, D5, D6, D7> {
    open spec fn spec_read(self, data: bool) -> Seq<BusAction> {
        four_bit_read_actions(data)
    }

    open spec fn spec_sample_count(self) -> int {
        8
    }

    open spec fn spec_decode(self, samples: Seq<u8>) -> u8 {
        four_bit_decode(samples)
    }

    fn read(&mut self, data: bool, queue: &mut Vec<BusAction>) {
        queue.push(BusAction::SetLine { line: Port::RS, high: data });

        self.write_lower_nibble(0x0f, queue);
        queue.push(BusAction::SetLine { line: Port::RW, high: true });

        // Pulse the enable pin to send the upper nibble
        queue.push(BusAction::SetLine { line: Port::EN, high: true });
        queue.push(BusAction::DelayUs { us: 2000 });
        self.read_nibble(queue);
        queue.push(BusAction::SetLine { line: Port::EN, high: false });

        queue.push(BusAction::DelayUs { us: 20 });

        // Pulse the enable pin to send the lower nibble
        queue.push(BusAction::SetLine { line: Port::EN, high: true });
        queue.push(BusAction::DelayUs { us: 2000 });
        self.read_nibble(queue);
        queue.push(BusAction::SetLine { line: Port::EN, high: false });

        queue.push(BusAction::SetLine { line: Port::RW, high: false });
    }

    fn decode_read(&self, samples: &Vec<u8>) -> (r: u8) {
        let mut bits: u8 = 0;
        if samples[0] != 0 {
            bits += 0x10;
        }
        if samples[1] != 0 {
            bits += 0x20;
        }
        if samples[2] != 0 {
            bits += 0x40;
        }
        if samples[3] != 0 {
            bits += 0x80;
        }
        if samples[4] != 0 {
            bits += 0x01;
        }
        if samples[5] != 0 {
            bits += 0x02;
        }
        if samples[6] != 0 {
            bits += 0x04;
        }
        if samples[7] != 0 {
            bits += 0x08;
        }
        bits
    }
}

} // verus!
