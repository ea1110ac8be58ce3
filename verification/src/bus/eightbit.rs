use vstd::prelude::*;

use crate::bus::{
    enable_pulse_actions, push_enable_pulse, BusAction, ReadSelect, ReadableDataBus, WritableDataBus, WriteSelect,
};
use crate::error::Port;

verus! {

/// The wiring of an eight-bit bus: register select, read/write select,
/// enable, and all eight data lines.
#[derive(Clone, Copy, Debug)]
pub struct EightBitBusPins<RS, RW, EN, D0, D1, D2, D3, D4, D5, D6, D7> {
    pub rs: RS,
    pub rw: RW,
    pub en: EN,
    pub d0: D0,
    pub d1: D1,
    pub d2: D2,
    pub d3: D3,
    pub d4: D4,
    pub d5: D5,
    pub d6: D6,
    pub d7: D7,
}

/// A bus that presents each byte on eight discrete data lines and latches
/// it with a single enable pulse.
#[derive(Clone, Copy, Debug)]
pub struct EightBitBus<RS, RW, EN, D0, D1, D2, D3, D4, D5, D6, D7> {
    pub pins: EightBitBusPins<RS, RW, EN, D0, D1, D2, D3, D4, D5, D6, D7>,
}

/// Levels for the eight data lines holding `data`, lowest bit first.
pub open spec fn bus_bits_actions(data: u8) -> Seq<BusAction> {
    seq![
        BusAction::SetLine { line: Port::D0, high: (0x01 & data) != 0 },
        BusAction::SetLine { line: Port::D1, high: (0x02 & data) != 0 },
        BusAction::SetLine { line: Port::D2, high: (0x04 & data) != 0 },
        BusAction::SetLine { line: Port::D3, high: (0x08 & data) != 0 },
        BusAction::SetLine { line: Port::D4, high: (0x10 & data) != 0 },
        BusAction::SetLine { line: Port::D5, high: (0x20 & data) != 0 },
        BusAction::SetLine { line: Port::D6, high: (0x40 & data) != 0 },
        BusAction::SetLine { line: Port::D7, high: (0x80 & data) != 0 },
    ]
}

/// The eight samples of one full-byte read, lowest data line first.
pub open spec fn bus_bits_read_actions() -> Seq<BusAction> {
    seq![
        BusAction::ReadLine { line: Port::D0 },
        BusAction::ReadLine { line: Port::D1 },
        BusAction::ReadLine { line: Port::D2 },
        BusAction::ReadLine { line: Port::D3 },
        BusAction::ReadLine { line: Port::D4 },
        BusAction::ReadLine { line: Port::D5 },
        BusAction::ReadLine { line: Port::D6 },
        BusAction::ReadLine { line: Port::D7 },
    ]
}

/// The full transmission of one byte over an eight-bit bus: register
/// select, the byte on the data lines, one enable pulse.
pub open spec fn eight_bit_write_actions(byte: u8, data: bool) -> Seq<BusAction> {
    seq![BusAction::SetLine { line: Port::RS, high: data }] + bus_bits_actions(byte) + enable_pulse_actions()
}

/// The full read of one byte over an eight-bit bus: the data lines are
/// released high, the read/write line selects reading, and the byte is
/// sampled under one enable pulse.
pub open spec fn eight_bit_read_actions(data: bool) -> Seq<BusAction> {
    seq![BusAction::SetLine { line: Port::RS, high: data }] + bus_bits_actions(0xff)
        + seq![
        BusAction::SetLine { line: Port::RW, high: true },
        BusAction::SetLine { line: Port::EN, high: true },
        BusAction::DelayUs { us: 2000 },
    ] + bus_bits_read_actions()
        + seq![
        BusAction::SetLine { line: Port::EN, high: false },
        BusAction::SetLine { line: Port::RW, high: false },
    ]
}

/// The byte encoded by the eight samples of an eight-bit read, lowest
/// data line first.
pub open spec fn eight_bit_decode(samples: Seq<u8>) -> u8 {
    ((if samples[0] != 0 {
        0x01int
    } else {
        0int
    }) + (if samples[1] != 0 {
        0x02int
    } else {
        0int
    }) + (if samples[2] != 0 {
        0x04int
    } else {
        0int
    }) + (if samples[3] != 0 {
        0x08int
    } else {
        0int
    }) + (if samples[4] != 0 {
        0x10int
    } else {
        0int
    }) + (if samples[5] != 0 {
        0x20int
    } else {
        0int
    }) + (if samples[6] != 0 {
        0x40int
    } else {
        0int
    }) + (if samples[7] != 0 {
        0x80int
    } else {
        0int
    })) as u8
}

impl<RS, RW, EN, D0, D1, D2, D3, D4, D5, D6, D7> EightBitBus<RS, RW, EN, D0, D1, D2, D3, D4, D5, D6, D7> {
    /// Take ownership of the pins of the wiring.
    pub fn from_pins(pins: EightBitBusPins<RS, RW, EN, D0, D1, D2, D3, D4, D5, D6, D7>) -> (r: EightBitBus<
        RS,
        RW,
        EN,
        D0,
        D1,
        D2,
        D3,
        D4,
        D5,
        D6,
        D7,
    >)
        ensures
            r == (EightBitBus { pins }),
    {
        EightBitBus { pins }
    }

    /// Release the pins of the wiring back to the caller.
    pub fn destroy(self) -> (r: EightBitBusPins<RS, RW, EN, D0, D1, D2, D3, D4, D5, D6, D7>)
        ensures
            r == self.pins,
    {
        self.pins
    }

    fn set_bus_bits(&mut self, data: u8, queue: &mut Vec<BusAction>)
        ensures
            *final(self) == *old(self),
            final(queue)@ == old(queue)@ + bus_bits_actions(data),
    {
        let db0: bool = (0x01 & data) != 0;
        let db1: bool = (0x02 & data) != 0;
        let db2: bool = (0x04 & data) != 0;
        let db3: bool = (0x08 & data) != 0;
        let db4: bool = (0x10 & data) != 0;
        let db5: bool = (0x20 & data) != 0;
        let db6: bool = (0x40 & data) != 0;
        let db7: bool = (0x80 & data) != 0;

        queue.push(BusAction::SetLine { line: Port::D0, high: db0 });
        queue.push(BusAction::SetLine { line: Port::D1, high: db1 });
        queue.push(BusAction::SetLine { line: Port::D2, high: db2 });
        queue.push(BusAction::SetLine { line: Port::D3, high: db3 });
        queue.push(BusAction::SetLine { line: Port::D4, high: db4 });
        queue.push(BusAction::SetLine { line: Port::D5, high: db5 });
        queue.push(BusAction::SetLine { line: Port::D6, high: db6 });
        queue.push(BusAction::SetLine { line: Port::D7, high: db7 });
    }

    fn get_bus_bits(&mut self, queue: &mut Vec<BusAction>)
        ensures
            *final(self) == *old(self),
            final(queue)@ == old(queue)@ + bus_bits_read_actions(),
    {
        queue.push(BusAction::ReadLine { line: Port::D0 });
        queue.push(BusAction::ReadLine { line: Port::D1 });
        queue.push(BusAction::ReadLine { line: Port::D2 });
        queue.push(BusAction::ReadLine { line: Port::D3 });
        queue.push(BusAction::ReadLine { line: Port::D4 });
        queue.push(BusAction::ReadLine { line: Port::D5 });
        queue.push(BusAction::ReadLine { line: Port::D6 });
        queue.push(BusAction::ReadLine { line: Port::D7 });
    }
}

impl<RS, RW: WriteSelect, EN, D0, D1, D2, D3, D4, D5, D6, D7> WritableDataBus for EightBitBus<
    RS,
    RW,
    EN,
    D0,
    D1,
    D2,
    D3,
    D4,
    D5,
    D6,
    D7,
> {
    open spec fn spec_write(self, byte: u8, data: bool) -> Seq<BusAction> {
        eight_bit_write_actions(byte, data)
    }

    fn write(&mut self, byte: u8, data: bool, queue: &mut Vec<BusAction>) {
        queue.push(BusAction::SetLine { line: Port::RS, high: data });

        self.set_bus_bits(byte, queue);

        push_enable_pulse(queue);
    }
}

impl<RS, RW: WriteSelect + ReadSelect, EN, D0, D1, D2, D3, D4, D5, D6, D7> ReadableDataBus for EightBitBus<
    RS,
    RW,
    EN,
    D0,
    D1,
    D2,
    D3,
    D4,
    D5,
    D6,
    D7,
> {
    open spec fn spec_read(self, data: bool) -> Seq<BusAction> {
        eight_bit_read_actions(data)
    }

    open spec fn spec_sample_count(self) -> int {
        8
    }

    open spec fn spec_decode(self, samples: Seq<u8>) -> u8 {
        eight_bit_decode(samples)
    }

    fn read(&mut self, data: bool, queue: &mut Vec<BusAction>) {
        queue.push(BusAction::SetLine { line: Port::RS, high: data });

        self.set_bus_bits(0xff, queue);
        queue.push(BusAction::SetLine { line: Port::RW, high: true });

        queue.push(BusAction::SetLine { line: Port::EN, high: true });
        queue.push(BusAction::DelayUs { us: 2000 });
        self.get_bus_bits(queue);
        queue.push(BusAction::SetLine { line: Port::EN, high: false });

        queue.push(BusAction::SetLine { line: Port::RW, high: false });
    }

    fn decode_read(&self, samples: &Vec<u8>) -> (r: u8) {
        let mut bits: u8 = 0;
        if samples[0] != 0 {
            bits += 0x01;
        }
        if samples[1] != 0 {
            bits += 0x02;
        }
        if samples[2] != 0 {
            bits += 0x04;
        }
        if samples[3] != 0 {
            bits += 0x08;
        }
        if samples[4] != 0 {
            bits += 0x10;
        }
        if samples[5] != 0 {
            bits += 0x20;
        }
        if samples[6] != 0 {
            bits += 0x40;
        }
        if samples[7] != 0 {
            bits += 0x80;
        }
        bits
    }
}

} // verus!
