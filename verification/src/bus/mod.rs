use vstd::prelude::*;

use crate::error::Port;

pub mod eightbit;
pub mod fourbit;
pub mod i2c;
pub mod i2c_mcp23008;

pub use self::eightbit::{EightBitBus, EightBitBusPins};
pub use self::fourbit::{FourBitBus, FourBitBusPins};
pub use self::i2c::I2CBus;
pub use self::i2c_mcp23008::I2CMCP23008Bus;

verus! {

/// One bus-level operation of the driver, as the platform layer must
/// perform it, in order, against the wiring.
#[derive(Clone, Copy, Debug, PartialEq, Eq, Structural)]
pub enum BusAction {
    /// Drive the named digital line to the given level.
    SetLine { line: Port, high: bool },
    /// Sample the named digital line; the level read is handed back to the
    /// driver as one sample byte, zero for low and nonzero for high.
    ReadLine { line: Port },
    /// One I2C transaction writing a single byte to the given address.
    I2cWrite { address: u8, byte: u8 },
    /// One I2C transaction writing two bytes to the given address.
    I2cWritePair { address: u8, first: u8, second: u8 },
    /// One I2C transaction reading one byte, then writing the given byte;
    /// the byte read is handed back to the driver as one sample byte.
    I2cReadWrite { address: u8, byte: u8 },
    /// Let the chip settle for the given number of microseconds.
    DelayUs { us: u32 },
}

/// A transport that can transmit one control or data byte to the chip.
///
/// A transport does not perform I/O itself: it appends the exact timed
/// operations the transmission consists of to an action queue, and
/// `spec_write` names that sequence.
pub trait WritableDataBus: Sized {
    /// The exact action sequence transmitting `byte`; `data` selects the
    /// data register rather than the command register.
    spec fn spec_write(self, byte: u8, data: bool) -> Seq<BusAction>;

    /// Queue the transmission of one byte.
    fn write(&mut self, byte: u8, data: bool, queue: &mut Vec<BusAction>)
        ensures
            *final(self) == *old(self),
            final(queue)@ == old(queue)@ + old(self).spec_write(byte, data),
    ;
}

/// A transport that can also read one status or data byte back.
///
/// Reading splits in two: `read` queues the operations, whose `ReadLine`
/// and `I2cReadWrite` entries each yield one sample byte when performed,
/// and `decode_read` combines the samples, in order, into the byte read.
pub trait ReadableDataBus: Sized {
    /// The exact action sequence of one read; `data` selects the data
    /// register rather than the busy-flag/address register.
    spec fn spec_read(self, data: bool) -> Seq<BusAction>;

    /// How many sample bytes one read yields.
    spec fn spec_sample_count(self) -> int;

    /// The byte encoded by the samples of one read.
    spec fn spec_decode(self, samples: Seq<u8>) -> u8;

    /// Queue the operations of one read.
    fn read(&mut self, data: bool, queue: &mut Vec<BusAction>)
        ensures
            *final(self) == *old(self),
            final(queue)@ == old(queue)@ + old(self).spec_read(data),
    ;

    /// Combine the samples the platform layer collected into the byte read.
    fn decode_read(&self, samples: &Vec<u8>) -> (r: u8)
        requires
            samples@.len() == self.spec_sample_count(),
        ensures
            r == self.spec_decode(samples@),
    ;
}

/// Supertrait of [`WriteSelect`]; implement both for a pin type wired
/// to the chip's read/write line.
pub trait SealedWriteSelect: Sized {

}

/// Supertrait of [`ReadSelect`]; implement both for a pin type wired
/// to the chip's read/write line.
pub trait SealedReadSelect: Sized {

}

/// Marks a value fit for the read/write-select slot of a bus used for
/// transmissions towards the chip.
pub trait WriteSelect: SealedWriteSelect {

}

/// Marks a value fit for the read/write-select slot of a bus that is
/// also read back from; [`WriteOnlyMode`] deliberately lacks this, so a
/// bus without a read/write pin rejects read attempts at compile time.
pub trait ReadSelect: SealedReadSelect {

}

/// This can be used instead of a pin for RW in four and eight bit bus
/// configurations to specify that the RW pin of the LCD has been pulled
/// low permanently, leaving the bus write-only.
#[derive(Clone, Copy, Debug, PartialEq, Eq, Structural)]
pub struct WriteOnlyMode;

impl SealedWriteSelect for WriteOnlyMode {

}

impl WriteSelect for WriteOnlyMode {

}

/// The enable-line pulse that makes the chip latch the levels on the data
/// lines: enable high, a settle delay, enable low.
pub open spec fn enable_pulse_actions() -> Seq<BusAction> {
    seq![
        BusAction::SetLine { line: Port::EN, high: true },
        BusAction::DelayUs { us: 2000 },
        BusAction::SetLine { line: Port::EN, high: false },
    ]
}

pub(crate) fn push_enable_pulse(queue: &mut Vec<BusAction>)
    ensures
        final(queue)@ == old(queue)@ + enable_pulse_actions(),
{
    queue.push(BusAction::SetLine { line: Port::EN, high: true });
    queue.push(BusAction::DelayUs { us: 2000 });
    queue.push(BusAction::SetLine { line: Port::EN, high: false });
}

} // verus!
