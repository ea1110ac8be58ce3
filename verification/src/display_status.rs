use vstd::prelude::*;

use crate::bus::{BusAction, ReadableDataBus, WritableDataBus};
use crate::charset::CharsetWithFallback;
use crate::memory_map::DisplayMemoryMap;
use crate::HD44780;

verus! {

/// The one status word the chip exposes: whether it is still busy with
/// the previous command, and the current DDRAM or CGRAM address.
#[derive(Clone, Copy, Debug, PartialEq, Eq, Structural)]
pub struct DisplayStatus {
    pub busy: bool,
    pub address: u8,
}

impl DisplayStatus {
    /// The status encoded in one status byte: bit seven is the busy
    /// flag, the lower seven bits the address.
    pub open spec fn spec_from_byte(status_byte: u8) -> DisplayStatus {
        DisplayStatus { busy: (status_byte & 0x80) > 0, address: status_byte & 0x7f }
    }
}

impl From<u8> for DisplayStatus {
    fn from(status_byte: u8) -> (r: Self) {
        DisplayStatus { busy: status_byte & 0x80 > 0, address: status_byte & 0x7f }
    }
}

impl vstd::std_specs::convert::FromSpecImpl<u8> for DisplayStatus {
    open spec fn obeys_from_spec() -> bool {
        true
    }

    open spec fn from_spec(status_byte: u8) -> DisplayStatus {
        DisplayStatus::spec_from_byte(status_byte)
    }
}

impl<B: WritableDataBus + ReadableDataBus, M: DisplayMemoryMap, C: CharsetWithFallback> HD44780<B, M, C> {
    /// Queue the operations of one status read; the platform layer
    /// performs them and hands the collected samples to
    /// [`HD44780::status_from_samples`].
    pub fn read_status(&mut self, queue: &mut Vec<BusAction>)
        ensures
            *final(self) == *old(self),
            final(queue)@ == old(queue)@ + old(self).bus.spec_read(false),
    {
        self.bus.read(false, queue);
    }

    /// The status encoded by the samples of one status read.
    pub fn status_from_samples(&self, samples: &Vec<u8>) -> (r: DisplayStatus)
        requires
            samples@.len() == self.bus.spec_sample_count(),
        ensures
            r == DisplayStatus::spec_from_byte(self.bus.spec_decode(samples@)),
    {
        let status_byte = self.bus.decode_read(samples);

        DisplayStatus::from(status_byte)
    }
}

} // verus!
