use vstd::prelude::*;

use crate::bus::{BusAction, WritableDataBus};
use crate::charset::CharsetWithFallback;
use crate::error::Error;
use crate::memory_map::DisplayMemoryMap;
use crate::{lemma_write_bytes_actions_snoc, HD44780};

verus! {

/// A custom glyph for the controller's character generator: an eight-row
/// pixel pattern five bits wide, two spare rows, and one row shown under
/// the cursor; used only during upload, not retained.
pub struct CharacterDefinition {
    pub pattern: [u8; 10],
    pub cursor: u8,
}

impl CharacterDefinition {
    /// The eleven data bytes the upload transmits: the pattern rows,
    /// then the cursor row.
    pub open spec fn spec_rows(self) -> Seq<u8> {
        self.pattern@ + seq![self.cursor]
    }
}

impl<B: WritableDataBus, M: DisplayMemoryMap, C: CharsetWithFallback> HD44780<B, M, C> {
    /// The actions of one glyph upload: switch addressing to the CGRAM
    /// slot of `code`, transmit the rows, then restore DDRAM addressing
    /// at position zero.
    pub open spec fn spec_define_character_actions(self, code: u8, def: CharacterDefinition) -> Seq<BusAction> {
        self.spec_command_actions((0x40 | ((code & 0x03) << 4)) as u8) + seq![BusAction::DelayUs { us: 100 }]
            + self.spec_write_bytes_actions(def.spec_rows()) + self.spec_command_actions(0x80)
    }

    /// Upload a custom glyph into character generator slot `code`
    /// (zero to three), then restore DDRAM addressing.
    pub fn define_custom_character<E>(
        &mut self,
        code: u8,
        def: &CharacterDefinition,
        queue: &mut Vec<BusAction>,
    ) -> (r: Result<(), Error<E>>)
        ensures
            r is Ok,
            *final(self) == *old(self),
            final(queue)@ == old(queue)@ + old(self).spec_define_character_actions(code, *def),
    {
        self.write_command(0x40 | ((code & 0x03) << 4), queue);
        queue.push(BusAction::DelayUs { us: 100 });

        let ghost rows = def.spec_rows();
        let mut i: usize = 0;
        while i < 10
            invariant
                i <= 10,
                *self == *old(self),
                rows == def.spec_rows(),
                queue@ == old(queue)@ + self.spec_command_actions((0x40 | ((code & 0x03) << 4)) as u8)
                    + seq![BusAction::DelayUs { us: 100 }] + self.spec_write_bytes_actions(rows.take(i as int)),
            decreases 10 - i,
        {
            let line = def.pattern[i];
            self.bus.write(line, true, queue);
            queue.push(BusAction::DelayUs { us: 100 });
            i += 1;
            proof {
                lemma_write_bytes_actions_snoc(*self, rows.take(i - 1), line);
                assert(rows.take(i - 1).push(line) =~= rows.take(i as int));
                assert(queue@ =~= old(queue)@ + self.spec_command_actions((0x40 | ((code & 0x03) << 4)) as u8)
                    + seq![BusAction::DelayUs { us: 100 }] + self.spec_write_bytes_actions(rows.take(i as int)));
            }
        }
        self.bus.write(def.cursor, true, queue);
        queue.push(BusAction::DelayUs { us: 100 });
        proof {
            lemma_write_bytes_actions_snoc(*self, rows.take(10), def.cursor);
            assert(rows.take(10).push(def.cursor) =~= rows);
        }

        // Change back to DDRAM
        self.write_command(0b1000_0000, queue);
        proof {
            assert(queue@ =~= old(queue)@ + old(self).spec_define_character_actions(code, *def));
        }
        Ok(())
    }
}

} // verus!
