use vstd::prelude::*;

verus! {

/// Physical size of a display: visible columns and lines.
#[derive(Clone, Copy, Debug, PartialEq, Eq, Structural)]
pub struct DisplaySize {
    columns: u8,
    lines: u8,
}

impl DisplaySize {
    /// The `(columns, lines)` pair this size was built from.
    pub closed spec fn spec_get(self) -> (u8, u8) {
        (self.columns, self.lines)
    }

    pub fn new(columns: u8, lines: u8) -> (r: Self)
        ensures
            r.spec_get() == (columns, lines),
    {
        Self { columns, lines }
    }

    pub fn get(&self) -> (r: (u8, u8))
        ensures
            r == self.spec_get(),
    {
        (self.columns, self.lines)
    }
}

impl Default for DisplaySize {
    /// The most common full-size geometry, 20 columns by 4 lines.
    fn default() -> (r: Self)
        ensures
            r.spec_get() == (20u8, 4u8),
    {
        Self { columns: 20, lines: 4 }
    }
}

} // verus!
