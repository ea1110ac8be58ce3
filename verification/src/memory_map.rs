use vstd::prelude::*;

use crate::display_size::DisplaySize;

verus! {

/// How logical `(column, row)` coordinates of a display map onto the
/// controller's physical, non-contiguous DDRAM address space.
pub trait DisplayMemoryMap: Sized {
    /// Validity of the geometry itself; established at construction.
    spec fn wf(self) -> bool;

    /// The address for `(x, y)`, or `None` outside the geometry.
    spec fn spec_address(self, x: u8, y: u8) -> Option<u8>;

    /// The columns of line `y` including the scrollable margin.
    spec fn spec_columns_in_line(self, y: u8) -> u8;

    /// The `(columns, rows)` size of the visible display.
    spec fn spec_size(self) -> (u8, u8);

    /// The address of a character on the display respecting the scrollable
    /// margin.
    fn address_for_xy(&self, x: u8, y: u8) -> (r: Option<u8>)
        requires
            self.wf(),
        ensures
            r == self.spec_address(x, y),
    ;

    /// The columns of a line including scrollable margin.
    fn columns_in_line(&self, y: u8) -> (r: u8)
        requires
            self.wf(),
        ensures
            r == self.spec_columns_in_line(y),
    ;

    /// Size of the physical display.
    fn display_size(&self) -> (r: DisplaySize)
        requires
            self.wf(),
        ensures
            r.spec_get() == self.spec_size(),
    ;
}

/// The row-interleaved memory map shared by all standard multi-line
/// displays: two physical line registers, `0x40` apart, each holding one
/// row pair, with the third and fourth logical rows offset to the right.
#[derive(Clone, Copy, Debug, PartialEq, Eq, Structural)]
pub struct StandardMemoryMap {
    /// Visible columns of the display.
    pub columns: u8,
    /// Visible rows of the display, between two and four.
    pub rows: u8,
    /// Physical DDRAM width of one line register; a chip-family
    /// constant, forty on common parts.
    pub line_width: u8,
}

impl StandardMemoryMap {
    /// Build the map for a `columns` by `rows` display over line registers
    /// of `line_width` cells.  Single-row and over-four-row displays are
    /// not covered by the standard map.
    pub fn new(columns: u8, rows: u8, line_width: u8) -> (r: Self)
        requires
            1 <= columns,
            2 <= rows <= 4,
            columns * ((rows + 1) as int / 2) <= line_width,
            line_width <= 40,
        ensures
            r == (StandardMemoryMap { columns, rows, line_width }),
            r.wf(),
    {
        Self { columns, rows, line_width }
    }

    /// Columns beyond the visible width that content can scroll into.
    pub open spec fn spec_margin(self) -> int {
        self.line_width - self.columns * ((self.rows + 1) as int / 2)
    }
}

impl DisplayMemoryMap for StandardMemoryMap {
    open spec fn wf(self) -> bool {
        &&& 1 <= self.columns
        &&& 2 <= self.rows <= 4
        &&& self.columns * ((self.rows + 1) as int / 2) <= self.line_width
        &&& self.line_width <= 40
    }

    open spec fn spec_address(self, x: u8, y: u8) -> Option<u8> {
        if y >= self.rows || x >= self.spec_columns_in_line(y) {
            None
        } else {
            Some(
                ((x as int) + (if y % 2 == 1 {
                    0x40int
                } else {
                    0int
                }) + (if (y / 2) % 2 == 1 {
                    self.columns as int
                } else {
                    0int
                })) as u8,
            )
        }
    }

    open spec fn spec_columns_in_line(self, y: u8) -> u8 {
        if self.rows >= 3 && (y / 2) % 2 == 0 {
            self.columns
        } else {
            (self.columns + self.spec_margin()) as u8
        }
    }

    open spec fn spec_size(self) -> (u8, u8) {
        (self.columns, self.rows)
    }

    /// Address of a character in a row assuming the most common memory
    /// mapping: `x`, plus `0x40` for the second line register, plus the
    /// visible width for the third and fourth logical rows.
    fn address_for_xy(&self, x: u8, y: u8) -> (r: Option<u8>) {
        if y >= self.rows || x >= self.columns_in_line(y) {
            return None;
        }

        proof {
            assert(((y & 1) > 0) == (y % 2 == 1)) by (bit_vector);
            assert(((y & 2) > 0) == ((y / 2) % 2 == 1)) by (bit_vector);
            lemma_standard_line_capacity(*self, y);
        }
        let mut addr = x;
        if (y & 1) > 0 {
            addr += 0x40;
        }
        if (y & 2) > 0 {
            addr += self.columns;
        }
        Some(addr)
    }

    fn columns_in_line(&self, y: u8) -> (r: u8) {
        proof {
            assert(((y & 2) == 0) == ((y / 2) % 2 == 0)) by (bit_vector);
        }
        let scrollable: u8 = self.line_width - self.columns * ((self.rows + 1) / 2);
        if self.rows >= 3 && (y & 2) == 0 {
            // Only rows 3 and 4 can scroll
            self.columns
        } else {
            self.columns + scrollable
        }
    }

    fn display_size(&self) -> (r: DisplaySize) {
        DisplaySize::new(self.columns, self.rows)
    }
}

/// Columns of a line register left over once every row pair of a
/// `w` by `h` display took its share of the physical width `l`.
pub fn scrollable_margin(w: u8, h: u8, l: u8) -> (r: u8)
    requires
        1 <= h <= 4,
        w * ((h + 1) as int / 2) <= l,
    ensures
        r == l - w * ((h + 1) as int / 2),
{
    l - w * ((h + 1) / 2)
}

/// Memory map for single-row displays that use one line of contiguous
/// memory.
#[derive(Clone, Copy, Debug, PartialEq, Eq, Structural)]
pub struct Contiguous1RMemoryMap {
    /// Visible columns of the display.
    pub columns: u8,
    /// Addressable cells of the single physical line, typically `0x50`.
    pub line_width: u8,
}

impl Contiguous1RMemoryMap {
    /// Build the map for a single-row display of `columns` visible cells
    /// over one contiguous line of `line_width` cells.
    pub fn new(columns: u8, line_width: u8) -> (r: Self)
        requires
            1 <= columns <= line_width,
            line_width <= 80,
        ensures
            r == (Contiguous1RMemoryMap { columns, line_width }),
            r.wf(),
    {
        Self { columns, line_width }
    }
}

impl DisplayMemoryMap for Contiguous1RMemoryMap {
    open spec fn wf(self) -> bool {
        &&& 1 <= self.columns <= self.line_width
        &&& self.line_width <= 80
    }

    open spec fn spec_address(self, x: u8, y: u8) -> Option<u8> {
        if y != 0 || x >= self.line_width {
            None
        } else {
            Some(x)
        }
    }

    open spec fn spec_columns_in_line(self, y: u8) -> u8 {
        self.line_width
    }

    open spec fn spec_size(self) -> (u8, u8) {
        (self.columns, 1)
    }

    /// Address of a character using the less common single-line memory
    /// mapping: the column itself, over the full physical line.
    fn address_for_xy(&self, x: u8, y: u8) -> (r: Option<u8>) {
        if y != 0 || x >= self.columns_in_line(y) {
            None
        } else {
            Some(x)
        }
    }

    fn columns_in_line(&self, _y: u8) -> (r: u8) {
        self.line_width
    }

    fn display_size(&self) -> (r: DisplaySize) {
        DisplaySize::new(self.columns, 1)
    }
}

/// Every line of a standard geometry fits inside one line register, and a
/// line of the right-hand row group leaves room for the visible width of
/// the left-hand group before it.
proof fn lemma_standard_line_capacity(m: StandardMemoryMap, y: u8)
    requires
        m.wf(),
    ensures
        m.spec_columns_in_line(y) <= m.line_width,
        m.columns <= m.line_width,
        0 <= m.columns + m.spec_margin() <= m.line_width,
        y < m.rows && (y / 2) % 2 == 1 ==> m.spec_columns_in_line(y) + m.columns <= m.line_width,
{
    let c = (m.rows + 1) as int / 2;
    assert(c == 1 || c == 2);
    if c == 1 {
        assert(m.columns * c == m.columns) by (nonlinear_arith)
            requires
                c == 1,
        ;
    } else {
        assert(m.columns * c == m.columns + m.columns) by (nonlinear_arith)
            requires
                c == 2,
        ;
    }
}

/// For every coordinate pair inside a standard geometry the address equals
/// the datasheet formula: the column, plus `0x40` when the row index is
/// odd, plus the visible width when bit one of the row index is set; and
/// that value fits in the seven-bit address space the chip exposes.
pub proof fn lemma_standard_address_formula(m: StandardMemoryMap, x: u8, y: u8)
    requires
        m.wf(),
        y < m.rows,
        x < m.spec_columns_in_line(y),
    ensures
        x + 0x40 * (y & 1) + m.columns * ((y & 2) >> 1) < 0x80,
        m.spec_address(x, y) == Some((x + 0x40 * (y & 1) + m.columns * ((y & 2) >> 1)) as u8),
{
    assert((y & 1) == y % 2) by (bit_vector);
    assert(((y & 2) >> 1) == (y / 2) % 2) by (bit_vector);
    lemma_standard_line_capacity(m, y);
    let g = ((y & 2) >> 1) as int;
    if g == 1 {
        assert(m.columns * g == m.columns) by (nonlinear_arith)
            requires
                g == 1,
        ;
    } else {
        assert(m.columns * g == 0) by (nonlinear_arith)
            requires
                g == 0,
        ;
    }
}

/// Within one physical line register (rows of equal parity), distinct
/// valid coordinates of a standard geometry receive distinct addresses.
pub proof fn lemma_standard_address_injective(m: StandardMemoryMap, x1: u8, y1: u8, x2: u8, y2: u8)
    requires
        m.wf(),
        y1 < m.rows,
        x1 < m.spec_columns_in_line(y1),
        y2 < m.rows,
        x2 < m.spec_columns_in_line(y2),
        y1 % 2 == y2 % 2,
        (x1, y1) != (x2, y2),
    ensures
        m.spec_address(x1, y1) != m.spec_address(x2, y2),
{
    lemma_standard_line_capacity(m, y1);
    lemma_standard_line_capacity(m, y2);
    let c = m.columns as int;
    let p = if y1 % 2 == 1 {
        0x40int
    } else {
        0int
    };
    let g1 = (y1 / 2) % 2;
    let g2 = (y2 / 2) % 2;
    let a1 = x1 + p + (if g1 == 1 {
        c
    } else {
        0int
    });
    let a2 = x2 + p + (if g2 == 1 {
        c
    } else {
        0int
    });
    assert(m.spec_address(x1, y1) == Some(a1 as u8));
    assert(m.spec_address(x2, y2) == Some(a2 as u8));
    assert(0 <= a1 < 256 && 0 <= a2 < 256);
    if y1 == y2 {
        assert(a1 != a2);
    } else {
        // Rows below four decompose into their register parity and their
        // row-group bit, so rows of equal parity differ in the group bit.
        assert(y1 == 2 * g1 + y1 % 2);
        assert(y2 == 2 * g2 + y2 % 2);
        assert(g1 != g2);
        if g1 == 0 {
            assert(m.rows >= 3);
            assert(a1 < p + c);
            assert(a2 >= p + c);
        } else {
            assert(m.rows >= 3);
            assert(a2 < p + c);
            assert(a1 >= p + c);
        }
    }
}

/// Coordinates at or beyond the line capacity, or at or beyond the row
/// count, of a standard geometry are rejected: the map yields no address.
pub proof fn lemma_standard_address_out_of_range(m: StandardMemoryMap, x: u8, y: u8)
    requires
        y >= m.rows || x >= m.spec_columns_in_line(y),
    ensures
        m.spec_address(x, y) is None,
{
}

/// A geometry whose row pairs fill the whole physical line has no
/// scrollable margin: every line holds exactly the visible columns.
pub proof fn lemma_columns_in_line_without_margin(m: StandardMemoryMap, y: u8)
    requires
        m.wf(),
        m.columns * ((m.rows + 1) as int / 2) == m.line_width,
    ensures
        m.spec_columns_in_line(y) == m.columns,
{
}

/// On a geometry without scrollable margin, any column at or beyond the
/// visible width, or row at or beyond the row count, yields no address.
/// (With a margin, columns between the visible width and the line
/// capacity are deliberately addressable: that is what scrolls.)
pub proof fn lemma_standard_address_out_of_display(m: StandardMemoryMap, x: u8, y: u8)
    requires
        m.wf(),
        m.columns * ((m.rows + 1) as int / 2) == m.line_width,
        x >= m.columns || y >= m.rows,
    ensures
        m.spec_address(x, y) is None,
{
    lemma_columns_in_line_without_margin(m, y);
}

/// The single-row contiguous map is the identity on its one line: every
/// column of the full physical width is its own address.
pub proof fn lemma_contiguous_address_identity(m: Contiguous1RMemoryMap, x: u8)
    requires
        x < m.line_width,
    ensures
        m.spec_address(x, 0) == Some(x),
{
}

/// The single-row contiguous map rejects every coordinate off its one
/// line, and addresses the full physical width of that line.
pub proof fn lemma_contiguous_address_out_of_range(m: Contiguous1RMemoryMap, x: u8, y: u8)
    requires
        y != 0 || x >= m.line_width,
    ensures
        m.spec_address(x, y) is None,
{
}

} // verus!
