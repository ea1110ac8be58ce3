use hd44780_driver::memory_map::{scrollable_margin, Contiguous1RMemoryMap, DisplayMemoryMap, StandardMemoryMap};

#[test]
fn test_scrollable_margin_1602() {
    let res = scrollable_margin(16, 2, 40);
    assert_eq!(res, 24);
}

#[test]
fn test_scrollable_margin_1604() {
    let res = scrollable_margin(16, 4, 40);
    assert_eq!(res, 8);
}

#[test]
fn test_scrollable_margin_2002() {
    let res = scrollable_margin(20, 2, 40);
    assert_eq!(res, 20);
}

#[test]
fn test_scrollable_margin_2004() {
    let res = scrollable_margin(20, 4, 40);
    assert_eq!(res, 0);
}

#[test]
fn test_scrollable_margin_4002() {
    let res = scrollable_margin(40, 2, 40);
    assert_eq!(res, 0);
}

#[test]
fn test_position() {
    let map = StandardMemoryMap::new(20, 4, 40);
    assert_eq!(Some(0), map.address_for_xy(0, 0));
    assert_eq!(Some(19), map.address_for_xy(19, 0));
    assert_eq!(Some(64), map.address_for_xy(0, 1));
    assert_eq!(Some(65), map.address_for_xy(1, 1));
}

#[test]
fn test_invalid_col() {
    let map = StandardMemoryMap::new(20, 4, 40);
    assert_eq!(None, map.address_for_xy(20, 0));
}

#[test]
fn test_invalid_row() {
    let map = StandardMemoryMap::new(20, 4, 40);
    assert_eq!(None, map.address_for_xy(0, 4));
}

#[test]
fn test_invalid_rowcol() {
    let map = StandardMemoryMap::new(20, 4, 40);
    assert_eq!(None, map.address_for_xy(20, 4));
}

#[test]
fn address_matches_datasheet_formula() {
    // The datasheet formula, checked across every valid coordinate of a
    // 16x4 geometry, scrollable margin included.
    let map = StandardMemoryMap::new(16, 4, 40);
    for y in 0u8..4 {
        for x in 0..map.columns_in_line(y) {
            let expected = x + 0x40 * (y & 1) + 16 * ((y & 2) >> 1);
            assert_eq!(map.address_for_xy(x, y), Some(expected));
        }
    }
}

#[test]
fn addresses_distinct_within_register() {
    // Within one physical line register, every valid coordinate of a
    // 16x4 geometry gets its own address.
    let map = StandardMemoryMap::new(16, 4, 40);
    for parity in 0u8..2 {
        let mut seen = Vec::new();
        for y in [parity, parity + 2] {
            for x in 0..map.columns_in_line(y) {
                let addr = map.address_for_xy(x, y).unwrap();
                assert!(!seen.contains(&addr));
                seen.push(addr);
            }
        }
    }
}

#[test]
fn columns_in_line_2004_no_margin() {
    // A 20x4 display fills both line registers: no row can scroll.
    let map = StandardMemoryMap::new(20, 4, 40);
    for y in 0u8..4 {
        assert_eq!(map.columns_in_line(y), 20);
    }
}

#[test]
fn columns_in_line_1602_margin() {
    // A 16x2 display leaves 24 scrollable columns on each line.
    let map = StandardMemoryMap::new(16, 2, 40);
    assert_eq!(map.columns_in_line(0), 40);
    assert_eq!(map.columns_in_line(1), 40);
}

#[test]
fn margin_columns_are_addressable() {
    // On a 16x2 display content can scroll: columns beyond the visible
    // width still resolve to an address.
    let map = StandardMemoryMap::new(16, 2, 40);
    assert_eq!(map.address_for_xy(16, 0), Some(16));
    assert_eq!(map.address_for_xy(39, 1), Some(64 + 39));
    assert_eq!(map.address_for_xy(40, 0), None);
}

#[test]
fn contiguous_single_row() {
    let map = Contiguous1RMemoryMap::new(16, 0x50);
    assert_eq!(map.address_for_xy(0, 0), Some(0));
    assert_eq!(map.address_for_xy(0x4f, 0), Some(0x4f));
    assert_eq!(map.address_for_xy(0x50, 0), None);
    assert_eq!(map.address_for_xy(0, 1), None);
    assert_eq!(map.columns_in_line(0), 0x50);
    assert_eq!(map.display_size().get(), (16, 1));
}
