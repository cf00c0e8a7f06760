use vstd::prelude::*;

verus! {

/// The logical key code assigned to each slot of the 4-by-4 physical
/// keypad grid, row-major from the top-left: the conventional layout
/// maps the rows to codes 1,2,3,C / 4,5,6,D / 7,8,9,E / A,0,B,F.
pub open spec fn spec_key_code(slot: u8) -> u8 {
    if slot == 0 {
        0x1
    } else if slot == 1 {
        0x2
    } else if slot == 2 {
        0x3
    } else if slot == 3 {
        0xc
    } else if slot == 4 {
        0x4
    } else if slot == 5 {
        0x5
    } else if slot == 6 {
        0x6
    } else if slot == 7 {
        0xd
    } else if slot == 8 {
        0x7
    } else if slot == 9 {
        0x8
    } else if slot == 10 {
        0x9
    } else if slot == 11 {
        0xe
    } else if slot == 12 {
        0xa
    } else if slot == 13 {
        0x0
    } else if slot == 14 {
        0xb
    } else {
        0xf
    }
}

/// Maps a slot of the physical 4-by-4 keypad grid (row-major from the
/// top-left) to its logical key code.
pub fn key_code(slot: u8) -> (c: u8)
    requires
        slot < 16,
    ensures
        c == spec_key_code(slot),
        c < 16,
{
    match slot {
        0 => 0x1,
        1 => 0x2,
        2 => 0x3,
        3 => 0xc,
        4 => 0x4,
        5 => 0x5,
        6 => 0x6,
        7 => 0xd,
        8 => 0x7,
        9 => 0x8,
        10 => 0x9,
        11 => 0xe,
        12 => 0xa,
        13 => 0x0,
        14 => 0xb,
        _ => 0xf,
    }
}

} // verus!
