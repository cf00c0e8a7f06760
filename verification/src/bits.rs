use vstd::prelude::*;

verus! {

/// 16 raised to the power `e`: the weight of the hexadecimal digit at
/// position `e`, counted from the least-significant end.
pub open spec fn pow16(e: nat) -> int
    decreases e,
{
    if e == 0 {
        1
    } else {
        16 * pow16((e - 1) as nat)
    }
}

/// The concrete weights used when slicing instruction words into digits.
pub proof fn lemma_pow16_vals()
    ensures
        pow16(0) == 1,
        pow16(1) == 16,
        pow16(2) == 256,
        pow16(3) == 4096,
        pow16(4) == 65536,
{
    reveal_with_fuel(pow16, 5);
}

/// The number formed by `count` hexadecimal digits of `word`, starting
/// `shift` digit positions from the least-significant end.
pub open spec fn spec_digit_group(word: u16, count: u32, shift: u32) -> u32 {
    ((word as int / pow16(shift as nat)) % pow16(count as nat)) as u32
}

/// 16^e as a machine word, for the exponents digit slicing needs.
fn pow16_exec(e: u32) -> (r: u32)
    requires
        e <= 4,
    ensures
        r == pow16(e as nat),
        r >= 1,
{
    proof {
        lemma_pow16_vals();
    }
    if e == 0 {
        1
    } else if e == 1 {
        16
    } else if e == 2 {
        256
    } else if e == 3 {
        4096
    } else {
        65536
    }
}

/// Extracts `count` hexadecimal digits of `word`, skipping the lowest
/// `shift` digits: opcode fields (register indices, immediate bytes,
/// 12-bit addresses) are all read this way.
pub fn digit_group(word: u16, count: u32, shift: u32) -> (r: u32)
    requires
        count <= 4,
        shift <= 4,
    ensures
        r == spec_digit_group(word, count, shift),
        r < pow16(count as nat),
{
    let d: u32 = pow16_exec(shift);
    let m: u32 = pow16_exec(count);
    ((word as u32) / d) % m
}

/// The bit of `byte` at `position`, counted from the least-significant
/// end: either 0 or 1.
pub open spec fn spec_bit_at(byte: u8, position: u8) -> u8 {
    if (byte >> position) & 1 == 1 {
        1
    } else {
        0
    }
}

/// Reads one bit of `byte`; position 0 is the least-significant bit.
pub fn bit_at(byte: u8, position: u8) -> (r: u8)
    requires
        position < 8,
    ensures
        r == spec_bit_at(byte, position),
{
    if (byte >> position) & 1 == 1 {
        1
    } else {
        0
    }
}

} // verus!
