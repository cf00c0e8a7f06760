use vstd::prelude::*;
use crate::bits::{digit_group, lemma_pow16_vals, spec_digit_group};

verus! {

/// One decoded instruction. Field order follows the raw word: register
/// indices come from single hex digits, immediates from the low byte,
/// addresses from the low three digits.
#[derive(Clone, Copy, PartialEq, Eq, Structural, Debug)]
pub enum Opcode {
    /// 00E0: clear the framebuffer.
    Clear,
    /// 00EE: pop a return address into the program counter.
    Return,
    /// 1nnn: jump to `nnn`.
    Jump(u16),
    /// 2nnn: push the current program counter, jump to `nnn`.
    Call(u16),
    /// 3xnn: skip the next instruction if register x equals `nn`.
    SkipEqImm(u8, u8),
    /// 4xnn: skip the next instruction if register x differs from `nn`.
    SkipNeImm(u8, u8),
    /// 5xy0: skip the next instruction if register x equals register y.
    SkipEqReg(u8, u8),
    /// 6xnn: set register x to `nn`.
    SetImm(u8, u8),
    /// 7xnn: add `nn` to register x, wrapping; no flag side effect.
    AddImm(u8, u8),
    /// 8xy0: copy register y into register x.
    Copy(u8, u8),
    /// 8xy1: bitwise OR of registers x and y into register x.
    Or(u8, u8),
    /// 8xy2: bitwise AND of registers x and y into register x.
    And(u8, u8),
    /// 8xy3: bitwise XOR of registers x and y into register x.
    Xor(u8, u8),
    /// 8xy4: wrapping add register y into register x; flag = carry.
    AddReg(u8, u8),
    /// 8xy5: wrapping subtract register y from register x; flag = no borrow.
    SubReg(u8, u8),
    /// 8xy6: flag = low bit of register x, then shift register x right.
    Shr(u8),
    /// 8xy7: register x = register y - register x, wrapping; flag = no borrow.
    SubFrom(u8, u8),
    /// 8xyE: flag = high bit of register x, then shift register x left.
    Shl(u8),
    /// 9xy0: skip the next instruction if register x differs from register y.
    SkipNeReg(u8, u8),
    /// Annn: set the index register to `nnn`.
    SetIndex(u16),
    /// Bnnn: jump to `nnn` plus register 0.
    JumpPlus(u16),
    /// Cxnn: register x = random byte AND `nn`.
    Random(u8, u8),
    /// Dxyn: draw an `n`-byte sprite at (register x, register y).
    Draw(u8, u8, u8),
    /// Ex9E: skip the next instruction if the key in register x is held.
    SkipKey(u8),
    /// ExA1: skip the next instruction if the key in register x is not held.
    SkipNoKey(u8),
    /// Fx07: register x = delay timer.
    ReadDelay(u8),
    /// Fx0A: suspend execution until a key is held; record register x.
    WaitKey(u8),
    /// Fx15: delay timer = register x.
    SetDelay(u8),
    /// Fx18: sound timer = register x.
    SetSound(u8),
    /// Fx1E: add register x to the index register, wrapping.
    AddIndex(u8),
    /// Fx29: index register = font glyph address for the digit in register x.
    FontAddr(u8),
    /// Fx33: store the decimal digits of register x at the index register.
    StoreBcd(u8),
    /// Fx55: store registers 0..15 at the index register.
    StoreRegs,
    /// Fx65: load registers 0..15 from the index register.
    LoadRegs,
    /// Any word outside the opcode table: a no-op with a diagnostic.
    Unknown(u16),
}

/// Every register field of a decoded opcode names one of the 16
/// registers, every address field lies inside memory, and every sprite
/// height is a single digit.
pub open spec fn wf_op(op: Opcode) -> bool {
    match op {
        Opcode::Jump(a) => a < 4096,
        Opcode::Call(a) => a < 4096,
        Opcode::SkipEqImm(x, _) => x < 16,
        Opcode::SkipNeImm(x, _) => x < 16,
        Opcode::SkipEqReg(x, y) => x < 16 && y < 16,
        Opcode::SetImm(x, _) => x < 16,
        Opcode::AddImm(x, _) => x < 16,
        Opcode::Copy(x, y) => x < 16 && y < 16,
        Opcode::Or(x, y) => x < 16 && y < 16,
        Opcode::And(x, y) => x < 16 && y < 16,
        Opcode::Xor(x, y) => x < 16 && y < 16,
        Opcode::AddReg(x, y) => x < 16 && y < 16,
        Opcode::SubReg(x, y) => x < 16 && y < 16,
        Opcode::Shr(x) => x < 16,
        Opcode::SubFrom(x, y) => x < 16 && y < 16,
        Opcode::Shl(x) => x < 16,
        Opcode::SkipNeReg(x, y) => x < 16 && y < 16,
        Opcode::SetIndex(a) => a < 4096,
        Opcode::JumpPlus(a) => a < 4096,
        Opcode::Random(x, _) => x < 16,
        Opcode::Draw(x, y, n) => x < 16 && y < 16 && n < 16,
        Opcode::SkipKey(x) => x < 16,
        Opcode::SkipNoKey(x) => x < 16,
        Opcode::ReadDelay(x) => x < 16,
        Opcode::WaitKey(x) => x < 16,
        Opcode::SetDelay(x) => x < 16,
        Opcode::SetSound(x) => x < 16,
        Opcode::AddIndex(x) => x < 16,
        Opcode::FontAddr(x) => x < 16,
        Opcode::StoreBcd(x) => x < 16,
        _ => true,
    }
}

/// The opcode denoted by a raw instruction word: classification is by
/// the top hex digit, and the 8---, E--- and F--- families dispatch
/// further on their low digits. Words matching no defined case decode
/// to `Unknown`.
pub open spec fn spec_decode(word: u16) -> Opcode {
    let t = spec_digit_group(word, 1, 3);
    let x = spec_digit_group(word, 1, 2) as u8;
    let y = spec_digit_group(word, 1, 1) as u8;
    let o = spec_digit_group(word, 1, 0) as u8;
    let nn = spec_digit_group(word, 2, 0) as u8;
    let nnn = spec_digit_group(word, 3, 0) as u16;
    if word == 0x00e0 {
        Opcode::Clear
    } else if word == 0x00ee {
        Opcode::Return
    } else if t == 0x1 {
        Opcode::Jump(nnn)
    } else if t == 0x2 {
        Opcode::Call(nnn)
    } else if t == 0x3 {
        Opcode::SkipEqImm(x, nn)
    } else if t == 0x4 {
        Opcode::SkipNeImm(x, nn)
    } else if t == 0x5 {
        Opcode::SkipEqReg(x, y)
    } else if t == 0x6 {
        Opcode::SetImm(x, nn)
    } else if t == 0x7 {
        Opcode::AddImm(x, nn)
    } else if t == 0x8 {
        if o == 0x0 {
            Opcode::Copy(x, y)
        } else if o == 0x1 {
            Opcode::Or(x, y)
        } else if o == 0x2 {
            Opcode::And(x, y)
        } else if o == 0x3 {
            Opcode::Xor(x, y)
        } else if o == 0x4 {
            Opcode::AddReg(x, y)
        } else if o == 0x5 {
            Opcode::SubReg(x, y)
        } else if o == 0x6 {
            Opcode::Shr(x)
        } else if o == 0x7 {
            Opcode::SubFrom(x, y)
        } else if o == 0xe {
            Opcode::Shl(x)
        } else {
            Opcode::Unknown(word)
        }
    } else if t == 0x9 {
        Opcode::SkipNeReg(x, y)
    } else if t == 0xa {
        Opcode::SetIndex(nnn)
    } else if t == 0xb {
        Opcode::JumpPlus(nnn)
    } else if t == 0xc {
        Opcode::Random(x, nn)
    } else if t == 0xd {
        Opcode::Draw(x, y, o)
    } else if t == 0xe {
        if nn == 0x9e {
            Opcode::SkipKey(x)
        } else if nn == 0xa1 {
            Opcode::SkipNoKey(x)
        } else {
            Opcode::Unknown(word)
        }
    } else if t == 0xf {
        if nn == 0x07 {
            Opcode::ReadDelay(x)
        } else if nn == 0x0a {
            Opcode::WaitKey(x)
        } else if nn == 0x15 {
            Opcode::SetDelay(x)
        } else if nn == 0x18 {
            Opcode::SetSound(x)
        } else if nn == 0x1e {
            Opcode::AddIndex(x)
        } else if nn == 0x29 {
            Opcode::FontAddr(x)
        } else if nn == 0x33 {
            Opcode::StoreBcd(x)
        } else if nn == 0x55 {
            Opcode::StoreRegs
        } else if nn == 0x65 {
            Opcode::LoadRegs
        } else {
            Opcode::Unknown(word)
        }
    } else {
        Opcode::Unknown(word)
    }
}

/// Classifies a raw instruction word into its opcode.
pub fn decode(word: u16) -> (op: Opcode)
    ensures
        op == spec_decode(word),
        wf_op(op),
{
    proof {
        lemma_pow16_vals();
    }
    if word == 0x00e0 {
        return Opcode::Clear;
    }
    if word == 0x00ee {
        return Opcode::Return;
    }
    let t: u32 = digit_group(word, 1, 3);
    let x: u8 = digit_group(word, 1, 2) as u8;
    let y: u8 = digit_group(word, 1, 1) as u8;
    let o: u8 = digit_group(word, 1, 0) as u8;
    let nn: u8 = digit_group(word, 2, 0) as u8;
    let nnn: u16 = digit_group(word, 3, 0) as u16;
    match t {
        0x1 => Opcode::Jump(nnn),
        0x2 => Opcode::Call(nnn),
        0x3 => Opcode::SkipEqImm(x, nn),
        0x4 => Opcode::SkipNeImm(x, nn),
        0x5 => Opcode::SkipEqReg(x, y),
        0x6 => Opcode::SetImm(x, nn),
        0x7 => Opcode::AddImm(x, nn),
        0x8 => match o {
            0x0 => Opcode::Copy(x, y),
            0x1 => Opcode::Or(x, y),
            0x2 => Opcode::And(x, y),
            0x3 => Opcode::Xor(x, y),
            0x4 => Opcode::AddReg(x, y),
            0x5 => Opcode::SubReg(x, y),
            0x6 => Opcode::Shr(x),
            0x7 => Opcode::SubFrom(x, y),
            0xe => Opcode::Shl(x),
            _ => Opcode::Unknown(word),
        },
        0x9 => Opcode::SkipNeReg(x, y),
        0xa => Opcode::SetIndex(nnn),
        0xb => Opcode::JumpPlus(nnn),
        0xc => Opcode::Random(x, nn),
        0xd => Opcode::Draw(x, y, o),
        0xe => match nn {
            0x9e => Opcode::SkipKey(x),
            0xa1 => Opcode::SkipNoKey(x),
            _ => Opcode::Unknown(word),
        },
        0xf => match nn {
            0x07 => Opcode::ReadDelay(x),
            0x0a => Opcode::WaitKey(x),
            0x15 => Opcode::SetDelay(x),
            0x18 => Opcode::SetSound(x),
            0x1e => Opcode::AddIndex(x),
            0x29 => Opcode::FontAddr(x),
            0x33 => Opcode::StoreBcd(x),
            0x55 => Opcode::StoreRegs,
            0x65 => Opcode::LoadRegs,
            _ => Opcode::Unknown(word),
        },
        _ => Opcode::Unknown(word),
    }
}

} // verus!
