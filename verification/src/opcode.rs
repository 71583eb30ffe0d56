//! Instruction words and their decoding.
//!
//! An instruction is one big-endian 16-bit word. Its four nibbles are named,
//! from the high end: the family, `x`, `y` and `n`. The low byte is `kk` and
//! the low twelve bits are `nnn`.

use vstd::prelude::*;
use crate::error::Chip8Error;

verus! {

/// One decoded instruction. `x` and `y` index registers, `kk` is an immediate
/// byte, `nnn` an address and `n` a sprite height.
#[derive(Debug, Clone, Copy, PartialEq, Eq, Structural)]
pub enum Opcode {
    /// `00E0`: clear the framebuffer.
    Cls,
    /// `00EE`: return from a subroutine.
    Ret,
    /// `1nnn`: jump to `nnn`.
    Jp { nnn: u16 },
    /// `2nnn`: call the subroutine at `nnn`.
    Call { nnn: u16 },
    /// `3xkk`: skip the next instruction if `Vx == kk`.
    SeV { x: usize, kk: u8 },
    /// `4xkk`: skip the next instruction if `Vx != kk`.
    SneV { x: usize, kk: u8 },
    /// `5xy0`: skip the next instruction if `Vx == Vy`.
    SeVV { x: usize, y: usize },
    /// `6xkk`: `Vx = kk`.
    LdV { x: usize, kk: u8 },
    /// `7xkk`: `Vx = Vx + kk`, wrapping, flag register untouched.
    AddV { x: usize, kk: u8 },
    /// `8xy0`: `Vx = Vy`.
    LdVV { x: usize, y: usize },
    /// `8xy1`: `Vx = Vx | Vy`.
    OrVV { x: usize, y: usize },
    /// `8xy2`: `Vx = Vx & Vy`.
    AndVV { x: usize, y: usize },
    /// `8xy3`: `Vx = Vx ^ Vy`.
    XorVV { x: usize, y: usize },
    /// `8xy4`: `Vx = Vx + Vy`, wrapping, with the carry in `VF`.
    AddVV { x: usize, y: usize },
    /// `8xy5`: `Vx = Vx - Vy`, wrapping, with `VF = (Vx > Vy)`.
    SubVV { x: usize, y: usize },
    /// `8xy6`: `Vx = Vx >> 1`, with the bit shifted out in `VF`.
    ShrV { x: usize },
    /// `8xy7`: `Vx = Vy - Vx`, wrapping, with `VF = (Vy > Vx)`.
    SubnVV { x: usize, y: usize },
    /// `8xyE`: `Vx = Vx << 1`, with the bit shifted out in `VF`.
    ShlV { x: usize },
    /// `9xy0`: skip the next instruction if `Vx != Vy`.
    SneVV { x: usize, y: usize },
    /// `Annn`: `I = nnn`.
    LdI { nnn: u16 },
    /// `Bnnn`: jump to `nnn + V0`.
    JpV0 { nnn: u16 },
    /// `Cxkk`: `Vx = kk & random byte`.
    RndV { x: usize, kk: u8 },
    /// `Dxyn`: draw the `n`-row sprite at `I` to `(Vx, Vy)`.
    DrwVV { x: usize, y: usize, n: u8 },
    /// `Ex9E`: skip the next instruction if key `Vx` is pressed.
    SkpV { x: usize },
    /// `ExA1`: skip the next instruction if key `Vx` is not pressed.
    SknpV { x: usize },
    /// `Fx07`: `Vx = delay timer`.
    LdVDt { x: usize },
    /// `Fx0A`: wait for a key and store its index in `Vx`.
    LdVK { x: usize },
    /// `Fx15`: `delay timer = Vx`.
    LdDtV { x: usize },
    /// `Fx18`: `sound timer = Vx`.
    LdStV { x: usize },
    /// `Fx1E`: `I = I + Vx`.
    AddIV { x: usize },
    /// `Fx29`: `I = address of the font glyph for Vx`.
    LdFV { x: usize },
    /// `Fx33`: store the decimal digits of `Vx` at `I`, `I + 1`, `I + 2`.
    LdBV { x: usize },
    /// `Fx55`: store `V0..=Vx` at `I` and up.
    LdIV { x: usize },
    /// `Fx65`: load `V0..=Vx` from `I` and up.
    LdVI { x: usize },
}

/// The family of a word: its highest nibble.
pub open spec fn family_of(word: u16) -> int {
    word as int / 4096
}

/// The `x` field of a word: its second nibble.
pub open spec fn x_of(word: u16) -> int {
    (word as int / 256) % 16
}

/// The `y` field of a word: its third nibble.
pub open spec fn y_of(word: u16) -> int {
    (word as int / 16) % 16
}

/// The `n` field of a word: its lowest nibble.
pub open spec fn n_of(word: u16) -> int {
    word as int % 16
}

/// The `kk` field of a word: its low byte.
pub open spec fn kk_of(word: u16) -> int {
    word as int % 256
}

/// The `nnn` field of a word: its low twelve bits.
pub open spec fn nnn_of(word: u16) -> int {
    word as int % 4096
}

/// The instruction of family 8 that the selector `n` names, if it names one.
pub open spec fn decoded_arithmetic(x: usize, y: usize, n: u8) -> Option<Opcode> {
    if n == 0x0 {
        Some(Opcode::LdVV { x, y })
    } else if n == 0x1 {
        Some(Opcode::OrVV { x, y })
    } else if n == 0x2 {
        Some(Opcode::AndVV { x, y })
    } else if n == 0x3 {
        Some(Opcode::XorVV { x, y })
    } else if n == 0x4 {
        Some(Opcode::AddVV { x, y })
    } else if n == 0x5 {
        Some(Opcode::SubVV { x, y })
    } else if n == 0x6 {
        Some(Opcode::ShrV { x })
    } else if n == 0x7 {
        Some(Opcode::SubnVV { x, y })
    } else if n == 0xE {
        Some(Opcode::ShlV { x })
    } else {
        None
    }
}

/// The instruction of family E that the low byte `kk` names, if it names one.
pub open spec fn decoded_key(x: usize, kk: u8) -> Option<Opcode> {
    if kk == 0x9E {
        Some(Opcode::SkpV { x })
    } else if kk == 0xA1 {
        Some(Opcode::SknpV { x })
    } else {
        None
    }
}

/// The instruction of family F that the low byte `kk` names, if it names one.
pub open spec fn decoded_system(x: usize, kk: u8) -> Option<Opcode> {
    if kk == 0x07 {
        Some(Opcode::LdVDt { x })
    } else if kk == 0x0A {
        Some(Opcode::LdVK { x })
    } else if kk == 0x15 {
        Some(Opcode::LdDtV { x })
    } else if kk == 0x18 {
        Some(Opcode::LdStV { x })
    } else if kk == 0x1E {
        Some(Opcode::AddIV { x })
    } else if kk == 0x29 {
        Some(Opcode::LdFV { x })
    } else if kk == 0x33 {
        Some(Opcode::LdBV { x })
    } else if kk == 0x55 {
        Some(Opcode::LdIV { x })
    } else if kk == 0x65 {
        Some(Opcode::LdVI { x })
    } else {
        None
    }
}

/// The instruction that a word encodes, if it encodes one.
///
/// The family selects the instruction. Families 8, E and F select further,
/// by the `n` field or by the low byte, and family 0 holds exactly two
/// words.
pub open spec fn decoded(word: u16) -> Option<Opcode> {
    let x = x_of(word) as usize;
    let y = y_of(word) as usize;
    let n = n_of(word) as u8;
    let kk = kk_of(word) as u8;
    let nnn = nnn_of(word) as u16;
    let family = family_of(word);
    if family == 0x0 {
        if word == 0x00E0 {
            Some(Opcode::Cls)
        } else if word == 0x00EE {
            Some(Opcode::Ret)
        } else {
            None
        }
    } else if family == 0x1 {
        Some(Opcode::Jp { nnn })
    } else if family == 0x2 {
        Some(Opcode::Call { nnn })
    } else if family == 0x3 {
        Some(Opcode::SeV { x, kk })
    } else if family == 0x4 {
        Some(Opcode::SneV { x, kk })
    } else if family == 0x5 {
        Some(Opcode::SeVV { x, y })
    } else if family == 0x6 {
        Some(Opcode::LdV { x, kk })
    } else if family == 0x7 {
        Some(Opcode::AddV { x, kk })
    } else if family == 0x8 {
        decoded_arithmetic(x, y, n)
    } else if family == 0x9 {
        Some(Opcode::SneVV { x, y })
    } else if family == 0xA {
        Some(Opcode::LdI { nnn })
    } else if family == 0xB {
        Some(Opcode::JpV0 { nnn })
    } else if family == 0xC {
        Some(Opcode::RndV { x, kk })
    } else if family == 0xD {
        Some(Opcode::DrwVV { x, y, n })
    } else if family == 0xE {
        decoded_key(x, kk)
    } else {
        decoded_system(x, kk)
    }
}

impl Opcode {
    /// Every field is in the range that its width in the instruction word
    /// allows: register indices and sprite heights below 16, addresses below
    /// 4096.
    pub open spec fn wf(self) -> bool {
        match self {
            Opcode::Cls | Opcode::Ret => true,
            Opcode::Jp { nnn }
            | Opcode::Call { nnn }
            | Opcode::LdI { nnn }
            | Opcode::JpV0 { nnn } => nnn < 4096,
            Opcode::SeV { x, .. } | Opcode::SneV { x, .. } | Opcode::LdV { x, .. } | Opcode::AddV {
                x,
                ..
            } | Opcode::RndV { x, .. } => x < 16,
            Opcode::SeVV { x, y } | Opcode::LdVV { x, y } | Opcode::OrVV { x, y } | Opcode::AndVV {
                x,
                y,
            } | Opcode::XorVV { x, y } | Opcode::AddVV { x, y } | Opcode::SubVV { x, y }
            | Opcode::SubnVV { x, y } | Opcode::SneVV { x, y } => x < 16 && y < 16,
            Opcode::DrwVV { x, y, n } => x < 16 && y < 16 && n < 16,
            Opcode::ShrV { x } | Opcode::ShlV { x } | Opcode::SkpV { x } | Opcode::SknpV { x }
            | Opcode::LdVDt { x } | Opcode::LdVK { x } | Opcode::LdDtV { x } | Opcode::LdStV { x }
            | Opcode::AddIV { x } | Opcode::LdFV { x } | Opcode::LdBV { x } | Opcode::LdIV { x }
            | Opcode::LdVI { x } => x < 16,
        }
    }
}

/// The `x` field of an instruction word, as a register index.
pub fn register_from(instruction: u16) -> (x: usize)
    ensures
        x == x_of(instruction),
        x < 16,
{
    register_and_value_from(instruction).0
}

/// The `x` and `y` fields of an instruction word, as register indices.
pub fn registers_from(instruction: u16) -> (xy: (usize, usize))
    ensures
        xy.0 == x_of(instruction),
        xy.1 == y_of(instruction),
        xy.0 < 16,
        xy.1 < 16,
{
    let x = (instruction & 0x0F00) >> 8;
    let y = (instruction & 0x00F0) >> 4;
    assert((instruction & 0x0F00) >> 8 == (instruction / 256) % 16) by (bit_vector);
    assert((instruction & 0x00F0) >> 4 == (instruction / 16) % 16) by (bit_vector);
    (x as usize, y as usize)
}

/// The `x` field of an instruction word, as a register index, and its `kk`
/// field.
pub fn register_and_value_from(instruction: u16) -> (xkk: (usize, u8))
    ensures
        xkk.0 == x_of(instruction),
        xkk.1 == kk_of(instruction),
        xkk.0 < 16,
{
    let register = (instruction & 0x0F00) >> 8;
    let value = instruction & 0x00FF;
    assert((instruction & 0x0F00) >> 8 == (instruction / 256) % 16) by (bit_vector);
    assert(instruction & 0x00FF == instruction % 256) by (bit_vector);
    (register as usize, value as u8)
}

/// The `nnn` field of an instruction word.
pub fn address_from(instruction: u16) -> (nnn: u16)
    ensures
        nnn == nnn_of(instruction),
        nnn < 4096,
{
    assert(instruction & 0x0FFF == instruction % 4096) by (bit_vector);
    instruction & 0x0FFF
}

/// The error for a word that encodes no instruction. It carries the word.
pub fn missing_instruction(instruction: u16) -> (error: Chip8Error)
    ensures
        error == (Chip8Error::UnimplementedInstruction { instruction }),
{
    Chip8Error::UnimplementedInstruction { instruction }
}

/// The second level of decoding for family 8: selects by `n`.
fn decode_arithmetic(x: usize, y: usize, n: u8) -> (op: Option<Opcode>)
    ensures
        op == decoded_arithmetic(x, y, n),
{
    match n {
        0x0 => Some(Opcode::LdVV { x, y }),
        0x1 => Some(Opcode::OrVV { x, y }),
        0x2 => Some(Opcode::AndVV { x, y }),
        0x3 => Some(Opcode::XorVV { x, y }),
        0x4 => Some(Opcode::AddVV { x, y }),
        0x5 => Some(Opcode::SubVV { x, y }),
        0x6 => Some(Opcode::ShrV { x }),
        0x7 => Some(Opcode::SubnVV { x, y }),
        0xE => Some(Opcode::ShlV { x }),
        _ => None,
    }
}

/// The second level of decoding for family E: selects by the low byte.
fn decode_key(x: usize, kk: u8) -> (op: Option<Opcode>)
    ensures
        op == decoded_key(x, kk),
{
    match kk {
        0x9E => Some(Opcode::SkpV { x }),
        0xA1 => Some(Opcode::SknpV { x }),
        _ => None,
    }
}

/// The second level of decoding for family F: selects by the low byte.
fn decode_system(x: usize, kk: u8) -> (op: Option<Opcode>)
    ensures
        op == decoded_system(x, kk),
{
    match kk {
        0x07 => Some(Opcode::LdVDt { x }),
        0x0A => Some(Opcode::LdVK { x }),
        0x15 => Some(Opcode::LdDtV { x }),
        0x18 => Some(Opcode::LdStV { x }),
        0x1E => Some(Opcode::AddIV { x }),
        0x29 => Some(Opcode::LdFV { x }),
        0x33 => Some(Opcode::LdBV { x }),
        0x55 => Some(Opcode::LdIV { x }),
        0x65 => Some(Opcode::LdVI { x }),
        _ => None,
    }
}

/// Decodes one instruction word. A word that encodes no instruction is an
/// error that carries the word.
pub fn decode(instruction: u16) -> (res: Result<Opcode, Chip8Error>)
    ensures
        decoded(instruction) matches Some(op) ==> res == Ok::<Opcode, Chip8Error>(op) && op.wf(),
        decoded(instruction) is None ==> res == Err::<Opcode, Chip8Error>(
            Chip8Error::UnimplementedInstruction { instruction },
        ),
{
    let x = register_from(instruction);
    let (_, y) = registers_from(instruction);
    let (_, kk) = register_and_value_from(instruction);
    let nnn = address_from(instruction);
    assert(instruction & 0x000F == instruction % 16) by (bit_vector);
    let n = (instruction & 0x000F) as u8;
    assert(instruction >> 12 == instruction / 4096) by (bit_vector);
    let family: u16 = instruction >> 12;
    let op = match family {
        0x0 => match instruction {
            0x00E0 => Some(Opcode::Cls),
            0x00EE => Some(Opcode::Ret),
            _ => None,
        },
        0x1 => Some(Opcode::Jp { nnn }),
        0x2 => Some(Opcode::Call { nnn }),
        0x3 => Some(Opcode::SeV { x, kk }),
        0x4 => Some(Opcode::SneV { x, kk }),
        0x5 => Some(Opcode::SeVV { x, y }),
        0x6 => Some(Opcode::LdV { x, kk }),
        0x7 => Some(Opcode::AddV { x, kk }),
        0x8 => decode_arithmetic(x, y, n),
        0x9 => Some(Opcode::SneVV { x, y }),
        0xA => Some(Opcode::LdI { nnn }),
        0xB => Some(Opcode::JpV0 { nnn }),
        0xC => Some(Opcode::RndV { x, kk }),
        0xD => Some(Opcode::DrwVV { x, y, n }),
        0xE => decode_key(x, kk),
        _ => decode_system(x, kk),
    };
    match op {
        Some(op) => Ok(op),
        None => Err(missing_instruction(instruction)),
    }
}

} // verus!
