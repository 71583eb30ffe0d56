//! The mathematical model of the interpreter: what the machine's state is,
//! and what each instruction and each step make of it.
//!
//! Nothing here is executable. The contracts of the executable interpreter
//! are stated over these definitions.

use vstd::prelude::*;
use crate::display::{blank_video, collides, drawn, is_video};
use crate::error::Chip8Error;
use crate::mmu::word_at;
use crate::opcode::{decoded, Opcode};

verus! {

/// The state of the machine.
#[verifier::ext_equal]
pub struct CpuState {
    /// The 4096 bytes of memory.
    pub memory: Seq<u8>,
    /// The registers `V0` to `VF`. `VF` doubles as the flag register.
    pub registers: Seq<u8>,
    /// The index register `I`.
    pub index: u16,
    /// The program counter.
    pub pc: u16,
    /// The return addresses of the subroutines being run, the oldest first.
    pub stack: Seq<u16>,
    /// The delay timer.
    pub delay_timer: u8,
    /// The sound timer.
    pub sound_timer: u8,
    /// For each of the sixteen keys, whether it is held down.
    pub keys: Seq<bool>,
    /// The framebuffer.
    pub video: Seq<u8>,
}

/// The least index of a key that is held down, if any key is.
pub open spec fn lowest_pressed(keys: Seq<bool>) -> Option<int> {
    if exists|k: int| 0 <= k < keys.len() && keys[k] {
        Some(
            choose|k: int|
                0 <= k < keys.len() && keys[k] && forall|j: int| 0 <= j < k ==> !keys[j],
        )
    } else {
        None
    }
}

/// A key that is held down while no key below it is, is the lowest one.
pub proof fn lemma_lowest_pressed(keys: Seq<bool>, k: int)
    requires
        0 <= k < keys.len(),
        keys[k],
        forall|j: int| 0 <= j < k ==> !keys[j],
    ensures
        lowest_pressed(keys) == Some(k),
{
}

/// Where no key is held down there is no lowest one.
pub proof fn lemma_none_pressed(keys: Seq<bool>)
    requires
        forall|j: int| 0 <= j < keys.len() ==> !keys[j],
    ensures
        lowest_pressed(keys) is None,
{
}

/// `a - b` in eight bits, wrapping around.
pub open spec fn wrapping_difference(a: u8, b: u8) -> u8 {
    if a >= b {
        (a - b) as u8
    } else {
        (a - b + 256) as u8
    }
}

/// `memory` with the three decimal digits of `value` at `index` and up,
/// hundreds first.
pub open spec fn with_digits(memory: Seq<u8>, index: int, value: u8) -> Seq<u8> {
    memory.update(index, value / 100).update(index + 1, (value / 10) % 10).update(
        index + 2,
        value % 10,
    )
}

/// `memory` with the first `count` registers copied to `index` and up.
pub open spec fn with_registers_stored(
    memory: Seq<u8>,
    registers: Seq<u8>,
    index: int,
    count: int,
) -> Seq<u8> {
    Seq::new(
        memory.len(),
        |a: int|
            if index <= a < index + count {
                registers[a - index]
            } else {
                memory[a]
            },
    )
}

/// `registers` with the first `count` of them loaded from `index` and up.
pub open spec fn with_registers_loaded(
    registers: Seq<u8>,
    memory: Seq<u8>,
    index: int,
    count: int,
) -> Seq<u8> {
    Seq::new(
        registers.len(),
        |r: int|
            if r < count {
                memory[index + r]
            } else {
                registers[r]
            },
    )
}

impl CpuState {
    /// The shape that every state of the machine has: 4096 bytes of memory,
    /// sixteen registers, sixteen keys, a framebuffer of 2048 cells that are
    /// 0 or 1, and at most sixteen return addresses, each the address of a
    /// call instruction with room in sixteen bits for the address after it.
    pub open spec fn wf(self) -> bool {
        &&& self.memory.len() == 4096
        &&& self.registers.len() == 16
        &&& self.keys.len() == 16
        &&& is_video(self.video)
        &&& self.stack.len() <= 16
        &&& forall|k: int| 0 <= k < self.stack.len() ==> #[trigger] self.stack[k] + 2 <= 0xFFFF
    }

    /// The state in which the interpreter starts on the memory `memory`:
    /// everything zero, no key held down, and the program counter at 512.
    pub open spec fn initial(memory: Seq<u8>) -> CpuState {
        CpuState {
            memory,
            registers: Seq::new(16, |r: int| 0u8),
            index: 0,
            pc: 512,
            stack: Seq::empty(),
            delay_timer: 0,
            sound_timer: 0,
            keys: Seq::new(16, |k: int| false),
            video: blank_video(),
        }
    }

    /// A whole instruction word lies inside memory at the program counter.
    pub open spec fn fetchable(self) -> bool {
        self.pc + 1 < 4096
    }

    /// The program counter can move on by `by` and still fit in its sixteen
    /// bits. It can by 2 and by 4 wherever an instruction is fetchable.
    pub open spec fn can_move(self, by: int) -> bool {
        self.pc + by <= 0xFFFF
    }

    /// The instruction word at the program counter.
    pub open spec fn fetched(self) -> Result<u16, Chip8Error> {
        if self.fetchable() {
            Ok(word_at(self.memory, self.pc as int) as u16)
        } else {
            Err(Chip8Error::OutOfBounds { address: self.pc as usize })
        }
    }

    /// Register `x`.
    pub open spec fn v(self, x: int) -> u8 {
        self.registers[x]
    }

    /// Whether the key whose index is `key` is held down. There are sixteen
    /// keys; a larger index names no key, and no key is not held down.
    pub open spec fn key_down(self, key: int) -> bool {
        0 <= key < 16 && self.keys[key]
    }

    /// The state with register `x` set to `value`.
    pub open spec fn with_v(self, x: int, value: u8) -> CpuState {
        CpuState { registers: self.registers.update(x, value), ..self }
    }

    /// The state with the program counter on the next instruction.
    pub open spec fn advanced(self) -> CpuState {
        CpuState { pc: (self.pc + 2) as u16, ..self }
    }

    /// The state with the program counter past the next instruction if
    /// `skip` holds, and on it otherwise.
    pub open spec fn skipped_if(self, skip: bool) -> CpuState {
        CpuState {
            pc: if skip {
                (self.pc + 4) as u16
            } else {
                (self.pc + 2) as u16
            },
            ..self
        }
    }

    /// Whether the access to `count` bytes at the index register leaves
    /// memory.
    pub open spec fn leaves_memory(self, count: int) -> bool {
        count > 0 && self.index + count > 4096
    }

    /// The error of an access at the index register that leaves memory.
    pub open spec fn index_out_of_bounds(self) -> Chip8Error {
        Chip8Error::OutOfBounds { address: self.index as usize }
    }

    /// `00E0`: every pixel goes off.
    pub open spec fn cls(self) -> CpuState {
        CpuState { video: blank_video(), ..self }.advanced()
    }

    /// `00EE`: the newest return address leaves the call stack, and the
    /// program counter goes to the instruction after the call it names.
    pub open spec fn ret(self) -> Result<CpuState, Chip8Error> {
        if self.stack.len() == 0 {
            Err(Chip8Error::StackUnderflow)
        } else {
            Ok(
                CpuState {
                    pc: (self.stack.last() + 2) as u16,
                    stack: self.stack.drop_last(),
                    ..self
                },
            )
        }
    }

    /// `1nnn`: the program counter goes to `nnn`.
    pub open spec fn jp(self, nnn: u16) -> CpuState {
        CpuState { pc: nnn, ..self }
    }

    /// `2nnn`: the program counter, which is on the call itself, goes onto
    /// the call stack, and then to `nnn`.
    pub open spec fn call(self, nnn: u16) -> Result<CpuState, Chip8Error> {
        if self.stack.len() >= 16 {
            Err(Chip8Error::StackOverflow)
        } else {
            Ok(CpuState { pc: nnn, stack: self.stack.push(self.pc), ..self })
        }
    }

    /// `3xkk`: skip if `Vx == kk`.
    pub open spec fn se_v(self, x: int, kk: u8) -> CpuState {
        self.skipped_if(self.v(x) == kk)
    }

    /// `4xkk`: skip if `Vx != kk`.
    pub open spec fn sne_v(self, x: int, kk: u8) -> CpuState {
        self.skipped_if(self.v(x) != kk)
    }

    /// `5xy0`: skip if `Vx == Vy`.
    pub open spec fn se_v_v(self, x: int, y: int) -> CpuState {
        self.skipped_if(self.v(x) == self.v(y))
    }

    /// `6xkk`: `Vx = kk`.
    pub open spec fn ld_v(self, x: int, kk: u8) -> CpuState {
        self.with_v(x, kk).advanced()
    }

    /// `7xkk`: `Vx = (Vx + kk) mod 256`. The flag register is not written.
    pub open spec fn add_v(self, x: int, kk: u8) -> CpuState {
        self.with_v(x, ((self.v(x) + kk) % 256) as u8).advanced()
    }

    /// `8xy0`: `Vx = Vy`.
    pub open spec fn ld_v_v(self, x: int, y: int) -> CpuState {
        self.with_v(x, self.v(y)).advanced()
    }

    /// `8xy1`: `Vx = Vx | Vy`.
    pub open spec fn or_v_v(self, x: int, y: int) -> CpuState {
        self.with_v(x, self.v(x) | self.v(y)).advanced()
    }

    /// `8xy2`: `Vx = Vx & Vy`.
    pub open spec fn and_v_v(self, x: int, y: int) -> CpuState {
        self.with_v(x, self.v(x) & self.v(y)).advanced()
    }

    /// `8xy3`: `Vx = Vx ^ Vy`.
    pub open spec fn xor_v_v(self, x: int, y: int) -> CpuState {
        self.with_v(x, self.v(x) ^ self.v(y)).advanced()
    }

    /// `8xy4`: `Vx = (Vx + Vy) mod 256`, and then `VF` is 1 if the sum was
    /// above 255 and 0 if not.
    pub open spec fn add_v_v(self, x: int, y: int) -> CpuState {
        let sum = self.v(x) + self.v(y);
        self.with_v(x, (sum % 256) as u8).with_v(
            0xF,
            if sum > 255 {
                1
            } else {
                0
            },
        ).advanced()
    }

    /// `8xy5`: `VF` is 1 if `Vx > Vy` and 0 if not, and then
    /// `Vx = (Vx - Vy) mod 256`.
    ///
    /// The flag is written first: where `x` or `y` is 15, the difference is
    /// taken of the registers as they stand after that.
    pub open spec fn sub_v_v(self, x: int, y: int) -> CpuState {
        let flagged = self.with_v(
            0xF,
            if self.v(x) > self.v(y) {
                1
            } else {
                0
            },
        );
        flagged.with_v(x, wrapping_difference(flagged.v(x), flagged.v(y))).advanced()
    }

    /// `8xy6`: `VF` is the lowest bit of `Vx`, and then `Vx` is halved.
    ///
    /// The flag is written first: where `x` is 15, it is the flag that is
    /// halved.
    pub open spec fn shr_v(self, x: int) -> CpuState {
        let flagged = self.with_v(0xF, self.v(x) % 2);
        flagged.with_v(x, flagged.v(x) / 2).advanced()
    }

    /// `8xy7`: `VF` is 1 if `Vy > Vx` and 0 if not, and then
    /// `Vx = (Vy - Vx) mod 256`.
    ///
    /// The flag is written first: where `x` or `y` is 15, the difference is
    /// taken of the registers as they stand after that.
    pub open spec fn subn_v_v(self, x: int, y: int) -> CpuState {
        let flagged = self.with_v(
            0xF,
            if self.v(y) > self.v(x) {
                1
            } else {
                0
            },
        );
        flagged.with_v(x, wrapping_difference(flagged.v(y), flagged.v(x))).advanced()
    }

    /// `8xyE`: `VF` is the highest bit of `Vx`, and then
    /// `Vx = (2 * Vx) mod 256`.
    ///
    /// The flag is written first: where `x` is 15, it is the flag that is
    /// doubled.
    pub open spec fn shl_v(self, x: int) -> CpuState {
        let flagged = self.with_v(0xF, self.v(x) / 128);
        flagged.with_v(x, ((flagged.v(x) * 2) % 256) as u8).advanced()
    }

    /// `9xy0`: skip if `Vx != Vy`.
    pub open spec fn sne_v_v(self, x: int, y: int) -> CpuState {
        self.skipped_if(self.v(x) != self.v(y))
    }

    /// `Annn`: `I = nnn`.
    pub open spec fn ld_i(self, nnn: u16) -> CpuState {
        CpuState { index: nnn, ..self }.advanced()
    }

    /// `Bnnn`: the program counter goes to `nnn + V0`.
    pub open spec fn jp_v0(self, nnn: u16) -> CpuState {
        CpuState { pc: (nnn + self.v(0)) as u16, ..self }
    }

    /// `Cxkk`: `Vx = kk & random`, where `random` is the byte that the
    /// random source yields.
    pub open spec fn rnd_v(self, x: int, kk: u8, random: u8) -> CpuState {
        self.with_v(x, kk & random).advanced()
    }

    /// `Dxyn`: the `n`-row sprite at `I` is drawn at `(Vx, Vy)`, and `VF` is
    /// 1 if that turned a pixel off and 0 if not. It fails, and draws
    /// nothing, if the sprite does not lie inside memory.
    pub open spec fn drw_vv(self, x: int, y: int, n: int) -> Result<CpuState, Chip8Error> {
        if self.leaves_memory(n) {
            Err(self.index_out_of_bounds())
        } else {
            let vx = self.v(x) as int;
            let vy = self.v(y) as int;
            let index = self.index as int;
            Ok(
                CpuState {
                    video: drawn(self.video, self.memory, index, vx, vy, n),
                    ..self
                }.with_v(
                    0xF,
                    if collides(self.video, self.memory, index, vx, vy, n) {
                        1
                    } else {
                        0
                    },
                ).advanced(),
            )
        }
    }

    /// `Ex9E`: skip if the key whose index is `Vx` is held down.
    pub open spec fn skp_v(self, x: int) -> CpuState {
        self.skipped_if(self.key_down(self.v(x) as int))
    }

    /// `ExA1`: skip if the key whose index is `Vx` is not held down.
    pub open spec fn sknp_v(self, x: int) -> CpuState {
        self.skipped_if(!self.key_down(self.v(x) as int))
    }

    /// `Fx07`: `Vx = delay timer`.
    pub open spec fn ld_v_dt(self, x: int) -> CpuState {
        self.with_v(x, self.delay_timer).advanced()
    }

    /// `Fx0A`: if a key is held down, `Vx` is the index of the lowest such
    /// key and the program counter moves on. If none is, nothing changes, so
    /// that the next step finds the same instruction.
    pub open spec fn ld_v_k(self, x: int) -> CpuState {
        match lowest_pressed(self.keys) {
            Some(key) => self.with_v(x, key as u8).advanced(),
            None => self,
        }
    }

    /// `Fx15`: `delay timer = Vx`.
    pub open spec fn ld_dt_v(self, x: int) -> CpuState {
        CpuState { delay_timer: self.v(x), ..self }.advanced()
    }

    /// `Fx18`: `sound timer = Vx`.
    pub open spec fn ld_st_v(self, x: int) -> CpuState {
        CpuState { sound_timer: self.v(x), ..self }.advanced()
    }

    /// `Fx1E`: `I = (I + Vx) mod 65536`. No flag is written.
    pub open spec fn add_i_v(self, x: int) -> CpuState {
        CpuState { index: ((self.index + self.v(x)) % 0x10000) as u16, ..self }.advanced()
    }

    /// `Fx29`: `I = 5 * Vx`, the address of the font glyph for the digit `Vx`.
    pub open spec fn ld_f_v(self, x: int) -> CpuState {
        CpuState { index: (self.v(x) * 5) as u16, ..self }.advanced()
    }

    /// `Fx33`: the hundreds, tens and ones of `Vx` go to `I`, `I + 1` and
    /// `I + 2`. It fails, and writes nothing, if these do not lie inside
    /// memory.
    pub open spec fn ld_b_v(self, x: int) -> Result<CpuState, Chip8Error> {
        if self.leaves_memory(3) {
            Err(self.index_out_of_bounds())
        } else {
            Ok(
                CpuState {
                    memory: with_digits(self.memory, self.index as int, self.v(x)),
                    ..self
                }.advanced(),
            )
        }
    }

    /// `Fx55`: `V0..=Vx` go to `I` and up. It fails, and writes nothing, if
    /// these `x + 1` bytes do not lie inside memory.
    pub open spec fn ld_i_v(self, x: int) -> Result<CpuState, Chip8Error> {
        if self.leaves_memory(x + 1) {
            Err(self.index_out_of_bounds())
        } else {
            Ok(
                CpuState {
                    memory: with_registers_stored(
                        self.memory,
                        self.registers,
                        self.index as int,
                        x + 1,
                    ),
                    ..self
                }.advanced(),
            )
        }
    }

    /// `Fx65`: `V0..=Vx` are read from `I` and up. It fails, and reads
    /// nothing, if these `x + 1` bytes do not lie inside memory.
    pub open spec fn ld_v_i(self, x: int) -> Result<CpuState, Chip8Error> {
        if self.leaves_memory(x + 1) {
            Err(self.index_out_of_bounds())
        } else {
            Ok(
                CpuState {
                    registers: with_registers_loaded(
                        self.registers,
                        self.memory,
                        self.index as int,
                        x + 1,
                    ),
                    ..self
                }.advanced(),
            )
        }
    }

    /// What executing `op` makes of the state, `random` being the byte that
    /// the random source yields. The program counter is on `op` itself.
    pub open spec fn executed(self, op: Opcode, random: u8) -> Result<CpuState, Chip8Error> {
        match op {
            Opcode::Cls => Ok(self.cls()),
            Opcode::Ret => self.ret(),
            Opcode::Jp { nnn } => Ok(self.jp(nnn)),
            Opcode::Call { nnn } => self.call(nnn),
            Opcode::SeV { x, kk } => Ok(self.se_v(x as int, kk)),
            Opcode::SneV { x, kk } => Ok(self.sne_v(x as int, kk)),
            Opcode::SeVV { x, y } => Ok(self.se_v_v(x as int, y as int)),
            Opcode::LdV { x, kk } => Ok(self.ld_v(x as int, kk)),
            Opcode::AddV { x, kk } => Ok(self.add_v(x as int, kk)),
            Opcode::LdVV { x, y } => Ok(self.ld_v_v(x as int, y as int)),
            Opcode::OrVV { x, y } => Ok(self.or_v_v(x as int, y as int)),
            Opcode::AndVV { x, y } => Ok(self.and_v_v(x as int, y as int)),
            Opcode::XorVV { x, y } => Ok(self.xor_v_v(x as int, y as int)),
            Opcode::AddVV { x, y } => Ok(self.add_v_v(x as int, y as int)),
            Opcode::SubVV { x, y } => Ok(self.sub_v_v(x as int, y as int)),
            Opcode::ShrV { x } => Ok(self.shr_v(x as int)),
            Opcode::SubnVV { x, y } => Ok(self.subn_v_v(x as int, y as int)),
            Opcode::ShlV { x } => Ok(self.shl_v(x as int)),
            Opcode::SneVV { x, y } => Ok(self.sne_v_v(x as int, y as int)),
            Opcode::LdI { nnn } => Ok(self.ld_i(nnn)),
            Opcode::JpV0 { nnn } => Ok(self.jp_v0(nnn)),
            Opcode::RndV { x, kk } => Ok(self.rnd_v(x as int, kk, random)),
            Opcode::DrwVV { x, y, n } => self.drw_vv(x as int, y as int, n as int),
            Opcode::SkpV { x } => Ok(self.skp_v(x as int)),
            Opcode::SknpV { x } => Ok(self.sknp_v(x as int)),
            Opcode::LdVDt { x } => Ok(self.ld_v_dt(x as int)),
            Opcode::LdVK { x } => Ok(self.ld_v_k(x as int)),
            Opcode::LdDtV { x } => Ok(self.ld_dt_v(x as int)),
            Opcode::LdStV { x } => Ok(self.ld_st_v(x as int)),
            Opcode::AddIV { x } => Ok(self.add_i_v(x as int)),
            Opcode::LdFV { x } => Ok(self.ld_f_v(x as int)),
            Opcode::LdBV { x } => self.ld_b_v(x as int),
            Opcode::LdIV { x } => self.ld_i_v(x as int),
            Opcode::LdVI { x } => self.ld_v_i(x as int),
        }
    }

    /// Whether `res` and the state `after` are what a fallible operation
    /// owes when the model gives `expected` for the state `self`: on
    /// success the new state, on failure the error and the state untouched.
    pub open spec fn yields(
        self,
        expected: Result<CpuState, Chip8Error>,
        after: CpuState,
        res: Result<(), Chip8Error>,
    ) -> bool {
        match expected {
            Ok(state) => res == Ok::<(), Chip8Error>(()) && after =~= state,
            Err(error) => res == Err::<(), Chip8Error>(error) && after =~= self,
        }
    }

    /// Whether this step of the timers ends a tone: the sound timer is on
    /// its last tick.
    pub open spec fn tone_boundary(self) -> bool {
        self.sound_timer == 1
    }

    /// The state after one tick of the timers: each goes down by one unless
    /// it is zero.
    pub open spec fn ticked(self) -> CpuState {
        CpuState {
            delay_timer: if self.delay_timer > 0 {
                (self.delay_timer - 1) as u8
            } else {
                0
            },
            sound_timer: if self.sound_timer > 0 {
                (self.sound_timer - 1) as u8
            } else {
                0
            },
            ..self
        }
    }

    /// What one step makes of the state: the word at the program counter is
    /// fetched, decoded and executed, and then the timers tick. The second
    /// part of the result says whether the tick ended a tone.
    pub open spec fn stepped(self, random: u8) -> Result<(CpuState, bool), Chip8Error> {
        match self.fetched() {
            Err(error) => Err(error),
            Ok(word) => match decoded(word) {
                None => Err(Chip8Error::UnimplementedInstruction { instruction: word }),
                Some(op) => match self.executed(op, random) {
                    Err(error) => Err(error),
                    Ok(state) => Ok((state.ticked(), state.tone_boundary())),
                },
            },
        }
    }

    /// Whether `res` and the state `after` are what a step owes when it
    /// starts in the state `self` and the random source yields `random`: on
    /// success the new state and the tone signal, on failure the error and
    /// the state untouched.
    pub open spec fn steps_to(
        self,
        random: u8,
        after: CpuState,
        res: Result<bool, Chip8Error>,
    ) -> bool {
        match self.stepped(random) {
            Ok((state, tone)) => res == Ok::<bool, Chip8Error>(tone) && after =~= state,
            Err(error) => res == Err::<bool, Chip8Error>(error) && after =~= self,
        }
    }

    /// Whether the next step draws a byte from the random source: the word
    /// at the program counter is a `Cxkk`.
    pub open spec fn draws_random(self) -> bool {
        self.fetched() matches Ok(word) && decoded(word) matches Some(Opcode::RndV { .. })
    }
}

} // verus!
