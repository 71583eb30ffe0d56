//! The instruction interpreter.

use vstd::prelude::*;
use crate::display::{draw_sprite, is_video, VIDEO_SIZE};
use crate::error::Chip8Error;
use crate::machine::{
    lemma_lowest_pressed, lemma_none_pressed, lowest_pressed, with_registers_loaded,
    with_registers_stored, CpuState,
};
use crate::mmu::{Mmu, MEMORY_SIZE, PROGRAM_START};
use crate::opcode::{decode, Opcode};
use crate::random::random_byte;

verus! {

/// Number of registers, of keys, and of return addresses that the call stack
/// holds.
pub const BANK_SIZE: usize = 16;

/// Index of the register that receives carry, borrow and collision flags.
pub const FLAG: usize = 0xF;

/// The interpreter: the memory unit it owns, and the state that the
/// instructions see.
///
/// `step` runs the machine. Every instruction also has a method of its own,
/// to which `execute` dispatches. Those that move the program counter on
/// require that it can move that far and still fit in its sixteen bits, as
/// it can whenever the instruction was fetched from memory.
pub struct Cpu {
    mmu: Mmu,
    registers: Vec<u8>,
    stack: Vec<u16>,
    video: Vec<u8>,
    input: Vec<bool>,
    delay_timer: u8,
    sound_timer: u8,
    sp: u16,
    pc: u16,
    i: u16,
}

impl Cpu {
    #[verifier::type_invariant]
    spec fn inv(&self) -> bool {
        &&& self.registers@.len() == 16
        &&& self.stack@.len() == 16
        &&& self.input@.len() == 16
        &&& is_video(self.video@)
        &&& self.sp <= 16
        &&& forall|k: int| 0 <= k < self.sp ==> #[trigger] self.stack@[k] + 2 <= 0xFFFF
    }

    /// The state of the machine. Of the call stack it holds the return
    /// addresses in use.
    pub closed spec fn view(&self) -> CpuState {
        CpuState {
            memory: self.mmu@,
            registers: self.registers@,
            index: self.i,
            pc: self.pc,
            stack: self.stack@.take(self.sp as int),
            delay_timer: self.delay_timer,
            sound_timer: self.sound_timer,
            keys: self.input@,
            video: self.video@,
        }
    }

    /// An interpreter on the memory unit `mmu`, about to run the program
    /// that it holds.
    pub fn new(mmu: Mmu) -> (cpu: Cpu)
        ensures
            cpu@ == CpuState::initial(mmu@),
            cpu@.wf(),
    {
        proof {
            use_type_invariant(&mmu);
        }
        Cpu {
            mmu,
            registers: vec![0u8; BANK_SIZE],
            stack: vec![0u16; BANK_SIZE],
            video: vec![0u8; VIDEO_SIZE],
            input: vec![false; BANK_SIZE],
            delay_timer: 0,
            sound_timer: 0,
            sp: 0,
            pc: PROGRAM_START as u16,
            i: 0,
        }
    }

    /// `00E0`: clears the framebuffer.
    pub fn cls(&mut self)
        requires
            old(self)@.can_move(2),
        ensures
            final(self)@ == old(self)@.cls(),
            final(self)@.wf(),
    {
        proof {
            use_type_invariant(&*self);
            use_type_invariant(&self.mmu);
        }
        self.video = vec![0u8; VIDEO_SIZE];
        self.pc += 2;
    }

    /// `00EE`: returns from a subroutine.
    pub fn ret(&mut self) -> (res: Result<(), Chip8Error>)
        ensures
            old(self)@.yields(old(self)@.ret(), final(self)@, res),
            final(self)@.wf(),
    {
        proof {
            use_type_invariant(&*self);
            use_type_invariant(&self.mmu);
        }
        if self.sp == 0 {
            return Err(Chip8Error::StackUnderflow);
        }
        self.sp -= 1;
        self.pc = self.stack[self.sp as usize] + 2;
        Ok(())
    }

    /// `1nnn`: jumps to `nnn`.
    pub fn jp(&mut self, nnn: u16)
        ensures
            final(self)@ == old(self)@.jp(nnn),
            final(self)@.wf(),
    {
        proof {
            use_type_invariant(&*self);
            use_type_invariant(&self.mmu);
        }
        self.pc = nnn;
    }

    /// `2nnn`: calls the subroutine at `nnn`.
    pub fn call(&mut self, nnn: u16) -> (res: Result<(), Chip8Error>)
        requires
            old(self)@.can_move(2),
        ensures
            old(self)@.yields(old(self)@.call(nnn), final(self)@, res),
            final(self)@.wf(),
    {
        proof {
            use_type_invariant(&*self);
            use_type_invariant(&self.mmu);
        }
        if self.sp as usize >= BANK_SIZE {
            return Err(Chip8Error::StackOverflow);
        }
        self.stack[self.sp as usize] = self.pc;
        self.sp += 1;
        self.pc = nnn;
        Ok(())
    }

    /// `3xkk`: skips the next instruction if `Vx == kk`.
    pub fn se_v(&mut self, x: usize, kk: u8)
        requires
            x < 16,
            old(self)@.can_move(4),
        ensures
            final(self)@ == old(self)@.se_v(x as int, kk),
            final(self)@.wf(),
    {
        proof {
            use_type_invariant(&*self);
            use_type_invariant(&self.mmu);
        }
        if self.registers[x] == kk {
            self.pc += 4;
        } else {
            self.pc += 2;
        }
    }

    /// `4xkk`: skips the next instruction if `Vx != kk`.
    pub fn sne_v(&mut self, x: usize, kk: u8)
        requires
            x < 16,
            old(self)@.can_move(4),
        ensures
            final(self)@ == old(self)@.sne_v(x as int, kk),
            final(self)@.wf(),
    {
        proof {
            use_type_invariant(&*self);
            use_type_invariant(&self.mmu);
        }
        if self.registers[x] != kk {
            self.pc += 4;
        } else {
            self.pc += 2;
        }
    }

    /// `5xy0`: skips the next instruction if `Vx == Vy`.
    pub fn se_v_v(&mut self, x: usize, y: usize)
        requires
            x < 16,
            y < 16,
            old(self)@.can_move(4),
        ensures
            final(self)@ == old(self)@.se_v_v(x as int, y as int),
            final(self)@.wf(),
    {
        proof {
            use_type_invariant(&*self);
            use_type_invariant(&self.mmu);
        }
        if self.registers[x] == self.registers[y] {
            self.pc += 4;
        } else {
            self.pc += 2;
        }
    }

    /// `6xkk`: sets `Vx` to `kk`.
    pub fn ld_v(&mut self, x: usize, kk: u8)
        requires
            x < 16,
            old(self)@.can_move(2),
        ensures
            final(self)@ == old(self)@.ld_v(x as int, kk),
            final(self)@.wf(),
    {
        proof {
            use_type_invariant(&*self);
            use_type_invariant(&self.mmu);
        }
        self.registers[x] = kk;
        self.pc += 2;
    }

    /// `7xkk`: adds `kk` to `Vx`, wrapping around, and leaves the flag register
    /// alone.
    pub fn add_v(&mut self, x: usize, kk: u8)
        requires
            x < 16,
            old(self)@.can_move(2),
        ensures
            final(self)@ == old(self)@.add_v(x as int, kk),
            final(self)@.wf(),
    {
        proof {
            use_type_invariant(&*self);
            use_type_invariant(&self.mmu);
        }
        self.registers[x] = self.registers[x].wrapping_add(kk);
        self.pc += 2;
    }

    /// `8xy0`: sets `Vx` to `Vy`.
    pub fn ld_v_v(&mut self, x: usize, y: usize)
        requires
            x < 16,
            y < 16,
            old(self)@.can_move(2),
        ensures
            final(self)@ == old(self)@.ld_v_v(x as int, y as int),
            final(self)@.wf(),
    {
        proof {
            use_type_invariant(&*self);
            use_type_invariant(&self.mmu);
        }
        self.registers[x] = self.registers[y];
        self.pc += 2;
    }

    /// `8xy1`: sets `Vx` to `Vx | Vy`.
    pub fn or_v_v(&mut self, x: usize, y: usize)
        requires
            x < 16,
            y < 16,
            old(self)@.can_move(2),
        ensures
            final(self)@ == old(self)@.or_v_v(x as int, y as int),
            final(self)@.wf(),
    {
        proof {
            use_type_invariant(&*self);
            use_type_invariant(&self.mmu);
        }
        self.registers[x] = self.registers[x] | self.registers[y];
        self.pc += 2;
    }

    /// `8xy2`: sets `Vx` to `Vx & Vy`.
    pub fn and_v_v(&mut self, x: usize, y: usize)
        requires
            x < 16,
            y < 16,
            old(self)@.can_move(2),
        ensures
            final(self)@ == old(self)@.and_v_v(x as int, y as int),
            final(self)@.wf(),
    {
        proof {
            use_type_invariant(&*self);
            use_type_invariant(&self.mmu);
        }
        self.registers[x] = self.registers[x] & self.registers[y];
        self.pc += 2;
    }

    /// `8xy3`: sets `Vx` to `Vx ^ Vy`.
    pub fn xor_v_v(&mut self, x: usize, y: usize)
        requires
            x < 16,
            y < 16,
            old(self)@.can_move(2),
        ensures
            final(self)@ == old(self)@.xor_v_v(x as int, y as int),
            final(self)@.wf(),
    {
        proof {
            use_type_invariant(&*self);
            use_type_invariant(&self.mmu);
        }
        self.registers[x] = self.registers[x] ^ self.registers[y];
        self.pc += 2;
    }

    /// `8xy4`: adds `Vy` to `Vx`, wrapping around, and then sets `VF` to the
    /// carry.
    pub fn add_v_v(&mut self, x: usize, y: usize)
        requires
            x < 16,
            y < 16,
            old(self)@.can_move(2),
        ensures
            final(self)@ == old(self)@.add_v_v(x as int, y as int),
            final(self)@.wf(),
    {
        proof {
            use_type_invariant(&*self);
            use_type_invariant(&self.mmu);
        }
        let augend = self.registers[x];
        let sum = augend.wrapping_add(self.registers[y]);
        self.registers[x] = sum;
        if augend > sum {
            self.registers[FLAG] = 1;
        } else {
            self.registers[FLAG] = 0;
        }
        self.pc += 2;
    }

    /// `8xy5`: sets `VF` to 1 if `Vx > Vy` and to 0 if not, and then subtracts
    /// `Vy` from `Vx`, wrapping around.
    pub fn sub_v_v(&mut self, x: usize, y: usize)
        requires
            x < 16,
            y < 16,
            old(self)@.can_move(2),
        ensures
            final(self)@ == old(self)@.sub_v_v(x as int, y as int),
            final(self)@.wf(),
    {
        proof {
            use_type_invariant(&*self);
            use_type_invariant(&self.mmu);
        }
        if self.registers[x] > self.registers[y] {
            self.registers[FLAG] = 1;
        } else {
            self.registers[FLAG] = 0;
        }
        self.registers[x] = self.registers[x].wrapping_sub(self.registers[y]);
        self.pc += 2;
    }

    /// `8xy6`: sets `VF` to the lowest bit of `Vx`, and then shifts `Vx` right
    /// by one.
    pub fn shr_v(&mut self, x: usize)
        requires
            x < 16,
            old(self)@.can_move(2),
        ensures
            final(self)@ == old(self)@.shr_v(x as int),
            final(self)@.wf(),
    {
        proof {
            use_type_invariant(&*self);
            use_type_invariant(&self.mmu);
        }
        let value = self.registers[x];
        assert(value & 0x1 == value % 2) by (bit_vector);
        self.registers[FLAG] = value & 0x1;
        let flagged = self.registers[x];
        assert(flagged >> 1 == flagged / 2) by (bit_vector);
        self.registers[x] = flagged >> 1;
        self.pc += 2;
    }

    /// `8xy7`: sets `VF` to 1 if `Vy > Vx` and to 0 if not, and then sets `Vx`
    /// to `Vy - Vx`, wrapping around.
    pub fn subn_v_v(&mut self, x: usize, y: usize)
        requires
            x < 16,
            y < 16,
            old(self)@.can_move(2),
        ensures
            final(self)@ == old(self)@.subn_v_v(x as int, y as int),
            final(self)@.wf(),
    {
        proof {
            use_type_invariant(&*self);
            use_type_invariant(&self.mmu);
        }
        if self.registers[y] > self.registers[x] {
            self.registers[FLAG] = 1;
        } else {
            self.registers[FLAG] = 0;
        }
        self.registers[x] = self.registers[y].wrapping_sub(self.registers[x]);
        self.pc += 2;
    }

    /// `8xyE`: sets `VF` to the highest bit of `Vx`, and then shifts `Vx` left
    /// by one.
    pub fn shl_v(&mut self, x: usize)
        requires
            x < 16,
            old(self)@.can_move(2),
        ensures
            final(self)@ == old(self)@.shl_v(x as int),
            final(self)@.wf(),
    {
        proof {
            use_type_invariant(&*self);
            use_type_invariant(&self.mmu);
        }
        let value = self.registers[x];
        assert(value >> 7 == value / 128) by (bit_vector);
        self.registers[FLAG] = value >> 7;
        let flagged = self.registers[x];
        assert(flagged << 1 == (flagged * 2) % 256) by (bit_vector);
        self.registers[x] = flagged << 1;
        self.pc += 2;
    }

    /// `9xy0`: skips the next instruction if `Vx != Vy`.
    pub fn sne_v_v(&mut self, x: usize, y: usize)
        requires
            x < 16,
            y < 16,
            old(self)@.can_move(4),
        ensures
            final(self)@ == old(self)@.sne_v_v(x as int, y as int),
            final(self)@.wf(),
    {
        proof {
            use_type_invariant(&*self);
            use_type_invariant(&self.mmu);
        }
        if self.registers[x] != self.registers[y] {
            self.pc += 4;
        } else {
            self.pc += 2;
        }
    }

    /// `Annn`: sets `I` to `nnn`.
    pub fn ld_i(&mut self, nnn: u16)
        requires
            old(self)@.can_move(2),
        ensures
            final(self)@ == old(self)@.ld_i(nnn),
            final(self)@.wf(),
    {
        proof {
            use_type_invariant(&*self);
            use_type_invariant(&self.mmu);
        }
        self.i = nnn;
        self.pc += 2;
    }

    /// `Bnnn`: jumps to `nnn + V0`.
    pub fn jp_v0(&mut self, nnn: u16)
        requires
            nnn < 4096,
        ensures
            final(self)@ == old(self)@.jp_v0(nnn),
            final(self)@.wf(),
    {
        proof {
            use_type_invariant(&*self);
            use_type_invariant(&self.mmu);
        }
        self.pc = nnn + self.registers[0] as u16;
    }

    /// `Cxkk`: sets `Vx` to `kk & random`, where `random` is a byte drawn from
    /// the random source.
    pub fn rnd_v(&mut self, x: usize, kk: u8, random: u8)
        requires
            x < 16,
            old(self)@.can_move(2),
        ensures
            final(self)@ == old(self)@.rnd_v(x as int, kk, random),
            final(self)@.wf(),
    {
        proof {
            use_type_invariant(&*self);
            use_type_invariant(&self.mmu);
        }
        self.registers[x] = kk & random;
        self.pc += 2;
    }

    /// `Dxyn`: draws the `n`-row sprite at `I` to `(Vx, Vy)` and sets `VF` to 1
    /// if that turned a pixel off, and to 0 if not.
    pub fn drw_vv(&mut self, x: usize, y: usize, n: u8) -> (res: Result<(), Chip8Error>)
        requires
            x < 16,
            y < 16,
            n < 16,
            old(self)@.can_move(2),
        ensures
            old(self)@.yields(old(self)@.drw_vv(x as int, y as int, n as int), final(self)@, res),
            final(self)@.wf(),
    {
        proof {
            use_type_invariant(&*self);
            use_type_invariant(&self.mmu);
        }
        let start = self.i as usize;
        if n > 0 && start + n as usize > MEMORY_SIZE {
            return Err(Chip8Error::OutOfBounds { address: start });
        }
        let vx = self.registers[x];
        let vy = self.registers[y];
        let collision = draw_sprite(&mut self.video, &self.mmu, start, vx, vy, n);
        if collision {
            self.registers[FLAG] = 1;
        } else {
            self.registers[FLAG] = 0;
        }
        self.pc += 2;
        Ok(())
    }

    /// `Ex9E`: skips the next instruction if the key whose index is `Vx` is
    /// held down.
    pub fn skp_v(&mut self, x: usize)
        requires
            x < 16,
            old(self)@.can_move(4),
        ensures
            final(self)@ == old(self)@.skp_v(x as int),
            final(self)@.wf(),
    {
        proof {
            use_type_invariant(&*self);
            use_type_invariant(&self.mmu);
        }
        let key = self.registers[x] as usize;
        if key < BANK_SIZE && self.input[key] {
            self.pc += 4;
        } else {
            self.pc += 2;
        }
    }

    /// `ExA1`: skips the next instruction if the key whose index is `Vx` is
    /// not held down.
    pub fn sknp_v(&mut self, x: usize)
        requires
            x < 16,
            old(self)@.can_move(4),
        ensures
            final(self)@ == old(self)@.sknp_v(x as int),
            final(self)@.wf(),
    {
        proof {
            use_type_invariant(&*self);
            use_type_invariant(&self.mmu);
        }
        let key = self.registers[x] as usize;
        if !(key < BANK_SIZE && self.input[key]) {
            self.pc += 4;
        } else {
            self.pc += 2;
        }
    }

    /// `Fx07`: sets `Vx` to the delay timer.
    pub fn ld_v_dt(&mut self, x: usize)
        requires
            x < 16,
            old(self)@.can_move(2),
        ensures
            final(self)@ == old(self)@.ld_v_dt(x as int),
            final(self)@.wf(),
    {
        proof {
            use_type_invariant(&*self);
            use_type_invariant(&self.mmu);
        }
        self.registers[x] = self.delay_timer;
        self.pc += 2;
    }

    /// The index of the lowest key that is held down, if any is.
    pub fn pressed_key(&self) -> (key: Option<u8>)
        ensures
            lowest_pressed(self@.keys) == match key {
                Some(k) => Some(k as int),
                None => None::<int>,
            },
    {
        proof {
            use_type_invariant(self);
        }
        let mut key: u8 = 0;
        while key < 16
            invariant
                key <= 16,
                self.input@.len() == 16,
                forall|j: int| 0 <= j < key ==> !self.input@[j],
            decreases 16 - key,
        {
            if self.input[key as usize] {
                proof {
                    lemma_lowest_pressed(self.input@, key as int);
                }
                return Some(key);
            }
            key += 1;
        }
        proof {
            lemma_none_pressed(self.input@);
        }
        None
    }

    /// `Fx0A`: waits for a key. If a key is held down, sets `Vx` to the index
    /// of the lowest such key and moves on; if none is, changes nothing, so
    /// that the next step finds this instruction again.
    pub fn ld_v_k(&mut self, x: usize)
        requires
            x < 16,
            old(self)@.can_move(2),
        ensures
            final(self)@ == old(self)@.ld_v_k(x as int),
            final(self)@.wf(),
    {
        proof {
            use_type_invariant(&*self);
            use_type_invariant(&self.mmu);
        }
        match self.pressed_key() {
            Some(key) => {
                self.registers[x] = key;
                self.pc += 2;
            },
            None => {},
        }
    }

    /// `Fx15`: sets the delay timer to `Vx`.
    pub fn ld_dt_v(&mut self, x: usize)
        requires
            x < 16,
            old(self)@.can_move(2),
        ensures
            final(self)@ == old(self)@.ld_dt_v(x as int),
            final(self)@.wf(),
    {
        proof {
            use_type_invariant(&*self);
            use_type_invariant(&self.mmu);
        }
        self.delay_timer = self.registers[x];
        self.pc += 2;
    }

    /// `Fx18`: sets the sound timer to `Vx`.
    pub fn ld_st_v(&mut self, x: usize)
        requires
            x < 16,
            old(self)@.can_move(2),
        ensures
            final(self)@ == old(self)@.ld_st_v(x as int),
            final(self)@.wf(),
    {
        proof {
            use_type_invariant(&*self);
            use_type_invariant(&self.mmu);
        }
        self.sound_timer = self.registers[x];
        self.pc += 2;
    }

    /// `Fx1E`: adds `Vx` to `I`, wrapping around at sixteen bits.
    pub fn add_i_v(&mut self, x: usize)
        requires
            x < 16,
            old(self)@.can_move(2),
        ensures
            final(self)@ == old(self)@.add_i_v(x as int),
            final(self)@.wf(),
    {
        proof {
            use_type_invariant(&*self);
            use_type_invariant(&self.mmu);
        }
        self.i = self.i.wrapping_add(self.registers[x] as u16);
        self.pc += 2;
    }

    /// `Fx29`: sets `I` to the address of the font glyph for the digit `Vx`.
    pub fn ld_f_v(&mut self, x: usize)
        requires
            x < 16,
            old(self)@.can_move(2),
        ensures
            final(self)@ == old(self)@.ld_f_v(x as int),
            final(self)@.wf(),
    {
        proof {
            use_type_invariant(&*self);
            use_type_invariant(&self.mmu);
        }
        self.i = self.registers[x] as u16 * 5;
        self.pc += 2;
    }

    /// `Fx33`: stores the hundreds, tens and ones of `Vx` at `I`, `I + 1` and
    /// `I + 2`.
    pub fn ld_b_v(&mut self, x: usize) -> (res: Result<(), Chip8Error>)
        requires
            x < 16,
            old(self)@.can_move(2),
        ensures
            old(self)@.yields(old(self)@.ld_b_v(x as int), final(self)@, res),
            final(self)@.wf(),
    {
        proof {
            use_type_invariant(&*self);
            use_type_invariant(&self.mmu);
        }
        let start = self.i as usize;
        if start + 3 > MEMORY_SIZE {
            return Err(Chip8Error::OutOfBounds { address: start });
        }
        let value = self.registers[x];
        let _ = self.mmu.write_byte(start, value / 100);
        let _ = self.mmu.write_byte(start + 1, (value / 10) % 10);
        let _ = self.mmu.write_byte(start + 2, (value % 100) % 10);
        self.pc += 2;
        Ok(())
    }

    /// `Fx55`: stores `V0..=Vx` at `I` and up.
    pub fn ld_i_v(&mut self, x: usize) -> (res: Result<(), Chip8Error>)
        requires
            x < 16,
            old(self)@.can_move(2),
        ensures
            old(self)@.yields(old(self)@.ld_i_v(x as int), final(self)@, res),
            final(self)@.wf(),
    {
        proof {
            use_type_invariant(&*self);
            use_type_invariant(&self.mmu);
        }
        let start = self.i as usize;
        if start + x + 1 > MEMORY_SIZE {
            return Err(Chip8Error::OutOfBounds { address: start });
        }
        store_registers(&mut self.mmu, &self.registers, start, x + 1);
        self.pc += 2;
        Ok(())
    }

    /// `Fx65`: loads `V0..=Vx` from `I` and up.
    pub fn ld_v_i(&mut self, x: usize) -> (res: Result<(), Chip8Error>)
        requires
            x < 16,
            old(self)@.can_move(2),
        ensures
            old(self)@.yields(old(self)@.ld_v_i(x as int), final(self)@, res),
            final(self)@.wf(),
    {
        proof {
            use_type_invariant(&*self);
            use_type_invariant(&self.mmu);
        }
        let start = self.i as usize;
        if start + x + 1 > MEMORY_SIZE {
            return Err(Chip8Error::OutOfBounds { address: start });
        }
        load_registers(&mut self.registers, &self.mmu, start, x + 1);
        self.pc += 2;
        Ok(())
    }

    /// Executes the instruction `op`, on which the program counter stands.
    /// `random` is the byte that the random source yields for it.
    pub fn execute(&mut self, op: Opcode, random: u8) -> (res: Result<(), Chip8Error>)
        requires
            op.wf(),
            old(self)@.can_move(4),
        ensures
            old(self)@.yields(old(self)@.executed(op, random), final(self)@, res),
            final(self)@.wf(),
    {
        match op {
            Opcode::Cls => {
                self.cls();
                Ok(())
            },
            Opcode::Ret => self.ret(),
            Opcode::Jp { nnn } => {
                self.jp(nnn);
                Ok(())
            },
            Opcode::Call { nnn } => self.call(nnn),
            Opcode::SeV { x, kk } => {
                self.se_v(x, kk);
                Ok(())
            },
            Opcode::SneV { x, kk } => {
                self.sne_v(x, kk);
                Ok(())
            },
            Opcode::SeVV { x, y } => {
                self.se_v_v(x, y);
                Ok(())
            },
            Opcode::LdV { x, kk } => {
                self.ld_v(x, kk);
                Ok(())
            },
            Opcode::AddV { x, kk } => {
                self.add_v(x, kk);
                Ok(())
            },
            Opcode::LdVV { x, y } => {
                self.ld_v_v(x, y);
                Ok(())
            },
            Opcode::OrVV { x, y } => {
                self.or_v_v(x, y);
                Ok(())
            },
            Opcode::AndVV { x, y } => {
                self.and_v_v(x, y);
                Ok(())
            },
            Opcode::XorVV { x, y } => {
                self.xor_v_v(x, y);
                Ok(())
            },
            Opcode::AddVV { x, y } => {
                self.add_v_v(x, y);
                Ok(())
            },
            Opcode::SubVV { x, y } => {
                self.sub_v_v(x, y);
                Ok(())
            },
            Opcode::ShrV { x } => {
                self.shr_v(x);
                Ok(())
            },
            Opcode::SubnVV { x, y } => {
                self.subn_v_v(x, y);
                Ok(())
            },
            Opcode::ShlV { x } => {
                self.shl_v(x);
                Ok(())
            },
            Opcode::SneVV { x, y } => {
                self.sne_v_v(x, y);
                Ok(())
            },
            Opcode::LdI { nnn } => {
                self.ld_i(nnn);
                Ok(())
            },
            Opcode::JpV0 { nnn } => {
                self.jp_v0(nnn);
                Ok(())
            },
            Opcode::RndV { x, kk } => {
                self.rnd_v(x, kk, random);
                Ok(())
            },
            Opcode::DrwVV { x, y, n } => self.drw_vv(x, y, n),
            Opcode::SkpV { x } => {
                self.skp_v(x);
                Ok(())
            },
            Opcode::SknpV { x } => {
                self.sknp_v(x);
                Ok(())
            },
            Opcode::LdVDt { x } => {
                self.ld_v_dt(x);
                Ok(())
            },
            Opcode::LdVK { x } => {
                self.ld_v_k(x);
                Ok(())
            },
            Opcode::LdDtV { x } => {
                self.ld_dt_v(x);
                Ok(())
            },
            Opcode::LdStV { x } => {
                self.ld_st_v(x);
                Ok(())
            },
            Opcode::AddIV { x } => {
                self.add_i_v(x);
                Ok(())
            },
            Opcode::LdFV { x } => {
                self.ld_f_v(x);
                Ok(())
            },
            Opcode::LdBV { x } => self.ld_b_v(x),
            Opcode::LdIV { x } => self.ld_i_v(x),
            Opcode::LdVI { x } => self.ld_v_i(x),
        }
    }

    /// Reads the instruction word at the program counter.
    pub fn fetch(&self) -> (res: Result<u16, Chip8Error>)
        ensures
            res == self@.fetched(),
    {
        self.mmu.read_word(self.pc as usize)
    }

    /// Ticks the timers: each goes down by one unless it is zero. Says
    /// whether the tick ended a tone, which it does when it takes the sound
    /// timer from 1 to 0.
    pub fn tick(&mut self) -> (tone_boundary: bool)
        ensures
            final(self)@ == old(self)@.ticked(),
            tone_boundary == old(self)@.tone_boundary(),
            final(self)@.wf(),
    {
        proof {
            use_type_invariant(&*self);
            use_type_invariant(&self.mmu);
        }
        if self.delay_timer > 0 {
            self.delay_timer -= 1;
        }
        let mut tone_boundary = false;
        if self.sound_timer > 0 {
            if self.sound_timer == 1 {
                tone_boundary = true;
            }
            self.sound_timer -= 1;
        }
        tone_boundary
    }

    /// One step with `random` as the byte that the random source yields:
    /// fetches the word at the program counter, decodes and executes it, and
    /// ticks the timers. On success, says whether the tick ended a tone. On
    /// failure the machine is left untouched.
    pub fn step_with(&mut self, random: u8) -> (res: Result<bool, Chip8Error>)
        ensures
            old(self)@.steps_to(random, final(self)@, res),
            final(self)@.wf(),
    {
        proof {
            use_type_invariant(&*self);
            use_type_invariant(&self.mmu);
        }
        let word = match self.fetch() {
            Ok(word) => word,
            Err(error) => {
                return Err(error);
            },
        };
        let op = match decode(word) {
            Ok(op) => op,
            Err(error) => {
                return Err(error);
            },
        };
        match self.execute(op, random) {
            Ok(()) => {},
            Err(error) => {
                return Err(error);
            },
        }
        Ok(self.tick())
    }

    /// One step: fetches the word at the program counter, decodes and
    /// executes it, and ticks the timers. On success, says whether the tick
    /// ended a tone. On failure the machine is left untouched.
    ///
    /// Where the word is a `Cxkk`, its random byte is drawn from the
    /// generator of the calling thread, so the step is that of `step_with`
    /// for some byte. Where it is not, no byte is drawn, and the step is
    /// that of `step_with` for any byte.
    pub fn step(&mut self) -> (res: Result<bool, Chip8Error>)
        ensures
            exists|random: u8| #[trigger] old(self)@.steps_to(random, final(self)@, res),
            !old(self)@.draws_random() ==> forall|random: u8| #[trigger]
                old(self)@.steps_to(random, final(self)@, res),
            final(self)@.wf(),
    {
        let random = match self.fetch() {
            Ok(word) => match decode(word) {
                Ok(Opcode::RndV { .. }) => random_byte(),
                _ => 0,
            },
            Err(_) => 0,
        };
        self.step_with(random)
    }

    /// The program counter.
    pub fn pc(&self) -> (pc: u16)
        ensures
            pc == self@.pc,
    {
        self.pc
    }

    /// The index register `I`.
    pub fn index(&self) -> (index: u16)
        ensures
            index == self@.index,
    {
        self.i
    }

    /// Register `Vx`.
    pub fn register(&self, x: usize) -> (value: u8)
        requires
            x < 16,
        ensures
            value == self@.v(x as int),
    {
        proof {
            use_type_invariant(self);
        }
        self.registers[x]
    }

    /// The number of return addresses on the call stack.
    pub fn stack_depth(&self) -> (depth: usize)
        ensures
            depth == self@.stack.len(),
            depth <= 16,
    {
        proof {
            use_type_invariant(self);
        }
        self.sp as usize
    }

    /// The delay timer.
    pub fn delay_timer(&self) -> (timer: u8)
        ensures
            timer == self@.delay_timer,
    {
        self.delay_timer
    }

    /// The sound timer.
    pub fn sound_timer(&self) -> (timer: u8)
        ensures
            timer == self@.sound_timer,
    {
        self.sound_timer
    }

    /// The framebuffer: 2048 cells, each 0 or 1, line after line from the
    /// top, 64 cells to a line.
    pub fn framebuffer(&self) -> (video: &Vec<u8>)
        ensures
            video@ == self@.video,
            is_video(video@),
    {
        proof {
            use_type_invariant(self);
        }
        &self.video
    }

    /// The memory unit.
    pub fn mmu(&self) -> (mmu: &Mmu)
        ensures
            mmu@ == self@.memory,
    {
        &self.mmu
    }

    /// Whether the key `index` is held down.
    pub fn key(&self, index: usize) -> (pressed: bool)
        requires
            index < 16,
        ensures
            pressed == self@.keys[index as int],
    {
        proof {
            use_type_invariant(self);
        }
        self.input[index]
    }

    /// Records that the key `index` went down or up.
    pub fn set_key(&mut self, index: usize, pressed: bool)
        requires
            index < 16,
        ensures
            final(self)@ == (CpuState {
                keys: old(self)@.keys.update(index as int, pressed),
                ..old(self)@
            }),
            final(self)@.wf(),
    {
        proof {
            use_type_invariant(&*self);
            use_type_invariant(&self.mmu);
        }
        self.input[index] = pressed;
    }
}

/// Copies the first `count` registers to memory at `start` and up.
fn store_registers(mmu: &mut Mmu, registers: &Vec<u8>, start: usize, count: usize)
    requires
        registers@.len() == 16,
        count <= 16,
        start + count <= 4096,
    ensures
        final(mmu)@ == with_registers_stored(old(mmu)@, registers@, start as int, count as int),
    no_unwind
{
    proof {
        use_type_invariant(&*mmu);
    }
    let mut done: usize = 0;
    while done < count
        invariant
            done <= count,
            count <= 16,
            registers@.len() == 16,
            start + count <= 4096,
            mmu@.len() == 4096,
            old(mmu)@.len() == 4096,
            mmu@ == with_registers_stored(old(mmu)@, registers@, start as int, done as int),
        decreases count - done,
    {
        let _ = mmu.write_byte(start + done, registers[done]);
        done += 1;
    }
}

/// Copies memory at `start` and up to the first `count` registers.
fn load_registers(registers: &mut Vec<u8>, mmu: &Mmu, start: usize, count: usize)
    requires
        old(registers)@.len() == 16,
        count <= 16,
        start + count <= 4096,
    ensures
        final(registers)@ == with_registers_loaded(
            old(registers)@,
            mmu@,
            start as int,
            count as int,
        ),
    no_unwind
{
    let mut done: usize = 0;
    while done < count
        invariant
            done <= count,
            count <= 16,
            registers@.len() == 16,
            start + count <= 4096,
            registers@ == with_registers_loaded(
                old(registers)@,
                mmu@,
                start as int,
                done as int,
            ),
        decreases count - done,
    {
        let byte = match mmu.read_byte(start + done) {
            Ok(byte) => byte,
            Err(_) => 0,
        };
        registers[done] = byte;
        done += 1;
    }
}

} // verus!
