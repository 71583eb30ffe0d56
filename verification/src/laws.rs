//! What holds of the model whatever the state: how the program counter
//! moves, what an instruction leaves alone, and how instructions undo or
//! repeat one another.

use vstd::prelude::*;
use crate::display::{hits, lemma_pixel_of_sprite, pixel_index, sprite_bit};
use crate::machine::{lemma_lowest_pressed, CpuState};
use crate::opcode::{decoded, Opcode};

verus! {

impl Opcode {
    /// The instructions that leave the program counter on the next
    /// instruction, whatever the state.
    pub open spec fn advances_normally(self) -> bool {
        match self {
            Opcode::Cls
            | Opcode::LdV { .. }
            | Opcode::AddV { .. }
            | Opcode::LdVV { .. }
            | Opcode::OrVV { .. }
            | Opcode::AndVV { .. }
            | Opcode::XorVV { .. }
            | Opcode::AddVV { .. }
            | Opcode::SubVV { .. }
            | Opcode::ShrV { .. }
            | Opcode::SubnVV { .. }
            | Opcode::ShlV { .. }
            | Opcode::LdI { .. }
            | Opcode::RndV { .. }
            | Opcode::DrwVV { .. }
            | Opcode::LdVDt { .. }
            | Opcode::LdDtV { .. }
            | Opcode::LdStV { .. }
            | Opcode::AddIV { .. }
            | Opcode::LdFV { .. }
            | Opcode::LdBV { .. }
            | Opcode::LdIV { .. }
            | Opcode::LdVI { .. } => true,
            _ => false,
        }
    }

    /// The instructions that skip the next instruction or do not, and do
    /// nothing else.
    pub open spec fn is_skip(self) -> bool {
        match self {
            Opcode::SeV { .. }
            | Opcode::SneV { .. }
            | Opcode::SeVV { .. }
            | Opcode::SneVV { .. }
            | Opcode::SkpV { .. }
            | Opcode::SknpV { .. } => true,
            _ => false,
        }
    }

    /// Whether the instruction may write register `r`: its target `Vx`, and
    /// the flag register where it reports a carry, a borrow, a bit shifted
    /// out or a collision.
    pub open spec fn writes_register(self, r: int) -> bool {
        match self {
            Opcode::LdV { x, .. }
            | Opcode::AddV { x, .. }
            | Opcode::LdVV { x, .. }
            | Opcode::OrVV { x, .. }
            | Opcode::AndVV { x, .. }
            | Opcode::XorVV { x, .. }
            | Opcode::RndV { x, .. }
            | Opcode::LdVDt { x }
            | Opcode::LdVK { x } => r == x,
            Opcode::AddVV { x, .. }
            | Opcode::SubVV { x, .. }
            | Opcode::ShrV { x }
            | Opcode::SubnVV { x, .. }
            | Opcode::ShlV { x } => r == x || r == 0xF,
            Opcode::DrwVV { .. } => r == 0xF,
            Opcode::LdVI { x } => r <= x,
            _ => false,
        }
    }

    /// Whether the instruction may write the byte at `address` when the
    /// index register holds `index`.
    pub open spec fn writes_memory(self, index: int, address: int) -> bool {
        match self {
            Opcode::LdBV { .. } => index <= address < index + 3,
            Opcode::LdIV { x } => index <= address <= index + x,
            _ => false,
        }
    }

    /// Whether the instruction may write the framebuffer.
    pub open spec fn writes_video(self) -> bool {
        self is Cls || self is DrwVV
    }

    /// Whether the instruction may write the index register.
    pub open spec fn writes_index(self) -> bool {
        self is LdI || self is AddIV || self is LdFV
    }
}

/// Whatever a word decodes to has all its fields in range.
pub proof fn lemma_decoded_wf(word: u16)
    ensures
        decoded(word) matches Some(op) ==> op.wf(),
{
}

/// An instruction that advances normally moves the program counter on by
/// exactly 2, and changes nothing but what it is documented to write: its
/// target register, the flag register, memory at the index register, the
/// framebuffer, the index register or a timer. The call stack and the keys
/// stay as they are.
pub proof fn lemma_advances_by_two(s: CpuState, op: Opcode, random: u8)
    requires
        s.wf(),
        s.can_move(2),
        op.wf(),
        op.advances_normally(),
    ensures
        s.executed(op, random) matches Ok(t) ==> {
            &&& t.pc == s.pc + 2
            &&& t.stack == s.stack
            &&& t.keys == s.keys
            &&& forall|r: int|
                0 <= r < 16 && !op.writes_register(r) ==> t.registers[r] == s.registers[r]
            &&& forall|a: int|
                0 <= a < 4096 && !op.writes_memory(s.index as int, a) ==> t.memory[a]
                    == s.memory[a]
            &&& !op.writes_video() ==> t.video == s.video
            &&& !op.writes_index() ==> t.index == s.index
            &&& !(op is LdDtV) ==> t.delay_timer == s.delay_timer
            &&& !(op is LdStV) ==> t.sound_timer == s.sound_timer
        },
{
}

/// A skip instruction moves the program counter on by 2 or by 4, never by
/// both and never by anything else, and changes nothing besides.
pub proof fn lemma_skip_or_advance(s: CpuState, op: Opcode, random: u8)
    requires
        s.wf(),
        s.can_move(4),
        op.wf(),
        op.is_skip(),
    ensures
        ({
            &&& s.executed(op, random) matches Ok(t)
            &&& t.pc == s.pc + 2 || t.pc == s.pc + 4
            &&& !(t.pc == s.pc + 2 && t.pc == s.pc + 4)
            &&& t == CpuState { pc: t.pc, ..s }
        }),
{
}

/// A step on an instruction that advances normally moves the program counter
/// on by exactly 2, and a step on a skip instruction by 2 or by 4.
pub proof fn lemma_step_moves_pc(s: CpuState, random: u8)
    requires
        s.wf(),
    ensures
        s.stepped(random) matches Ok((t, _)) ==> {
            &&& s.fetched() matches Ok(word)
            &&& decoded(word) matches Some(op)
            &&& op.advances_normally() ==> t.pc == s.pc + 2
            &&& op.is_skip() ==> (t.pc == s.pc + 2) != (t.pc == s.pc + 4)
        },
{
}

/// Only a `Cxkk` reads the random byte: every other instruction does the
/// same whatever the byte is.
pub proof fn lemma_random_only_in_rnd(s: CpuState, op: Opcode, random: u8, other: u8)
    requires
        !(op is RndV),
    ensures
        s.executed(op, random) == s.executed(op, other),
{
}

/// A step that does not draw from the random source is the same whatever
/// the random byte is.
pub proof fn lemma_step_deterministic(s: CpuState, random: u8, other: u8)
    requires
        !s.draws_random(),
    ensures
        s.stepped(random) == s.stepped(other),
{
}

/// A call followed by a return ends on the instruction after the call, with
/// the call stack as deep as before, and with nothing else changed.
pub proof fn lemma_call_then_ret(s: CpuState, nnn: u16)
    requires
        s.wf(),
        s.can_move(2),
        s.stack.len() < 16,
    ensures
        ({
            &&& s.call(nnn) matches Ok(called)
            &&& called.stack.len() == s.stack.len() + 1
            &&& called.ret() matches Ok(returned)
            &&& returned == CpuState { pc: (s.pc + 2) as u16, ..s }
        }),
{
}

/// While no key is held down, a wait for a key changes nothing, so a step on
/// it leaves the program counter where it is and only ticks the timers: the
/// next step finds the same instruction.
pub proof fn lemma_wait_without_key(s: CpuState, x: int, random: u8)
    requires
        s.wf(),
        0 <= x < 16,
        forall|k: int| 0 <= k < 16 ==> !s.keys[k],
    ensures
        s.ld_v_k(x) == s,
        s.fetched() is Ok && decoded(s.fetched()->Ok_0) == Some(Opcode::LdVK { x: x as usize })
            ==> {
            &&& s.stepped(random) matches Ok((t, _))
            &&& t == s.ticked()
            &&& t.pc == s.pc
            &&& t.fetched() == s.fetched()
        },
{
}

/// Once a key is held down, a wait for a key stores the index of the lowest
/// such key in its register and moves the program counter on by 2.
pub proof fn lemma_wait_with_key(s: CpuState, x: int, key: int)
    requires
        s.wf(),
        s.can_move(2),
        0 <= x < 16,
        0 <= key < 16,
        s.keys[key],
        forall|k: int| 0 <= k < key ==> !s.keys[k],
    ensures
        s.ld_v_k(x) == s.with_v(x, key as u8).advanced(),
        s.ld_v_k(x).v(x) == key,
        s.ld_v_k(x).pc == s.pc + 2,
{
    lemma_lowest_pressed(s.keys, key);
}

/// Drawing a sprite a second time at the same place undoes the first
/// drawing: the framebuffer is as it was. The second drawing reports a
/// collision exactly if a set pixel of the sprite landed on a pixel that was
/// off before the first drawing, and so was turned on by it.
///
/// The place is the same if the first drawing left `Vx` and `Vy` as they
/// were, which it does unless one of them is the flag register.
pub proof fn lemma_draw_twice(s: CpuState, x: int, y: int, n: int)
    requires
        s.wf(),
        0 <= x < 16,
        0 <= y < 16,
        0 <= n < 16,
        s.drw_vv(x, y, n) matches Ok(once) ==> once.v(x) == s.v(x) && once.v(y) == s.v(y),
    ensures
        s.drw_vv(x, y, n) matches Ok(once) ==> {
            &&& once.drw_vv(x, y, n) matches Ok(twice)
            &&& twice.video == s.video
            &&& twice.v(0xF) == 1 <==> exists|col: int, row: int|
                0 <= col < 8 && 0 <= row < n && sprite_bit(s.memory[s.index + row], col)
                    && #[trigger] s.video[pixel_index(s.v(x) as int, s.v(y) as int, col, row)]
                    == 0
        },
{
    if let Ok(once) = s.drw_vv(x, y, n) {
        let vx = s.v(x) as int;
        let vy = s.v(y) as int;
        let index = s.index as int;
        assert forall|col: int, row: int| 0 <= col < 8 && 0 <= row < n implies (#[trigger] hits(
            once.video,
            s.memory,
            index,
            vx,
            vy,
            col,
            row,
        ) <==> sprite_bit(s.memory[index + row], col) && s.video[pixel_index(vx, vy, col, row)]
            == 0) by {
            lemma_pixel_of_sprite(vx, vy, col, row);
        }
        if exists|col: int, row: int|
            0 <= col < 8 && 0 <= row < n && sprite_bit(s.memory[s.index + row], col)
                && #[trigger] s.video[pixel_index(vx, vy, col, row)] == 0 {
            let (col, row) = choose|col: int, row: int|
                0 <= col < 8 && 0 <= row < n && sprite_bit(s.memory[s.index + row], col)
                    && #[trigger] s.video[pixel_index(vx, vy, col, row)] == 0;
            assert(hits(once.video, s.memory, index, vx, vy, col, row));
        }
    }
}

/// Drawing a sprite with a set pixel onto a region in which every pixel
/// under its set pixels is off, and then drawing it again at the same place,
/// leaves that region off again and reports a collision.
pub proof fn lemma_draw_twice_on_blank(s: CpuState, x: int, y: int, n: int, col: int, row: int)
    requires
        s.wf(),
        0 <= x < 16,
        0 <= y < 16,
        0 <= n < 16,
        s.drw_vv(x, y, n) matches Ok(once) ==> once.v(x) == s.v(x) && once.v(y) == s.v(y),
        0 <= col < 8,
        0 <= row < n,
        sprite_bit(s.memory[s.index + row], col),
        forall|c: int, r: int|
            0 <= c < 8 && 0 <= r < n && sprite_bit(s.memory[s.index + r], c)
                ==> #[trigger] s.video[pixel_index(s.v(x) as int, s.v(y) as int, c, r)] == 0,
    ensures
        s.drw_vv(x, y, n) matches Ok(once) ==> {
            &&& once.v(0xF) == 0
            &&& once.drw_vv(x, y, n) matches Ok(twice)
            &&& twice.video == s.video
            &&& twice.v(0xF) == 1
        },
{
    lemma_draw_twice(s, x, y, n);
    if let Ok(once) = s.drw_vv(x, y, n) {
        assert(s.video[pixel_index(s.v(x) as int, s.v(y) as int, col, row)] == 0);
    }
}

/// A step keeps the state in shape.
pub proof fn lemma_stepped_wf(s: CpuState, random: u8)
    requires
        s.wf(),
    ensures
        s.stepped(random) matches Ok((t, _)) ==> t.wf(),
{
    if let Ok((t, _)) = s.stepped(random) {
        let op = decoded(s.fetched()->Ok_0)->Some_0;
        lemma_executed_wf(s, op, random);
    }
}

/// Executing an instruction keeps the state in shape. A call must leave room
/// in sixteen bits for the address after it, to which the return will go.
pub proof fn lemma_executed_wf(s: CpuState, op: Opcode, random: u8)
    requires
        s.wf(),
        op is Call ==> s.can_move(2),
        op.wf(),
    ensures
        s.executed(op, random) matches Ok(t) ==> t.wf(),
{
}

} // verus!
