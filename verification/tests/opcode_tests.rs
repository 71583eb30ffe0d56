use chip8::opcode::{
    address_from, decode, missing_instruction, register_and_value_from, register_from,
    registers_from, Opcode,
};
use chip8::Chip8Error;

#[test]
fn fields_are_taken_from_their_nibbles() {
    assert_eq!(register_from(0x3A7C), 0xA);
    assert_eq!(registers_from(0x8AB4), (0xA, 0xB));
    assert_eq!(register_and_value_from(0x6C9D), (0xC, 0x9D));
    assert_eq!(address_from(0x1ABC), 0xABC);
    assert_eq!(register_from(0xFFFF), 0xF);
    assert_eq!(registers_from(0x0000), (0, 0));
    assert_eq!(register_and_value_from(0xF0FF), (0, 0xFF));
    assert_eq!(address_from(0xF000), 0);
}

#[test]
fn missing_instruction_carries_the_word() {
    assert_eq!(
        missing_instruction(0x8AB9),
        Chip8Error::UnimplementedInstruction { instruction: 0x8AB9 }
    );
}

#[test]
fn decode_control_instructions() {
    assert_eq!(decode(0x00E0), Ok(Opcode::Cls));
    assert_eq!(decode(0x00EE), Ok(Opcode::Ret));
    assert_eq!(decode(0x1ABC), Ok(Opcode::Jp { nnn: 0xABC }));
    assert_eq!(decode(0x2FFF), Ok(Opcode::Call { nnn: 0xFFF }));
    assert_eq!(decode(0xB123), Ok(Opcode::JpV0 { nnn: 0x123 }));
}

#[test]
fn decode_skip_instructions() {
    assert_eq!(decode(0x3A7C), Ok(Opcode::SeV { x: 0xA, kk: 0x7C }));
    assert_eq!(decode(0x4B00), Ok(Opcode::SneV { x: 0xB, kk: 0x00 }));
    assert_eq!(decode(0x5120), Ok(Opcode::SeVV { x: 1, y: 2 }));
    assert_eq!(decode(0x9EF0), Ok(Opcode::SneVV { x: 0xE, y: 0xF }));
    assert_eq!(decode(0xE59E), Ok(Opcode::SkpV { x: 5 }));
    assert_eq!(decode(0xE6A1), Ok(Opcode::SknpV { x: 6 }));
}

#[test]
fn decode_selects_families_5_and_9_by_the_high_nibble_alone() {
    assert_eq!(decode(0x5127), Ok(Opcode::SeVV { x: 1, y: 2 }));
    assert_eq!(decode(0x934F), Ok(Opcode::SneVV { x: 3, y: 4 }));
}

#[test]
fn decode_load_and_arithmetic_instructions() {
    assert_eq!(decode(0x6C9D), Ok(Opcode::LdV { x: 0xC, kk: 0x9D }));
    assert_eq!(decode(0x7001), Ok(Opcode::AddV { x: 0, kk: 1 }));
    assert_eq!(decode(0x8120), Ok(Opcode::LdVV { x: 1, y: 2 }));
    assert_eq!(decode(0x8121), Ok(Opcode::OrVV { x: 1, y: 2 }));
    assert_eq!(decode(0x8122), Ok(Opcode::AndVV { x: 1, y: 2 }));
    assert_eq!(decode(0x8123), Ok(Opcode::XorVV { x: 1, y: 2 }));
    assert_eq!(decode(0x8014), Ok(Opcode::AddVV { x: 0, y: 1 }));
    assert_eq!(decode(0x8015), Ok(Opcode::SubVV { x: 0, y: 1 }));
    assert_eq!(decode(0x8AB6), Ok(Opcode::ShrV { x: 0xA }));
    assert_eq!(decode(0x8017), Ok(Opcode::SubnVV { x: 0, y: 1 }));
    assert_eq!(decode(0x8ABE), Ok(Opcode::ShlV { x: 0xA }));
    assert_eq!(decode(0xA123), Ok(Opcode::LdI { nnn: 0x123 }));
    assert_eq!(decode(0xC70F), Ok(Opcode::RndV { x: 7, kk: 0x0F }));
    assert_eq!(decode(0xD125), Ok(Opcode::DrwVV { x: 1, y: 2, n: 5 }));
}

#[test]
fn decode_timer_key_and_memory_instructions() {
    assert_eq!(decode(0xF107), Ok(Opcode::LdVDt { x: 1 }));
    assert_eq!(decode(0xF20A), Ok(Opcode::LdVK { x: 2 }));
    assert_eq!(decode(0xF315), Ok(Opcode::LdDtV { x: 3 }));
    assert_eq!(decode(0xF418), Ok(Opcode::LdStV { x: 4 }));
    assert_eq!(decode(0xF51E), Ok(Opcode::AddIV { x: 5 }));
    assert_eq!(decode(0xF629), Ok(Opcode::LdFV { x: 6 }));
    assert_eq!(decode(0xF733), Ok(Opcode::LdBV { x: 7 }));
    assert_eq!(decode(0xF855), Ok(Opcode::LdIV { x: 8 }));
    assert_eq!(decode(0xF965), Ok(Opcode::LdVI { x: 9 }));
}

#[test]
fn decode_rejects_words_that_match_no_instruction() {
    let words: [u16; 12] = [
        0x0000, 0x00E1, 0x00EF, 0x0123, 0x8008, 0x812F, 0xE000, 0xE19F, 0xF000, 0xF1FF, 0xF208,
        0xF366,
    ];
    for word in words {
        assert_eq!(
            decode(word),
            Err(Chip8Error::UnimplementedInstruction { instruction: word })
        );
    }
}

#[test]
fn decode_accepts_every_word_of_the_plain_families() {
    for family in [0x1u16, 0x2, 0x3, 0x4, 0x5, 0x6, 0x7, 0x9, 0xA, 0xB, 0xC, 0xD] {
        for low in 0..0x1000u16 {
            assert!(decode(family << 12 | low).is_ok());
        }
    }
}

#[test]
fn decode_accepts_exactly_the_words_of_the_instruction_set() {
    let mut accepted = 0u32;
    for word in 0..=0xFFFFu16 {
        if decode(word).is_ok() {
            accepted += 1;
        }
    }
    // Two words of family 0, twelve whole families, nine of the sixteen
    // selectors of family 8, and two and nine low bytes for each register in
    // families E and F.
    assert_eq!(accepted, 2 + 12 * 4096 + 9 * 256 + 2 * 16 + 9 * 16);
}
