use chip8::opcode::{decode, field_kk, field_n, field_nnn, field_x, field_y, Instruction};

#[test]
fn fields_of_a_word() {
    assert_eq!(field_x(0xABCD), 0xB);
    assert_eq!(field_y(0xABCD), 0xC);
    assert_eq!(field_n(0xABCD), 0xD);
    assert_eq!(field_kk(0xABCD), 0xCD);
    assert_eq!(field_nnn(0xABCD), 0xBCD);
    assert_eq!(field_x(0x0000), 0);
    assert_eq!(field_nnn(0xFFFF), 0xFFF);
    assert_eq!(field_kk(0xFFFF), 0xFF);
}

#[test]
fn decode_control_flow() {
    assert_eq!(decode(0x00E0), Instruction::ClearScreen);
    assert_eq!(decode(0x00EE), Instruction::Return);
    assert_eq!(decode(0x0000), Instruction::Ignored);
    assert_eq!(decode(0x0ABC), Instruction::Ignored);
    assert_eq!(decode(0x1234), Instruction::Jump { addr: 0x234 });
    assert_eq!(decode(0x2FFF), Instruction::Call { addr: 0xFFF });
    assert_eq!(decode(0x3A42), Instruction::SkipIfEqual { x: 0xA, kk: 0x42 });
    assert_eq!(decode(0x4A42), Instruction::SkipIfNotEqual { x: 0xA, kk: 0x42 });
    assert_eq!(decode(0x5AB0), Instruction::SkipIfRegistersEqual { x: 0xA, y: 0xB });
    assert_eq!(decode(0x5AB7), Instruction::SkipIfRegistersEqual { x: 0xA, y: 0xB });
    assert_eq!(decode(0x9AB0), Instruction::SkipIfRegistersNotEqual { x: 0xA, y: 0xB });
}

#[test]
fn decode_register_operations() {
    assert_eq!(decode(0x6C07), Instruction::Load { x: 0xC, kk: 0x07 });
    assert_eq!(decode(0x7CFF), Instruction::AddImmediate { x: 0xC, kk: 0xFF });
    assert_eq!(decode(0x8120), Instruction::Move { x: 1, y: 2 });
    assert_eq!(decode(0x8121), Instruction::Or { x: 1, y: 2 });
    assert_eq!(decode(0x8122), Instruction::And { x: 1, y: 2 });
    assert_eq!(decode(0x8123), Instruction::Xor { x: 1, y: 2 });
    assert_eq!(decode(0x8124), Instruction::AddRegister { x: 1, y: 2 });
    assert_eq!(decode(0x8125), Instruction::Subtract { x: 1, y: 2 });
    assert_eq!(decode(0x8126), Instruction::ShiftRight { x: 1 });
    assert_eq!(decode(0x8127), Instruction::SubtractFrom { x: 1, y: 2 });
    assert_eq!(decode(0x812E), Instruction::ShiftLeft { x: 1 });
    for low in [0x8u16, 0x9, 0xA, 0xB, 0xC, 0xD, 0xF] {
        assert_eq!(decode(0x8120 | low), Instruction::NoOperation);
    }
}

#[test]
fn decode_index_and_draw() {
    assert_eq!(decode(0xA123), Instruction::LoadIndex { addr: 0x123 });
    assert_eq!(decode(0xD125), Instruction::Draw { x: 1, y: 2, n: 5 });
    assert_eq!(decode(0xDFE0), Instruction::Draw { x: 0xF, y: 0xE, n: 0 });
}

#[test]
fn decode_special_operations() {
    assert_eq!(decode(0xF307), Instruction::ReadDelay { x: 3 });
    assert_eq!(decode(0xF30A), Instruction::WaitKey { x: 3 });
    assert_eq!(decode(0xF315), Instruction::SetDelay { x: 3 });
    assert_eq!(decode(0xF318), Instruction::SetSound { x: 3 });
    assert_eq!(decode(0xF31E), Instruction::AddIndex { x: 3 });
    assert_eq!(decode(0xF329), Instruction::FontAddress { x: 3 });
    assert_eq!(decode(0xF333), Instruction::Decimal { x: 3 });
    assert_eq!(decode(0xF355), Instruction::Store { x: 3 });
    assert_eq!(decode(0xF365), Instruction::Restore { x: 3 });
    assert_eq!(decode(0xF300), Instruction::Unimplemented);
    assert_eq!(decode(0xF3FF), Instruction::Unimplemented);
}

#[test]
fn decode_unknown_groups() {
    assert_eq!(decode(0xB000), Instruction::Unknown);
    assert_eq!(decode(0xC123), Instruction::Unknown);
    assert_eq!(decode(0xEFFF), Instruction::Unknown);
}

#[test]
fn decode_covers_every_word() {
    for op in 0..=0xFFFFu16 {
        let ins = decode(op);
        let group = op >> 12;
        let unknown = group == 0xB || group == 0xC || group == 0xE;
        assert_eq!(ins == Instruction::Unknown, unknown);
    }
}
