use chip8::opcode::{
    decode, parse_nnn, parse_x, parse_x_nn, parse_x_y, parse_x_y_n, DecodeError, Operation,
};

#[test]
fn test_decode() {
    let cases: [(u16, Operation); 34] = [
        (0x0000, Operation::NoOperation),
        (0x00E0, Operation::ClearDisplay),
        (0x00EE, Operation::SubroutineReturn),
        (0x1000, Operation::GotoAddress { nnn: 0 }),
        (0x2000, Operation::SubroutineCall { nnn: 0 }),
        (0x3000, Operation::EqualityCheck { x: 0, nn: 0 }),
        (0x5000, Operation::EqualityRegisterCheck { x: 0, y: 0 }),
        (0x6000, Operation::SetRegister { x: 0, nn: 0 }),
        (0x7000, Operation::AddRegister { x: 0, nn: 0 }),
        (0x8000, Operation::SetRegisterFromRegister { x: 0, y: 0 }),
        (0x8001, Operation::BitwiseOr { x: 0, y: 0 }),
        (0x8002, Operation::BitwiseAnd { x: 0, y: 0 }),
        (0x8003, Operation::BitwiseXor { x: 0, y: 0 }),
        (0x8004, Operation::AddValues { x: 0, y: 0 }),
        (0x8005, Operation::SubtractValues { x: 0, y: 0 }),
        (0x8006, Operation::StoreLeastSignificant { x: 0, y: 0 }),
        (0x8007, Operation::SubtractValueFromRegister { x: 0, y: 0 }),
        (0x800E, Operation::StoreMostSignificant { x: 0, y: 0 }),
        (0x9000, Operation::InequalityRegister { x: 0, y: 0 }),
        (0xA000, Operation::SetIndexToAddress { nnn: 0 }),
        (0xB000, Operation::GotoAddressWithRegister { nnn: 0 }),
        (0xC000, Operation::AssignRandomNumber { x: 0, nn: 0 }),
        (0xD000, Operation::DrawSprite { x: 0, y: 0, n: 0 }),
        (0xE09E, Operation::SkipIfKeyPressed { x: 0 }),
        (0xE0A1, Operation::SkipIfKeyNotPressed { x: 0 }),
        (0xF007, Operation::GetDelayTimer { x: 0 }),
        (0xF00A, Operation::StoreNextKeypress { x: 0 }),
        (0xF015, Operation::SetDelayTimer { x: 0 }),
        (0xF018, Operation::SetSoundTimer { x: 0 }),
        (0xF01E, Operation::AddToIndex { x: 0 }),
        (0xF029, Operation::SetIndexToSprite { x: 0 }),
        (0xF033, Operation::StoreBinaryCodedDecimal { x: 0 }),
        (0xF055, Operation::StoreRegistersInMemory { x: 0 }),
        (0xF065, Operation::SetRegistersFromMemory { x: 0 }),
    ];
    for (opcode, expected) in cases {
        let operation = decode(opcode).unwrap();
        assert_eq!(operation, expected);
    }
}

#[test]
fn test_parse_x() {
    let cases: [(u16, u8); 6] =
        [(0x0000, 0), (0xC100, 1), (0xA400, 4), (0x6A00, 10), (0x1D00, 13), (0xBF00, 15)];
    for (opcode, expected_x) in cases {
        assert_eq!(parse_x(opcode), expected_x);
    }
}

#[test]
fn test_parse_x_y() {
    let cases: [(u16, u8, u8); 6] = [
        (0xF3C0, 3, 12),
        (0x3F00, 15, 0),
        (0xC320, 3, 2),
        (0x6910, 9, 1),
        (0xAFF0, 15, 15),
        (0x0000, 0, 0),
    ];
    for (opcode, expected_x, expected_y) in cases {
        assert_eq!(parse_x_y(opcode), (expected_x, expected_y));
    }
}

#[test]
fn test_parse_x_y_n() {
    let cases: [(u16, u8, u8, u8); 6] = [
        (0x13BA, 3, 11, 10),
        (0xFA82, 10, 8, 2),
        (0x7CA1, 12, 10, 1),
        (0xEFAF, 15, 10, 15),
        (0x0113, 1, 1, 3),
        (0xC543, 5, 4, 3),
    ];
    for (opcode, expected_x, expected_y, expected_n) in cases {
        assert_eq!(parse_x_y(opcode), (expected_x, expected_y));
        assert_eq!(parse_x_y_n(opcode), (expected_x, expected_y, expected_n));
    }
}

#[test]
fn test_parse_x_nn() {
    let cases: [(u16, u8, u8); 6] = [
        (0x234F, 3, 79),
        (0x9AD1, 10, 209),
        (0xDC10, 12, 16),
        (0xF00F, 0, 15),
        (0x43AA, 3, 170),
        (0xA000, 0, 0),
    ];
    for (opcode, expected_x, expected_nn) in cases {
        assert_eq!(parse_x_nn(opcode), (expected_x, expected_nn));
    }
}

#[test]
fn test_parse_nnn() {
    let cases: [(u16, u16); 6] =
        [(0xCCAA, 3242), (0x2342, 834), (0x23F1, 1009), (0xA1D5, 469), (0x4001, 1), (0x0000, 0)];
    for (opcode, expected_nnn) in cases {
        assert_eq!(parse_nnn(opcode), expected_nnn);
    }
}

#[test]
fn decode_extracts_every_field() {
    assert_eq!(decode(0x1ABC), Ok(Operation::GotoAddress { nnn: 0xABC }));
    assert_eq!(decode(0x2FFF), Ok(Operation::SubroutineCall { nnn: 0xFFF }));
    assert_eq!(decode(0x3A42), Ok(Operation::EqualityCheck { x: 0xA, nn: 0x42 }));
    assert_eq!(decode(0x4B17), Ok(Operation::InequalityCheck { x: 0xB, nn: 0x17 }));
    assert_eq!(decode(0x5CD0), Ok(Operation::EqualityRegisterCheck { x: 0xC, y: 0xD }));
    assert_eq!(decode(0x61FF), Ok(Operation::SetRegister { x: 1, nn: 0xFF }));
    assert_eq!(decode(0x7E01), Ok(Operation::AddRegister { x: 0xE, nn: 1 }));
    assert_eq!(decode(0x8124), Ok(Operation::AddValues { x: 1, y: 2 }));
    assert_eq!(decode(0x8F3E), Ok(Operation::StoreMostSignificant { x: 0xF, y: 3 }));
    assert_eq!(decode(0x9AB0), Ok(Operation::InequalityRegister { x: 0xA, y: 0xB }));
    assert_eq!(decode(0xA2F0), Ok(Operation::SetIndexToAddress { nnn: 0x2F0 }));
    assert_eq!(decode(0xB123), Ok(Operation::GotoAddressWithRegister { nnn: 0x123 }));
    assert_eq!(decode(0xC70F), Ok(Operation::AssignRandomNumber { x: 7, nn: 0x0F }));
    assert_eq!(decode(0xD12F), Ok(Operation::DrawSprite { x: 1, y: 2, n: 0xF }));
    assert_eq!(decode(0xE59E), Ok(Operation::SkipIfKeyPressed { x: 5 }));
    assert_eq!(decode(0xE6A1), Ok(Operation::SkipIfKeyNotPressed { x: 6 }));
    assert_eq!(decode(0xF955), Ok(Operation::StoreRegistersInMemory { x: 9 }));
    assert_eq!(decode(0xFA65), Ok(Operation::SetRegistersFromMemory { x: 0xA }));
}

#[test]
fn decode_ignores_the_bits_that_no_field_holds() {
    assert_eq!(decode(0x0F00), Ok(Operation::NoOperation));
    assert_eq!(decode(0x01E0), Ok(Operation::ClearDisplay));
    assert_eq!(decode(0x0AEE), Ok(Operation::SubroutineReturn));
    assert_eq!(decode(0x5127), Ok(Operation::EqualityRegisterCheck { x: 1, y: 2 }));
    assert_eq!(decode(0x934F), Ok(Operation::InequalityRegister { x: 3, y: 4 }));
}

#[test]
fn decode_rejects_malformed_sub_opcodes() {
    for opcode in [0x00FFu16, 0x8008, 0xE000, 0xF0FF] {
        assert_eq!(decode(opcode), Err(DecodeError::Unknown(opcode)));
    }
    for opcode in [0x0001u16, 0x00E1, 0x8009, 0x812A, 0x800F, 0xE19F, 0xE0A0, 0xF000, 0xF166] {
        assert_eq!(decode(opcode), Err(DecodeError::Unknown(opcode)));
    }
}

#[test]
fn decode_is_total() {
    let mut known: u32 = 0;
    let mut unknown: u32 = 0;
    for word in 0..=u16::MAX {
        match decode(word) {
            Ok(_) => known += 1,
            Err(DecodeError::Unknown(carried)) => {
                assert_eq!(carried, word);
                unknown += 1;
            }
        }
    }
    assert_eq!(known + unknown, 65536);
    // Families 1 to 7, 9 and A to D take every word: 12 * 4096. Family 0
    // takes three low bytes of 256, family 8 nine low nibbles of 16,
    // family E two low bytes, family F nine: each for 16 values of the
    // remaining nibble or nibbles.
    assert_eq!(known, 12 * 4096 + 3 * 16 + 9 * 256 + 2 * 16 + 9 * 16);
}

#[test]
fn decoded_fields_are_in_range() {
    for word in 0..=u16::MAX {
        if let Ok(operation) = decode(word) {
            match operation {
                Operation::GotoAddress { nnn }
                | Operation::SubroutineCall { nnn }
                | Operation::SetIndexToAddress { nnn }
                | Operation::GotoAddressWithRegister { nnn } => assert!(nnn <= 0xFFF),
                Operation::DrawSprite { x, y, n } => assert!(x <= 15 && y <= 15 && n <= 15),
                _ => {}
            }
        }
    }
}
