//! The CHIP-8 instruction set: the operations, the layout of an instruction
//! word, and the decoder.
//!
//! An instruction is a 16-bit word. Its top nibble selects a family; the
//! remaining twelve bits hold, depending on the family, two register
//! indices `x` and `y`, a nibble `n`, a byte `nn` or an address `nnn`.

use vstd::prelude::*;

verus! {

/// Operations of the CHIP-8 virtual machine.
#[derive(Debug, Clone, Copy, PartialEq, Eq, Structural)]
pub enum Operation {
    /// Code: 0X00
    ///
    /// No operation.
    NoOperation,
    /// Code: 00E0
    ///
    /// Clears the screen.
    ClearDisplay,
    /// Code: 00EE
    ///
    /// Returns from a subroutine.
    SubroutineReturn,
    /// Code: 1NNN
    ///
    /// Jumps to address NNN.
    GotoAddress { nnn: u16 },
    /// Code: 2NNN
    ///
    /// Calls the subroutine at NNN.
    SubroutineCall { nnn: u16 },
    /// Code: 3XNN
    ///
    /// Skips the next instruction if VX equals NN.
    EqualityCheck { x: u8, nn: u8 },
    /// Code: 4XNN
    ///
    /// Skips the next instruction if VX does not equal NN.
    InequalityCheck { x: u8, nn: u8 },
    /// Code: 5XY0
    ///
    /// Skips the next instruction if VX equals VY.
    EqualityRegisterCheck { x: u8, y: u8 },
    /// Code: 6XNN
    ///
    /// Sets VX to NN.
    SetRegister { x: u8, nn: u8 },
    /// Code: 7XNN
    ///
    /// Adds NN to VX. The flag register is not changed.
    AddRegister { x: u8, nn: u8 },
    /// Code: 8XY0
    ///
    /// Sets VX to the value of VY.
    SetRegisterFromRegister { x: u8, y: u8 },
    /// Code: 8XY1
    ///
    /// Sets VX to VX or VY.
    BitwiseOr { x: u8, y: u8 },
    /// Code: 8XY2
    ///
    /// Sets VX to VX and VY.
    BitwiseAnd { x: u8, y: u8 },
    /// Code: 8XY3
    ///
    /// Sets VX to VX xor VY.
    BitwiseXor { x: u8, y: u8 },
    /// Code: 8XY4
    ///
    /// Adds VY to VX. VF is set to 1 when there is a carry, and to 0 when
    /// there is not.
    AddValues { x: u8, y: u8 },
    /// Code: 8XY5
    ///
    /// VY is subtracted from VX. VF is set to 0 when there is a borrow, and
    /// to 1 when there is not.
    SubtractValues { x: u8, y: u8 },
    /// Code: 8XY6
    ///
    /// Stores the least significant bit of VX in VF and shifts VX to the
    /// right by 1.
    StoreLeastSignificant { x: u8, y: u8 },
    /// Code: 8XY7
    ///
    /// Sets VX to VY minus VX. VF is set to 0 when there is a borrow, and to
    /// 1 when there is not.
    SubtractValueFromRegister { x: u8, y: u8 },
    /// Code: 8XYE
    ///
    /// Stores the most significant bit of VX in VF and shifts VX to the left
    /// by 1.
    StoreMostSignificant { x: u8, y: u8 },
    /// Code: 9XY0
    ///
    /// Skips the next instruction if VX does not equal VY.
    InequalityRegister { x: u8, y: u8 },
    /// Code: ANNN
    ///
    /// Sets I to the address NNN.
    SetIndexToAddress { nnn: u16 },
    /// Code: BNNN
    ///
    /// Jumps to the address NNN plus V0.
    GotoAddressWithRegister { nnn: u16 },
    /// Code: CXNN
    ///
    /// Sets VX to the bitwise and of a random byte and NN.
    AssignRandomNumber { x: u8, nn: u8 },
    /// Code: DXYN
    ///
    /// Draws a sprite at coordinate (VX, VY) that is 8 pixels wide and N
    /// pixels high. Each row of 8 pixels is read bit-coded from memory,
    /// starting at location I, which does not change. VF is set to 1 if any
    /// screen pixel is flipped from set to unset, and to 0 otherwise.
    DrawSprite { x: u8, y: u8, n: u8 },
    /// Code: EX9E
    ///
    /// Skips the next instruction if the key stored in VX is pressed.
    SkipIfKeyPressed { x: u8 },
    /// Code: EXA1
    ///
    /// Skips the next instruction if the key stored in VX is not pressed.
    SkipIfKeyNotPressed { x: u8 },
    /// Code: FX07
    ///
    /// Sets VX to the value of the delay timer.
    GetDelayTimer { x: u8 },
    /// Code: FX0A
    ///
    /// A key press is awaited, and then stored in VX. No instruction runs
    /// until the key arrives.
    StoreNextKeypress { x: u8 },
    /// Code: FX15
    ///
    /// Sets the delay timer to VX.
    SetDelayTimer { x: u8 },
    /// Code: FX18
    ///
    /// Sets the sound timer to VX.
    SetSoundTimer { x: u8 },
    /// Code: FX1E
    ///
    /// Adds VX to I. VF is not affected.
    AddToIndex { x: u8 },
    /// Code: FX29
    ///
    /// Sets I to the location of the font sprite for the character in VX.
    SetIndexToSprite { x: u8 },
    /// Code: FX33
    ///
    /// Stores the decimal digits of VX: hundreds at the address in I, tens
    /// at I plus 1, ones at I plus 2.
    StoreBinaryCodedDecimal { x: u8 },
    /// Code: FX55
    ///
    /// Stores V0 to VX, VX included, in memory starting at address I, which
    /// is left unmodified.
    StoreRegistersInMemory { x: u8 },
    /// Code: FX65
    ///
    /// Fills V0 to VX, VX included, from memory starting at address I, which
    /// is left unmodified.
    SetRegistersFromMemory { x: u8 },
}

/// Why an instruction word could not be decoded.
#[derive(Debug, Clone, Copy, PartialEq, Eq, Structural)]
pub enum DecodeError {
    /// The word is no instruction of the machine; it is carried along.
    Unknown(u16),
}

/// The top nibble of an instruction word, which selects its family.
pub open spec fn family(instruction: u16) -> u16 {
    instruction >> 12
}

/// Bits 11..8 of an instruction word: the first register index.
pub open spec fn field_x(instruction: u16) -> u8 {
    ((instruction >> 8) & 0xF) as u8
}

/// Bits 7..4 of an instruction word: the second register index.
pub open spec fn field_y(instruction: u16) -> u8 {
    ((instruction >> 4) & 0xF) as u8
}

/// Bits 3..0 of an instruction word: a nibble.
pub open spec fn field_n(instruction: u16) -> u8 {
    (instruction & 0xF) as u8
}

/// Bits 7..0 of an instruction word: an immediate byte.
pub open spec fn field_nn(instruction: u16) -> u8 {
    (instruction & 0xFF) as u8
}

/// Bits 11..0 of an instruction word: an address.
pub open spec fn field_nnn(instruction: u16) -> u16 {
    instruction & 0xFFF
}

impl Operation {
    /// Every field lies in the range that its place in an instruction word
    /// allows: register indices and the sprite height below 16, addresses
    /// below 4096.
    pub open spec fn well_formed(self) -> bool {
        match self {
            Operation::NoOperation | Operation::ClearDisplay | Operation::SubroutineReturn => true,
            Operation::GotoAddress { nnn }
            | Operation::SubroutineCall { nnn }
            | Operation::SetIndexToAddress { nnn }
            | Operation::GotoAddressWithRegister { nnn } => nnn <= 0xFFF,
            Operation::EqualityCheck { x, nn }
            | Operation::InequalityCheck { x, nn }
            | Operation::SetRegister { x, nn }
            | Operation::AddRegister { x, nn }
            | Operation::AssignRandomNumber { x, nn } => x <= 15,
            Operation::EqualityRegisterCheck { x, y }
            | Operation::SetRegisterFromRegister { x, y }
            | Operation::BitwiseOr { x, y }
            | Operation::BitwiseAnd { x, y }
            | Operation::BitwiseXor { x, y }
            | Operation::AddValues { x, y }
            | Operation::SubtractValues { x, y }
            | Operation::StoreLeastSignificant { x, y }
            | Operation::SubtractValueFromRegister { x, y }
            | Operation::StoreMostSignificant { x, y }
            | Operation::InequalityRegister { x, y } => x <= 15 && y <= 15,
            Operation::DrawSprite { x, y, n } => x <= 15 && y <= 15 && n <= 15,
            Operation::SkipIfKeyPressed { x }
            | Operation::SkipIfKeyNotPressed { x }
            | Operation::GetDelayTimer { x }
            | Operation::StoreNextKeypress { x }
            | Operation::SetDelayTimer { x }
            | Operation::SetSoundTimer { x }
            | Operation::AddToIndex { x }
            | Operation::SetIndexToSprite { x }
            | Operation::StoreBinaryCodedDecimal { x }
            | Operation::StoreRegistersInMemory { x }
            | Operation::SetRegistersFromMemory { x } => x <= 15,
        }
    }
}

/// The operation of family 0 with low byte `nn`, if there is one.
pub open spec fn control_operation(nn: u8) -> Option<Operation> {
    if nn == 0x00 {
        Some(Operation::NoOperation)
    } else if nn == 0xE0 {
        Some(Operation::ClearDisplay)
    } else if nn == 0xEE {
        Some(Operation::SubroutineReturn)
    } else {
        None
    }
}

/// The operation of family 8 on registers `x` and `y` that the low nibble
/// `n` selects, if there is one.
pub open spec fn register_operation(x: u8, y: u8, n: u8) -> Option<Operation> {
    if n == 0x0 {
        Some(Operation::SetRegisterFromRegister { x, y })
    } else if n == 0x1 {
        Some(Operation::BitwiseOr { x, y })
    } else if n == 0x2 {
        Some(Operation::BitwiseAnd { x, y })
    } else if n == 0x3 {
        Some(Operation::BitwiseXor { x, y })
    } else if n == 0x4 {
        Some(Operation::AddValues { x, y })
    } else if n == 0x5 {
        Some(Operation::SubtractValues { x, y })
    } else if n == 0x6 {
        Some(Operation::StoreLeastSignificant { x, y })
    } else if n == 0x7 {
        Some(Operation::SubtractValueFromRegister { x, y })
    } else if n == 0xE {
        Some(Operation::StoreMostSignificant { x, y })
    } else {
        None
    }
}

/// The operation of family E on register `x` that the low byte `nn`
/// selects, if there is one.
pub open spec fn key_operation(x: u8, nn: u8) -> Option<Operation> {
    if nn == 0x9E {
        Some(Operation::SkipIfKeyPressed { x })
    } else if nn == 0xA1 {
        Some(Operation::SkipIfKeyNotPressed { x })
    } else {
        None
    }
}

/// The operation of family F on register `x` that the low byte `nn`
/// selects, if there is one.
pub open spec fn system_operation(x: u8, nn: u8) -> Option<Operation> {
    if nn == 0x07 {
        Some(Operation::GetDelayTimer { x })
    } else if nn == 0x0A {
        Some(Operation::StoreNextKeypress { x })
    } else if nn == 0x15 {
        Some(Operation::SetDelayTimer { x })
    } else if nn == 0x18 {
        Some(Operation::SetSoundTimer { x })
    } else if nn == 0x1E {
        Some(Operation::AddToIndex { x })
    } else if nn == 0x29 {
        Some(Operation::SetIndexToSprite { x })
    } else if nn == 0x33 {
        Some(Operation::StoreBinaryCodedDecimal { x })
    } else if nn == 0x55 {
        Some(Operation::StoreRegistersInMemory { x })
    } else if nn == 0x65 {
        Some(Operation::SetRegistersFromMemory { x })
    } else {
        None
    }
}

/// The operation that an instruction word stands for, if it stands for one.
///
/// Families 0, E and F choose by the low byte, family 8 by the low nibble;
/// every other family holds one operation, whatever its remaining bits.
pub open spec fn operation_of(instruction: u16) -> Option<Operation> {
    let x = field_x(instruction);
    let y = field_y(instruction);
    let n = field_n(instruction);
    let nn = field_nn(instruction);
    let nnn = field_nnn(instruction);
    let family = family(instruction);
    if family == 0x0 {
        control_operation(nn)
    } else if family == 0x1 {
        Some(Operation::GotoAddress { nnn })
    } else if family == 0x2 {
        Some(Operation::SubroutineCall { nnn })
    } else if family == 0x3 {
        Some(Operation::EqualityCheck { x, nn })
    } else if family == 0x4 {
        Some(Operation::InequalityCheck { x, nn })
    } else if family == 0x5 {
        Some(Operation::EqualityRegisterCheck { x, y })
    } else if family == 0x6 {
        Some(Operation::SetRegister { x, nn })
    } else if family == 0x7 {
        Some(Operation::AddRegister { x, nn })
    } else if family == 0x8 {
        register_operation(x, y, n)
    } else if family == 0x9 {
        Some(Operation::InequalityRegister { x, y })
    } else if family == 0xA {
        Some(Operation::SetIndexToAddress { nnn })
    } else if family == 0xB {
        Some(Operation::GotoAddressWithRegister { nnn })
    } else if family == 0xC {
        Some(Operation::AssignRandomNumber { x, nn })
    } else if family == 0xD {
        Some(Operation::DrawSprite { x, y, n })
    } else if family == 0xE {
        key_operation(x, nn)
    } else {
        system_operation(x, nn)
    }
}

/// What decoding an instruction word gives: its operation, or the word
/// itself as unknown.
pub open spec fn decode_spec(instruction: u16) -> Result<Operation, DecodeError> {
    match operation_of(instruction) {
        Some(operation) => Ok(operation),
        None => Err(DecodeError::Unknown(instruction)),
    }
}

/// The instruction word of family `family` that carries the address `nnn`.
pub open spec fn word_nnn(family: u16, nnn: u16) -> u16 {
    (family << 12) | nnn
}

/// The instruction word of family `family` that carries the register index
/// `x` and the byte `nn`.
pub open spec fn word_x_nn(family: u16, x: u8, nn: u8) -> u16 {
    (family << 12) | ((x as u16) << 8) | (nn as u16)
}

/// The instruction word of family `family` that carries the register
/// indices `x` and `y` and the nibble `n`.
pub open spec fn word_x_y_n(family: u16, x: u8, y: u8, n: u8) -> u16 {
    (family << 12) | ((x as u16) << 8) | ((y as u16) << 4) | (n as u16)
}

impl Operation {
    /// The instruction word that stands for an operation. Where the
    /// decoder ignores bits of a word, they are zero here.
    pub open spec fn encode(self) -> u16 {
        match self {
            Operation::NoOperation => word_x_nn(0x0, 0, 0x00),
            Operation::ClearDisplay => word_x_nn(0x0, 0, 0xE0),
            Operation::SubroutineReturn => word_x_nn(0x0, 0, 0xEE),
            Operation::GotoAddress { nnn } => word_nnn(0x1, nnn),
            Operation::SubroutineCall { nnn } => word_nnn(0x2, nnn),
            Operation::EqualityCheck { x, nn } => word_x_nn(0x3, x, nn),
            Operation::InequalityCheck { x, nn } => word_x_nn(0x4, x, nn),
            Operation::EqualityRegisterCheck { x, y } => word_x_y_n(0x5, x, y, 0x0),
            Operation::SetRegister { x, nn } => word_x_nn(0x6, x, nn),
            Operation::AddRegister { x, nn } => word_x_nn(0x7, x, nn),
            Operation::SetRegisterFromRegister { x, y } => word_x_y_n(0x8, x, y, 0x0),
            Operation::BitwiseOr { x, y } => word_x_y_n(0x8, x, y, 0x1),
            Operation::BitwiseAnd { x, y } => word_x_y_n(0x8, x, y, 0x2),
            Operation::BitwiseXor { x, y } => word_x_y_n(0x8, x, y, 0x3),
            Operation::AddValues { x, y } => word_x_y_n(0x8, x, y, 0x4),
            Operation::SubtractValues { x, y } => word_x_y_n(0x8, x, y, 0x5),
            Operation::StoreLeastSignificant { x, y } => word_x_y_n(0x8, x, y, 0x6),
            Operation::SubtractValueFromRegister { x, y } => word_x_y_n(0x8, x, y, 0x7),
            Operation::StoreMostSignificant { x, y } => word_x_y_n(0x8, x, y, 0xE),
            Operation::InequalityRegister { x, y } => word_x_y_n(0x9, x, y, 0x0),
            Operation::SetIndexToAddress { nnn } => word_nnn(0xA, nnn),
            Operation::GotoAddressWithRegister { nnn } => word_nnn(0xB, nnn),
            Operation::AssignRandomNumber { x, nn } => word_x_nn(0xC, x, nn),
            Operation::DrawSprite { x, y, n } => word_x_y_n(0xD, x, y, n),
            Operation::SkipIfKeyPressed { x } => word_x_nn(0xE, x, 0x9E),
            Operation::SkipIfKeyNotPressed { x } => word_x_nn(0xE, x, 0xA1),
            Operation::GetDelayTimer { x } => word_x_nn(0xF, x, 0x07),
            Operation::StoreNextKeypress { x } => word_x_nn(0xF, x, 0x0A),
            Operation::SetDelayTimer { x } => word_x_nn(0xF, x, 0x15),
            Operation::SetSoundTimer { x } => word_x_nn(0xF, x, 0x18),
            Operation::AddToIndex { x } => word_x_nn(0xF, x, 0x1E),
            Operation::SetIndexToSprite { x } => word_x_nn(0xF, x, 0x29),
            Operation::StoreBinaryCodedDecimal { x } => word_x_nn(0xF, x, 0x33),
            Operation::StoreRegistersInMemory { x } => word_x_nn(0xF, x, 0x55),
            Operation::SetRegistersFromMemory { x } => word_x_nn(0xF, x, 0x65),
        }
    }
}

/// The fields of a word built from a family and an address.
pub proof fn lemma_word_nnn_fields(family: u16, nnn: u16)
    by (bit_vector)
    requires
        family <= 15,
        nnn <= 0xFFF,
    ensures
        ((family << 12) | nnn) >> 12 == family,
        ((family << 12) | nnn) & 0xFFF == nnn,
{
}

/// The fields of a word built from a family, a register index and a byte.
pub proof fn lemma_word_x_nn_fields(family: u16, x: u8, nn: u8)
    by (bit_vector)
    requires
        family <= 15,
        x <= 15,
    ensures
        ((family << 12) | ((x as u16) << 8) | (nn as u16)) >> 12 == family,
        (((family << 12) | ((x as u16) << 8) | (nn as u16)) >> 8) & 0xF == x as u16,
        ((family << 12) | ((x as u16) << 8) | (nn as u16)) & 0xFF == nn as u16,
{
}

/// The fields of a word built from a family, two register indices and a
/// nibble.
pub proof fn lemma_word_x_y_n_fields(family: u16, x: u8, y: u8, n: u8)
    by (bit_vector)
    requires
        family <= 15,
        x <= 15,
        y <= 15,
        n <= 15,
    ensures
        ((family << 12) | ((x as u16) << 8) | ((y as u16) << 4) | (n as u16)) >> 12 == family,
        (((family << 12) | ((x as u16) << 8) | ((y as u16) << 4) | (n as u16)) >> 8) & 0xF
            == x as u16,
        (((family << 12) | ((x as u16) << 8) | ((y as u16) << 4) | (n as u16)) >> 4) & 0xF
            == y as u16,
        ((family << 12) | ((x as u16) << 8) | ((y as u16) << 4) | (n as u16)) & 0xF == n as u16,
{
}

/// Decoding undoes encoding: the word of a well-formed operation decodes
/// to that operation. So every operation has a word, and no two operations
/// share their word.
pub proof fn lemma_decode_encode(operation: Operation)
    requires
        operation.well_formed(),
    ensures
        decode_spec(operation.encode()) == Ok::<Operation, DecodeError>(operation),
{
    match operation {
        Operation::NoOperation => lemma_word_x_nn_fields(0x0, 0, 0x00),
        Operation::ClearDisplay => lemma_word_x_nn_fields(0x0, 0, 0xE0),
        Operation::SubroutineReturn => lemma_word_x_nn_fields(0x0, 0, 0xEE),
        Operation::GotoAddress { nnn } => lemma_word_nnn_fields(0x1, nnn),
        Operation::SubroutineCall { nnn } => lemma_word_nnn_fields(0x2, nnn),
        Operation::EqualityCheck { x, nn } => lemma_word_x_nn_fields(0x3, x, nn),
        Operation::InequalityCheck { x, nn } => lemma_word_x_nn_fields(0x4, x, nn),
        Operation::EqualityRegisterCheck { x, y } => lemma_word_x_y_n_fields(0x5, x, y, 0x0),
        Operation::SetRegister { x, nn } => lemma_word_x_nn_fields(0x6, x, nn),
        Operation::AddRegister { x, nn } => lemma_word_x_nn_fields(0x7, x, nn),
        Operation::SetRegisterFromRegister { x, y } => lemma_word_x_y_n_fields(0x8, x, y, 0x0),
        Operation::BitwiseOr { x, y } => lemma_word_x_y_n_fields(0x8, x, y, 0x1),
        Operation::BitwiseAnd { x, y } => lemma_word_x_y_n_fields(0x8, x, y, 0x2),
        Operation::BitwiseXor { x, y } => lemma_word_x_y_n_fields(0x8, x, y, 0x3),
        Operation::AddValues { x, y } => lemma_word_x_y_n_fields(0x8, x, y, 0x4),
        Operation::SubtractValues { x, y } => lemma_word_x_y_n_fields(0x8, x, y, 0x5),
        Operation::StoreLeastSignificant { x, y } => lemma_word_x_y_n_fields(0x8, x, y, 0x6),
        Operation::SubtractValueFromRegister { x, y } => lemma_word_x_y_n_fields(0x8, x, y, 0x7),
        Operation::StoreMostSignificant { x, y } => lemma_word_x_y_n_fields(0x8, x, y, 0xE),
        Operation::InequalityRegister { x, y } => lemma_word_x_y_n_fields(0x9, x, y, 0x0),
        Operation::SetIndexToAddress { nnn } => lemma_word_nnn_fields(0xA, nnn),
        Operation::GotoAddressWithRegister { nnn } => lemma_word_nnn_fields(0xB, nnn),
        Operation::AssignRandomNumber { x, nn } => lemma_word_x_nn_fields(0xC, x, nn),
        Operation::DrawSprite { x, y, n } => lemma_word_x_y_n_fields(0xD, x, y, n),
        Operation::SkipIfKeyPressed { x } => lemma_word_x_nn_fields(0xE, x, 0x9E),
        Operation::SkipIfKeyNotPressed { x } => lemma_word_x_nn_fields(0xE, x, 0xA1),
        Operation::GetDelayTimer { x } => lemma_word_x_nn_fields(0xF, x, 0x07),
        Operation::StoreNextKeypress { x } => lemma_word_x_nn_fields(0xF, x, 0x0A),
        Operation::SetDelayTimer { x } => lemma_word_x_nn_fields(0xF, x, 0x15),
        Operation::SetSoundTimer { x } => lemma_word_x_nn_fields(0xF, x, 0x18),
        Operation::AddToIndex { x } => lemma_word_x_nn_fields(0xF, x, 0x1E),
        Operation::SetIndexToSprite { x } => lemma_word_x_nn_fields(0xF, x, 0x29),
        Operation::StoreBinaryCodedDecimal { x } => lemma_word_x_nn_fields(0xF, x, 0x33),
        Operation::StoreRegistersInMemory { x } => lemma_word_x_nn_fields(0xF, x, 0x55),
        Operation::SetRegistersFromMemory { x } => lemma_word_x_nn_fields(0xF, x, 0x65),
    }
}

/// Decoding is total: every instruction word gives an operation whose
/// fields are in range, or the error that carries the word; it gives the
/// error exactly for the words that stand for no operation.
pub proof fn lemma_decode_total(instruction: u16)
    ensures
        match decode_spec(instruction) {
            Ok(operation) => operation.well_formed() && operation_of(instruction) == Some(
                operation,
            ),
            Err(error) => error == DecodeError::Unknown(instruction) && operation_of(instruction)
                is None,
        },
{
    lemma_field_masks(instruction);
}

/// How the masks that the decoder applies relate to the fields of an
/// instruction word, and the ranges of those fields.
pub proof fn lemma_field_masks(instruction: u16)
    by (bit_vector)
    ensures
        instruction >> 12 <= 15,
        instruction & 0xF000 == (instruction >> 12) * 0x1000,
        (instruction & 0x0F00) >> 8 == (instruction >> 8) & 0xF,
        (instruction & 0x00F0) >> 4 == (instruction >> 4) & 0xF,
        (instruction >> 8) & 0xF <= 15,
        (instruction >> 4) & 0xF <= 15,
        instruction & 0xF <= 15,
        instruction & 0xFF <= 0xFF,
        instruction & 0xFFF <= 0xFFF,
{
}

/// Extracts the first register index of an instruction word.
#[inline]
pub fn parse_x(opcode: u16) -> (x: u8)
    ensures
        x == field_x(opcode),
        x <= 15,
{
    proof {
        lemma_field_masks(opcode);
    }
    ((opcode & 0x0F00) >> 8) as u8
}

/// Extracts both register indices of an instruction word.
#[inline]
pub fn parse_x_y(opcode: u16) -> (xy: (u8, u8))
    ensures
        xy == (field_x(opcode), field_y(opcode)),
        xy.0 <= 15,
        xy.1 <= 15,
{
    proof {
        lemma_field_masks(opcode);
    }
    (((opcode & 0x0F00) >> 8) as u8, ((opcode & 0x00F0) >> 4) as u8)
}

/// Extracts both register indices and the low nibble of an instruction
/// word.
#[inline]
pub fn parse_x_y_n(opcode: u16) -> (xyn: (u8, u8, u8))
    ensures
        xyn == (field_x(opcode), field_y(opcode), field_n(opcode)),
        xyn.0 <= 15,
        xyn.1 <= 15,
        xyn.2 <= 15,
{
    proof {
        lemma_field_masks(opcode);
    }
    let x = parse_x(opcode);
    let y = (opcode & 0x00F0) >> 4;
    let n = opcode & 0x000F;
    (x, y as u8, n as u8)
}

/// Extracts the first register index and the immediate byte of an
/// instruction word.
#[inline]
pub fn parse_x_nn(opcode: u16) -> (xnn: (u8, u8))
    ensures
        xnn == (field_x(opcode), field_nn(opcode)),
        xnn.0 <= 15,
{
    proof {
        lemma_field_masks(opcode);
    }
    (((opcode & 0x0F00) >> 8) as u8, (opcode & 0x00FF) as u8)
}

/// Extracts the address of an instruction word.
#[inline]
pub fn parse_nnn(opcode: u16) -> (nnn: u16)
    ensures
        nnn == field_nnn(opcode),
        nnn <= 0xFFF,
{
    proof {
        lemma_field_masks(opcode);
    }
    opcode & 0x0FFF
}

/// Decodes an instruction word into an operation.
///
/// Every word gives either its operation, with all fields in range, or
/// `DecodeError::Unknown` carrying the word.
pub fn decode(opcode: u16) -> (decoded: Result<Operation, DecodeError>)
    ensures
        decoded == decode_spec(opcode),
        decoded matches Ok(operation) ==> operation.well_formed(),
        decoded is Err <==> operation_of(opcode) is None,
        decoded is Err ==> decoded == Err::<Operation, DecodeError>(DecodeError::Unknown(opcode)),
{
    proof {
        lemma_field_masks(opcode);
    }
    match opcode & 0xF000 {
        0x0000 => match opcode & 0x00FF {
            0x0000 => Ok(Operation::NoOperation),
            0x00E0 => Ok(Operation::ClearDisplay),
            0x00EE => Ok(Operation::SubroutineReturn),
            _ => Err(DecodeError::Unknown(opcode)),
        },
        0x1000 => Ok(Operation::GotoAddress { nnn: parse_nnn(opcode) }),
        0x2000 => Ok(Operation::SubroutineCall { nnn: parse_nnn(opcode) }),
        0x3000 => {
            let (x, nn) = parse_x_nn(opcode);
            Ok(Operation::EqualityCheck { x, nn })
        },
        0x4000 => {
            let (x, nn) = parse_x_nn(opcode);
            Ok(Operation::InequalityCheck { x, nn })
        },
        0x5000 => {
            let (x, y) = parse_x_y(opcode);
            Ok(Operation::EqualityRegisterCheck { x, y })
        },
        0x6000 => {
            let (x, nn) = parse_x_nn(opcode);
            Ok(Operation::SetRegister { x, nn })
        },
        0x7000 => {
            let (x, nn) = parse_x_nn(opcode);
            Ok(Operation::AddRegister { x, nn })
        },
        0x8000 => {
            let (x, y) = parse_x_y(opcode);
            match opcode & 0x000F {
                0x0000 => Ok(Operation::SetRegisterFromRegister { x, y }),
                0x0001 => Ok(Operation::BitwiseOr { x, y }),
                0x0002 => Ok(Operation::BitwiseAnd { x, y }),
                0x0003 => Ok(Operation::BitwiseXor { x, y }),
                0x0004 => Ok(Operation::AddValues { x, y }),
                0x0005 => Ok(Operation::SubtractValues { x, y }),
                0x0006 => Ok(Operation::StoreLeastSignificant { x, y }),
                0x0007 => Ok(Operation::SubtractValueFromRegister { x, y }),
                0x000E => Ok(Operation::StoreMostSignificant { x, y }),
                _ => Err(DecodeError::Unknown(opcode)),
            }
        },
        0x9000 => {
            let (x, y) = parse_x_y(opcode);
            Ok(Operation::InequalityRegister { x, y })
        },
        0xA000 => Ok(Operation::SetIndexToAddress { nnn: parse_nnn(opcode) }),
        0xB000 => Ok(Operation::GotoAddressWithRegister { nnn: parse_nnn(opcode) }),
        0xC000 => {
            let (x, nn) = parse_x_nn(opcode);
            Ok(Operation::AssignRandomNumber { x, nn })
        },
        0xD000 => {
            let (x, y, n) = parse_x_y_n(opcode);
            Ok(Operation::DrawSprite { x, y, n })
        },
        0xE000 => {
            let x = parse_x(opcode);
            match opcode & 0x00FF {
                0x009E => Ok(Operation::SkipIfKeyPressed { x }),
                0x00A1 => Ok(Operation::SkipIfKeyNotPressed { x }),
                _ => Err(DecodeError::Unknown(opcode)),
            }
        },
        0xF000 => {
            let x = parse_x(opcode);
            match opcode & 0x00FF {
                0x0007 => Ok(Operation::GetDelayTimer { x }),
                0x000A => Ok(Operation::StoreNextKeypress { x }),
                0x0015 => Ok(Operation::SetDelayTimer { x }),
                0x0018 => Ok(Operation::SetSoundTimer { x }),
                0x001E => Ok(Operation::AddToIndex { x }),
                0x0029 => Ok(Operation::SetIndexToSprite { x }),
                0x0033 => Ok(Operation::StoreBinaryCodedDecimal { x }),
                0x0055 => Ok(Operation::StoreRegistersInMemory { x }),
                0x0065 => Ok(Operation::SetRegistersFromMemory { x }),
                _ => Err(DecodeError::Unknown(opcode)),
            }
        },
        _ => Err(DecodeError::Unknown(opcode)),
    }
}

} // verus!
