//! The mathematical model of the virtual machine.
//!
//! A `Machine` is the state of a CHIP-8 machine as plain mathematical
//! values. The functions on it say what each operation does to that state;
//! the executable `System` is held to them.

use crate::opcode::{decode_spec, Operation};
use vstd::prelude::*;

verus! {

/// Number of bytes of memory.
pub const MEMORY_SIZE: usize = 4096;

/// Address at which a program is loaded and at which execution starts.
pub const PROGRAM_START: u16 = 0x200;

/// Largest number of bytes that a program may have.
pub const PROGRAM_CAPACITY: usize = 3584;

/// Number of return addresses that the call stack holds.
pub const STACK_DEPTH: usize = 16;

/// Number of pixels in a row of the display.
pub const DISPLAY_WIDTH: usize = 64;

/// Number of rows of the display.
pub const DISPLAY_HEIGHT: usize = 32;

/// Number of pixels of the display.
pub const DISPLAY_SIZE: usize = 2048;

/// Number of bytes of a font glyph.
pub const GLYPH_SIZE: usize = 5;

/// Number of bytes of the font table.
pub const FONT_SIZE: usize = 80;

/// The built-in font: sixteen glyphs, for the digits 0 to F, of five rows
/// each. A row holds its four pixels in the high nibble.
pub const FONT_SET: [u8; 80] = [
    0xF0, 0x90, 0x90, 0x90, 0xF0,
    0x20, 0x60, 0x20, 0x20, 0x70,
    0xF0, 0x10, 0xF0, 0x80, 0xF0,
    0xF0, 0x10, 0xF0, 0x10, 0xF0,
    0x90, 0x90, 0xF0, 0x10, 0x10,
    0xF0, 0x80, 0xF0, 0x10, 0xF0,
    0xF0, 0x80, 0xF0, 0x90, 0xF0,
    0xF0, 0x10, 0x20, 0x40, 0x40,
    0xF0, 0x90, 0xF0, 0x90, 0xF0,
    0xF0, 0x90, 0xF0, 0x10, 0xF0,
    0xF0, 0x90, 0xF0, 0x90, 0x90,
    0xE0, 0x90, 0xE0, 0x90, 0xE0,
    0xF0, 0x80, 0x80, 0x80, 0xF0,
    0xE0, 0x90, 0x90, 0x90, 0xE0,
    0xF0, 0x80, 0xF0, 0x80, 0xF0,
    0xF0, 0x80, 0xF0, 0x80, 0x80,
];

/// Row `row` of the glyph of the hexadecimal digit `digit`.
pub open spec fn glyph_row(digit: int, row: int) -> u8 {
    FONT_SET@[digit * GLYPH_SIZE + row]
}

/// A fatal fault of the machine. The state in which a fault arises is left
/// as it was.
#[derive(Debug, Clone, Copy, PartialEq, Eq, Structural)]
pub enum Fault {
    /// The word at the program counter is no instruction.
    DecodeError { instruction: u16, program_counter: u16 },
    /// A subroutine call found the call stack full.
    StackOverflow,
    /// A subroutine return found the call stack empty.
    StackUnderflow,
    /// A program does not fit into memory.
    RomTooLarge,
    /// An access reached beyond memory; `address` is the first address of
    /// the access that lies outside.
    MemoryFault { address: u16 },
}

/// The control state of the machine.
#[derive(Debug, Clone, Copy, PartialEq, Eq, Structural)]
pub enum RunState {
    /// Instructions are executed.
    Running,
    /// No instruction is executed until a key goes down; its code then goes
    /// to register `x`.
    AwaitingKey { x: u8 },
}

/// What the host has to attend to after a step.
#[derive(Debug, Clone, Copy, PartialEq, Eq, Structural)]
pub struct StepOutcome {
    /// The display has changed since the host last drew it.
    pub redraw_needed: bool,
    /// The sound timer is running.
    pub sound_active: bool,
}

/// The state of the machine.
#[verifier::ext_equal]
pub struct Machine {
    /// The 4096 bytes of memory.
    pub memory: Seq<u8>,
    /// The registers V0 to VF.
    pub registers: Seq<u8>,
    /// The address register I.
    pub index: u16,
    /// The address of the next instruction.
    pub program_counter: u16,
    /// The return addresses of the calls in progress, the latest last.
    pub stack: Seq<u16>,
    /// The delay timer.
    pub delay_timer: u8,
    /// The sound timer.
    pub sound_timer: u8,
    /// For each of the sixteen keys, whether it is pressed.
    pub keys: Seq<bool>,
    /// The pixels of the display, row by row: the pixel of column `x` and
    /// row `y` is at `y * 64 + x`.
    pub framebuffer: Seq<bool>,
    /// The display has changed since the host last drew it.
    pub redraw_pending: bool,
    /// The control state.
    pub state: RunState,
}

/// Whether the pixel of column `col`, counted from the left, is set in the
/// sprite row `byte`: the leftmost pixel is the highest bit.
pub open spec fn sprite_bit(byte: u8, col: u8) -> bool {
    byte & (0x80u8 >> col) != 0
}

/// The place in the framebuffer of the pixel at a position, given as
/// column and row.
pub open spec fn place_of(position: (u8, u8)) -> int {
    position.1 * DISPLAY_WIDTH + position.0
}

/// The fault of an access to the `len` bytes from `start` on, if it leaves
/// memory.
pub open spec fn access_fault(start: u16, len: int) -> Option<Fault> {
    if len > 0 && start + len > MEMORY_SIZE {
        Some(
            Fault::MemoryFault {
                address: if start >= MEMORY_SIZE {
                    start
                } else {
                    MEMORY_SIZE as u16
                },
            },
        )
    } else {
        None
    }
}

impl Machine {
    /// The sizes of the parts are those of the machine, the call stack is
    /// no deeper than its capacity, every return address is one at which
    /// an instruction was fetched, and an awaited key has a register to go
    /// to.
    pub open spec fn valid(self) -> bool {
        &&& self.memory.len() == MEMORY_SIZE
        &&& self.registers.len() == 16
        &&& self.keys.len() == 16
        &&& self.framebuffer.len() == DISPLAY_SIZE
        &&& self.stack.len() <= STACK_DEPTH
        &&& forall|i: int| 0 <= i < self.stack.len() ==> #[trigger] self.stack[i] + 1 < MEMORY_SIZE
        &&& self.state matches RunState::AwaitingKey { x } ==> x <= 15
    }

    /// The machine as it is created: the font at the start of memory, the
    /// program counter at the program start, everything else zero.
    pub open spec fn initial() -> Machine {
        Machine {
            memory: Seq::new(
                MEMORY_SIZE as nat,
                |a: int|
                    if a < FONT_SIZE {
                        FONT_SET@[a]
                    } else {
                        0u8
                    },
            ),
            registers: Seq::new(16, |i: int| 0u8),
            index: 0,
            program_counter: PROGRAM_START,
            stack: Seq::empty(),
            delay_timer: 0,
            sound_timer: 0,
            keys: Seq::new(16, |i: int| false),
            framebuffer: Seq::new(DISPLAY_SIZE as nat, |p: int| false),
            redraw_pending: false,
            state: RunState::Running,
        }
    }

    /// The value of register `x`.
    pub open spec fn v(self, x: u8) -> u8 {
        self.registers[x as int]
    }

    /// The machine with `value` in register `x`.
    pub open spec fn with_register(self, x: u8, value: u8) -> Machine {
        Machine { registers: self.registers.update(x as int, value), ..self }
    }

    /// The machine with the flag register VF set to 1 if `flag` holds, and
    /// to 0 if not.
    pub open spec fn with_flag(self, flag: bool) -> Machine {
        self.with_register(
            0xF,
            if flag {
                1u8
            } else {
                0u8
            },
        )
    }

    /// The machine with the program counter moved on by one instruction.
    pub open spec fn next(self) -> Machine {
        Machine { program_counter: (self.program_counter + 2) as u16, ..self }
    }

    /// The machine with the program counter moved on by two instructions
    /// if `condition` holds, by one if not.
    pub open spec fn skip_if(self, condition: bool) -> Machine {
        if condition {
            Machine { program_counter: (self.program_counter + 4) as u16, ..self }
        } else {
            self.next()
        }
    }

    /// The machine with the program counter at `target`.
    pub open spec fn jump(self, target: u16) -> Machine {
        Machine { program_counter: target, ..self }
    }

    /// Whether the key with code `key` is pressed. A code above 15 names
    /// no key, and counts as not pressed.
    pub open spec fn key_pressed(self, key: u8) -> bool {
        key < 16 && self.keys[key as int]
    }

    /// Whether the host has anything to do after a step that led here.
    pub open spec fn outcome(self) -> StepOutcome {
        StepOutcome { redraw_needed: self.redraw_pending, sound_active: self.sound_timer > 0 }
    }

    /// The instruction word at the program counter: the byte there is its
    /// high half, the byte after its low half.
    pub open spec fn instruction(self) -> u16 {
        (self.memory[self.program_counter as int] as u16) << 8
            | (self.memory[self.program_counter + 1] as u16)
    }

    /// Whether a sprite of `n` rows, read from address I on and drawn with
    /// its top left corner at column `x0` and row `y0`, has a set pixel at
    /// column `px` and row `py`. The part of a sprite that would lie
    /// beyond the right or the bottom edge of the display is cut off: it
    /// does not come back in at the opposite edge.
    pub open spec fn sprite_covers(self, x0: int, y0: int, n: int, px: int, py: int) -> bool {
        &&& y0 <= py < y0 + n
        &&& x0 <= px < x0 + 8
        &&& sprite_bit(self.memory[self.index + (py - y0)], (px - x0) as u8)
    }

    /// Whether drawing that sprite flips the pixel at place `p` of the
    /// framebuffer.
    pub open spec fn sprite_flips(self, x0: int, y0: int, n: int, p: int) -> bool {
        self.sprite_covers(x0, y0, n, p % (DISPLAY_WIDTH as int), p / (DISPLAY_WIDTH as int))
    }

    /// Whether drawing that sprite turns off a pixel that is on.
    pub open spec fn sprite_collides(self, x0: int, y0: int, n: int) -> bool {
        exists|p: int|
            0 <= p < DISPLAY_SIZE && self.framebuffer[p] && #[trigger] self.sprite_flips(
                x0,
                y0,
                n,
                p,
            )
    }

    /// Draws the sprite of `n` rows at address I with its top left corner
    /// at column `VX mod 64` and row `VY mod 32`: every pixel under a set
    /// pixel of the sprite is flipped. VF becomes 1 if a pixel went off,
    /// and 0 if none did. I and the memory stay as they are.
    pub open spec fn draw_sprite(self, x: u8, y: u8, n: u8) -> Machine {
        let x0 = self.v(x) % (DISPLAY_WIDTH as u8);
        let y0 = self.v(y) % (DISPLAY_HEIGHT as u8);
        Machine {
            framebuffer: Seq::new(
                DISPLAY_SIZE as nat,
                |p: int|
                    self.framebuffer[p] != self.sprite_flips(x0 as int, y0 as int, n as int, p),
            ),
            redraw_pending: true,
            ..self
        }.with_flag(self.sprite_collides(x0 as int, y0 as int, n as int)).next()
    }

    /// Stores the decimal digits of `VX` at the addresses I, I + 1 and
    /// I + 2, the hundreds first.
    pub open spec fn store_decimal(self, x: u8) -> Machine {
        let value = self.v(x);
        let at = self.index as int;
        Machine {
            memory: self.memory.update(at, value / 100).update(at + 1, (value / 10) % 10).update(
                at + 2,
                value % 10,
            ),
            ..self
        }.next()
    }

    /// Stores V0 to VX, VX included, at the addresses from I on.
    pub open spec fn store_registers(self, x: u8) -> Machine {
        let at = self.index as int;
        Machine {
            memory: Seq::new(
                MEMORY_SIZE as nat,
                |a: int|
                    if at <= a <= at + x {
                        self.registers[a - at]
                    } else {
                        self.memory[a]
                    },
            ),
            ..self
        }.next()
    }

    /// Fills V0 to VX, VX included, from the addresses from I on.
    pub open spec fn load_registers(self, x: u8) -> Machine {
        let at = self.index as int;
        Machine {
            registers: Seq::new(
                16,
                |i: int|
                    if i <= x {
                        self.memory[at + i]
                    } else {
                        self.registers[i]
                    },
            ),
            ..self
        }.next()
    }

    /// The fault that stops `operation` in this state, if there is one.
    /// The instruction itself must lie within memory; a call needs room on
    /// the stack and a return an address on it; what an operation reads or
    /// writes through I must lie within memory.
    pub open spec fn fault_of(self, operation: Operation) -> Option<Fault> {
        if access_fault(self.program_counter, 2) is Some {
            access_fault(self.program_counter, 2)
        } else {
            match operation {
                Operation::SubroutineReturn => if self.stack.len() == 0 {
                    Some(Fault::StackUnderflow)
                } else {
                    None
                },
                Operation::SubroutineCall { nnn } => if self.stack.len() >= STACK_DEPTH {
                    Some(Fault::StackOverflow)
                } else {
                    None
                },
                Operation::DrawSprite { x, y, n } => access_fault(self.index, n as int),
                Operation::StoreBinaryCodedDecimal { x } => access_fault(self.index, 3),
                Operation::StoreRegistersInMemory { x } => access_fault(self.index, x + 1),
                Operation::SetRegistersFromMemory { x } => access_fault(self.index, x + 1),
                _ => None,
            }
        }
    }

    /// The state after `operation`, where no fault stops it. `random` is
    /// the byte that the host drew for this step.
    ///
    /// An operation that defines the flag writes its result to VX first
    /// and the flag to VF last, so with `x` = F the flag is what VF holds
    /// afterwards. The flag is computed from the operands as they were
    /// before the operation.
    pub open spec fn apply(self, operation: Operation, random: u8) -> Machine {
        match operation {
            Operation::NoOperation => self.next(),
            Operation::ClearDisplay => Machine {
                framebuffer: Seq::new(DISPLAY_SIZE as nat, |p: int| false),
                redraw_pending: true,
                ..self
            }.next(),
            Operation::SubroutineReturn => Machine {
                stack: self.stack.drop_last(),
                ..self
            }.jump((self.stack.last() + 2) as u16),
            Operation::GotoAddress { nnn } => self.jump(nnn),
            Operation::SubroutineCall { nnn } => Machine {
                stack: self.stack.push(self.program_counter),
                ..self
            }.jump(nnn),
            Operation::EqualityCheck { x, nn } => self.skip_if(self.v(x) == nn),
            Operation::InequalityCheck { x, nn } => self.skip_if(self.v(x) != nn),
            Operation::EqualityRegisterCheck { x, y } => self.skip_if(self.v(x) == self.v(y)),
            Operation::SetRegister { x, nn } => self.with_register(x, nn).next(),
            Operation::AddRegister { x, nn } => self.with_register(
                x,
                ((self.v(x) + nn) % 256) as u8,
            ).next(),
            Operation::SetRegisterFromRegister { x, y } => self.with_register(x, self.v(y)).next(),
            Operation::BitwiseOr { x, y } => self.with_register(x, self.v(x) | self.v(y)).next(),
            Operation::BitwiseAnd { x, y } => self.with_register(x, self.v(x) & self.v(y)).next(),
            Operation::BitwiseXor { x, y } => self.with_register(x, self.v(x) ^ self.v(y)).next(),
            Operation::AddValues { x, y } => self.with_register(
                x,
                ((self.v(x) + self.v(y)) % 256) as u8,
            ).with_flag(self.v(x) + self.v(y) > 255).next(),
            Operation::SubtractValues { x, y } => self.with_register(
                x,
                ((self.v(x) - self.v(y)) % 256) as u8,
            ).with_flag(self.v(x) >= self.v(y)).next(),
            Operation::StoreLeastSignificant { x, y } => self.with_register(
                x,
                self.v(x) / 2,
            ).with_flag(self.v(x) % 2 == 1).next(),
            Operation::SubtractValueFromRegister { x, y } => self.with_register(
                x,
                ((self.v(y) - self.v(x)) % 256) as u8,
            ).with_flag(self.v(y) >= self.v(x)).next(),
            Operation::StoreMostSignificant { x, y } => self.with_register(
                x,
                ((self.v(x) * 2) % 256) as u8,
            ).with_flag(self.v(x) >= 128).next(),
            Operation::InequalityRegister { x, y } => self.skip_if(self.v(x) != self.v(y)),
            Operation::SetIndexToAddress { nnn } => Machine { index: nnn, ..self }.next(),
            Operation::GotoAddressWithRegister { nnn } => self.jump((self.v(0) + nnn) as u16),
            Operation::AssignRandomNumber { x, nn } => self.with_register(x, random & nn).next(),
            Operation::DrawSprite { x, y, n } => self.draw_sprite(x, y, n),
            Operation::SkipIfKeyPressed { x } => self.skip_if(self.key_pressed(self.v(x))),
            Operation::SkipIfKeyNotPressed { x } => self.skip_if(!self.key_pressed(self.v(x))),
            Operation::GetDelayTimer { x } => self.with_register(x, self.delay_timer).next(),
            Operation::StoreNextKeypress { x } => Machine {
                state: RunState::AwaitingKey { x },
                ..self
            }.next(),
            Operation::SetDelayTimer { x } => Machine { delay_timer: self.v(x), ..self }.next(),
            Operation::SetSoundTimer { x } => Machine { sound_timer: self.v(x), ..self }.next(),
            Operation::AddToIndex { x } => Machine {
                index: ((self.index + self.v(x)) % 0x10000) as u16,
                ..self
            }.next(),
            Operation::SetIndexToSprite { x } => Machine {
                index: (self.v(x) * GLYPH_SIZE) as u16,
                ..self
            }.next(),
            Operation::StoreBinaryCodedDecimal { x } => self.store_decimal(x),
            Operation::StoreRegistersInMemory { x } => self.store_registers(x),
            Operation::SetRegistersFromMemory { x } => self.load_registers(x),
        }
    }

    /// What executing `operation` gives: the fault that stops it, or the
    /// state after it.
    pub open spec fn execute(self, operation: Operation, random: u8) -> Result<Machine, Fault> {
        match self.fault_of(operation) {
            Some(fault) => Err(fault),
            None => Ok(self.apply(operation, random)),
        }
    }

    /// What one step gives. A machine that awaits a key stays as it is.
    /// A running machine fetches the instruction at the program counter,
    /// decodes it and executes the operation.
    pub open spec fn step(self, random: u8) -> Result<Machine, Fault> {
        if self.state is AwaitingKey {
            Ok(self)
        } else if access_fault(self.program_counter, 2) is Some {
            Err(access_fault(self.program_counter, 2)->0)
        } else {
            match decode_spec(self.instruction()) {
                Ok(operation) => self.execute(operation, random),
                Err(error) => Err(
                    Fault::DecodeError {
                        instruction: self.instruction(),
                        program_counter: self.program_counter,
                    },
                ),
            }
        }
    }

    /// The state after a tick of the 60 Hz clock: each timer that runs
    /// goes down by one.
    pub open spec fn tick(self) -> Machine {
        Machine {
            delay_timer: if self.delay_timer > 0 {
                (self.delay_timer - 1) as u8
            } else {
                0
            },
            sound_timer: if self.sound_timer > 0 {
                (self.sound_timer - 1) as u8
            } else {
                0
            },
            ..self
        }
    }

    /// The state after the host has drawn the display: the redraw flag is
    /// down.
    pub open spec fn redraw_done(self) -> Machine {
        Machine { redraw_pending: false, ..self }
    }

    /// The state after the key with code `key` went down: the key is
    /// pressed, and a machine that awaited a key has the code in the
    /// register that waited for it and runs again. A code above 15 names
    /// no key and changes nothing.
    pub open spec fn key_down(self, key: u8) -> Machine {
        if key >= 16 {
            self
        } else {
            let pressed = Machine { keys: self.keys.update(key as int, true), ..self };
            match self.state {
                RunState::Running => pressed,
                RunState::AwaitingKey { x } => Machine {
                    state: RunState::Running,
                    ..pressed.with_register(x, key)
                },
            }
        }
    }

    /// The state after the key with code `key` went up. A code above 15
    /// names no key and changes nothing.
    pub open spec fn key_up(self, key: u8) -> Machine {
        if key >= 16 {
            self
        } else {
            Machine { keys: self.keys.update(key as int, false), ..self }
        }
    }

    /// The state after loading the program `rom`, which must fit: its
    /// bytes lie in memory from the program start on.
    pub open spec fn load_rom(self, rom: Seq<u8>) -> Machine {
        Machine {
            memory: Seq::new(
                MEMORY_SIZE as nat,
                |a: int|
                    if PROGRAM_START <= a < PROGRAM_START + rom.len() {
                        rom[a - PROGRAM_START]
                    } else {
                        self.memory[a]
                    },
            ),
            ..self
        }
    }

    /// The state after loading the font: its bytes lie at the start of
    /// memory.
    pub open spec fn load_font(self) -> Machine {
        Machine {
            memory: Seq::new(
                MEMORY_SIZE as nat,
                |a: int|
                    if a < FONT_SIZE {
                        FONT_SET@[a]
                    } else {
                        self.memory[a]
                    },
            ),
            ..self
        }
    }
}

} // verus!
