//! The execution engine: fetch, decode, execute.

use crate::alu::{add_with_carry, shift_left, shift_right, subtract_with_borrow};
use crate::machine::{access_fault, Fault, Machine, StepOutcome, MEMORY_SIZE, STACK_DEPTH};
use crate::opcode::{decode, Operation};
use crate::system::System;
use vstd::prelude::*;

verus! {

impl System {
    /// Fetches the instruction word at the program counter: two bytes,
    /// the high one first. Both must lie within memory.
    pub fn fetch(&self) -> (fetched: Result<u16, Fault>)
        ensures
            match access_fault(self@.program_counter, 2) {
                Some(fault) => fetched == Err::<u16, Fault>(fault),
                None => fetched == Ok::<u16, Fault>(self@.instruction()),
            },
    {
        let at = self.program_counter();
        if let Some(fault) = memory_fault(at, 2) {
            return Err(fault);
        }
        let high = self.memory(at) as u16;
        let low = self.memory(at + 1) as u16;
        Ok(high << 8 | low)
    }

    /// Executes one operation, as the instruction at the program counter.
    ///
    /// The result is the fault that stops the operation, with the machine
    /// as it was, or what the host has to attend to, with the machine in
    /// the state after the operation. `random` is the byte that the
    /// operation `AssignRandomNumber` uses. Whether the machine awaits a
    /// key is not asked here: `step` asks.
    pub fn execute(&mut self, operation: Operation, random: u8) -> (result: Result<
        StepOutcome,
        Fault,
    >)
        requires
            old(self).wf(),
            operation.well_formed(),
        ensures
            final(self).wf(),
            match old(self)@.execute(operation, random) {
                Ok(machine) => final(self)@ == machine && result == Ok::<StepOutcome, Fault>(
                    machine.outcome(),
                ),
                Err(fault) => final(self)@ == old(self)@ && result == Err::<StepOutcome, Fault>(
                    fault,
                ),
            },
    {
        if let Some(fault) = self.fault_of(operation) {
            return Err(fault);
        }
        self.apply(operation, random);
        proof {
            lemma_apply_valid(old(self)@, operation, random);
        }
        Ok(self.outcome())
    }

    /// The fault that stops `operation` in the present state, if there is
    /// one.
    pub fn fault_of(&self, operation: Operation) -> (fault: Option<Fault>)
        ensures
            fault == self@.fault_of(operation),
    {
        if let Some(fault) = memory_fault(self.program_counter(), 2) {
            return Some(fault);
        }
        match operation {
            Operation::SubroutineReturn => if self.stack_depth() == 0 {
                Some(Fault::StackUnderflow)
            } else {
                None
            },
            Operation::SubroutineCall { .. } => if self.stack_depth() >= STACK_DEPTH {
                Some(Fault::StackOverflow)
            } else {
                None
            },
            Operation::DrawSprite { n, .. } => memory_fault(self.index(), n as usize),
            Operation::StoreBinaryCodedDecimal { .. } => memory_fault(self.index(), 3),
            Operation::StoreRegistersInMemory { x } => memory_fault(self.index(), x as usize + 1),
            Operation::SetRegistersFromMemory { x } => memory_fault(self.index(), x as usize + 1),
            _ => None,
        }
    }

    /// Carries out an operation that no fault stops.
    fn apply(&mut self, operation: Operation, random: u8)
        requires
            old(self).wf(),
            operation.well_formed(),
            old(self)@.fault_of(operation) is None,
        ensures
            final(self)@ == old(self)@.apply(operation, random),
    {
        match operation {
            Operation::NoOperation => {
                self.advance();
            },
            Operation::ClearDisplay => {
                self.clear_pixels();
                self.advance();
            },
            Operation::SubroutineReturn => {
                self.pop_return();
            },
            Operation::GotoAddress { nnn } => {
                self.jump(nnn);
            },
            Operation::SubroutineCall { nnn } => {
                self.push_return();
                self.jump(nnn);
            },
            Operation::EqualityCheck { x, nn } => {
                self.skip_if(self.register(x) == nn);
            },
            Operation::InequalityCheck { x, nn } => {
                self.skip_if(self.register(x) != nn);
            },
            Operation::EqualityRegisterCheck { x, y } => {
                self.skip_if(self.register(x) == self.register(y));
            },
            Operation::SetRegister { x, nn } => {
                self.set_register(x, nn);
                self.advance();
            },
            Operation::AddRegister { x, nn } => {
                self.set_register(x, self.register(x).wrapping_add(nn));
                self.advance();
            },
            Operation::SetRegisterFromRegister { x, y } => {
                self.set_register(x, self.register(y));
                self.advance();
            },
            Operation::BitwiseOr { x, y } => {
                self.set_register(x, self.register(x) | self.register(y));
                self.advance();
            },
            Operation::BitwiseAnd { x, y } => {
                self.set_register(x, self.register(x) & self.register(y));
                self.advance();
            },
            Operation::BitwiseXor { x, y } => {
                self.set_register(x, self.register(x) ^ self.register(y));
                self.advance();
            },
            Operation::AddValues { x, y } => {
                let (sum, carry) = add_with_carry(self.register(x), self.register(y));
                self.set_register(x, sum);
                self.set_flag(carry);
                self.advance();
            },
            Operation::SubtractValues { x, y } => {
                let (difference, no_borrow) = subtract_with_borrow(
                    self.register(x),
                    self.register(y),
                );
                self.set_register(x, difference);
                self.set_flag(no_borrow);
                self.advance();
            },
            Operation::StoreLeastSignificant { x, .. } => {
                let (shifted, shifted_out) = shift_right(self.register(x));
                self.set_register(x, shifted);
                self.set_flag(shifted_out);
                self.advance();
            },
            Operation::SubtractValueFromRegister { x, y } => {
                let (difference, no_borrow) = subtract_with_borrow(
                    self.register(y),
                    self.register(x),
                );
                self.set_register(x, difference);
                self.set_flag(no_borrow);
                self.advance();
            },
            Operation::StoreMostSignificant { x, .. } => {
                let (shifted, shifted_out) = shift_left(self.register(x));
                self.set_register(x, shifted);
                self.set_flag(shifted_out);
                self.advance();
            },
            Operation::InequalityRegister { x, y } => {
                self.skip_if(self.register(x) != self.register(y));
            },
            Operation::SetIndexToAddress { nnn } => {
                self.set_index(nnn);
                self.advance();
            },
            Operation::GotoAddressWithRegister { nnn } => {
                self.jump(self.register(0) as u16 + nnn);
            },
            Operation::AssignRandomNumber { x, nn } => {
                self.set_register(x, random & nn);
                self.advance();
            },
            Operation::DrawSprite { x, y, n } => {
                self.draw_sprite(x, y, n);
            },
            Operation::SkipIfKeyPressed { x } => {
                self.skip_if(self.key_pressed(self.register(x)));
            },
            Operation::SkipIfKeyNotPressed { x } => {
                self.skip_if(!self.key_pressed(self.register(x)));
            },
            Operation::GetDelayTimer { x } => {
                self.set_register(x, self.delay_timer());
                self.advance();
            },
            Operation::StoreNextKeypress { x } => {
                self.await_key(x);
                self.advance();
            },
            Operation::SetDelayTimer { x } => {
                self.set_delay_timer(self.register(x));
                self.advance();
            },
            Operation::SetSoundTimer { x } => {
                self.set_sound_timer(self.register(x));
                self.advance();
            },
            Operation::AddToIndex { x } => {
                self.set_index(self.index().wrapping_add(self.register(x) as u16));
                self.advance();
            },
            Operation::SetIndexToSprite { x } => {
                self.set_index(self.register(x) as u16 * 5);
                self.advance();
            },
            Operation::StoreBinaryCodedDecimal { x } => {
                self.store_decimal(x);
            },
            Operation::StoreRegistersInMemory { x } => {
                self.store_registers(x);
            },
            Operation::SetRegistersFromMemory { x } => {
                self.load_registers(x);
            },
        }
    }

    /// One step of the machine.
    ///
    /// A machine that awaits a key does nothing. A running machine
    /// fetches the instruction at the program counter, decodes it and
    /// executes the operation. A fault stops the step and leaves the
    /// machine as it was: a program counter that does not lie within
    /// memory, a word that is no instruction, or the fault of the
    /// operation. `random` is the byte that the operation
    /// `AssignRandomNumber` uses.
    pub fn step(&mut self, random: u8) -> (result: Result<StepOutcome, Fault>)
        requires
            old(self).wf(),
        ensures
            final(self).wf(),
            match old(self)@.step(random) {
                Ok(machine) => final(self)@ == machine && result == Ok::<StepOutcome, Fault>(
                    machine.outcome(),
                ),
                Err(fault) => final(self)@ == old(self)@ && result == Err::<StepOutcome, Fault>(
                    fault,
                ),
            },
    {
        if self.awaiting_key() {
            return Ok(self.outcome());
        }
        let instruction = match self.fetch() {
            Ok(instruction) => instruction,
            Err(fault) => {
                return Err(fault);
            },
        };
        match decode(instruction) {
            Ok(operation) => self.execute(operation, random),
            Err(_) => Err(
                Fault::DecodeError { instruction, program_counter: self.program_counter() },
            ),
        }
    }
}

/// The fault of an access to the `len` bytes from `start` on, if it leaves
/// memory.
fn memory_fault(start: u16, len: usize) -> (fault: Option<Fault>)
    requires
        len <= MEMORY_SIZE,
    ensures
        fault == access_fault(start, len as int),
{
    if len > 0 && start as usize + len > MEMORY_SIZE {
        Some(
            Fault::MemoryFault {
                address: if start as usize >= MEMORY_SIZE {
                    start
                } else {
                    4096
                },
            },
        )
    } else {
        None
    }
}

/// An operation that no fault stops leaves a valid machine valid.
pub proof fn lemma_apply_valid(machine: Machine, operation: Operation, random: u8)
    requires
        machine.valid(),
        operation.well_formed(),
        machine.fault_of(operation) is None,
    ensures
        machine.apply(operation, random).valid(),
{
}

} // verus!
