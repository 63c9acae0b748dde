//! Laws of the machine that relate several operations.

use crate::engine::lemma_apply_valid;
use crate::machine::{
    glyph_row, Fault, Machine, RunState, DISPLAY_HEIGHT, DISPLAY_SIZE, DISPLAY_WIDTH, FONT_SET,
    FONT_SIZE, GLYPH_SIZE,
};
use crate::opcode::{decode_spec, lemma_decode_total, Operation};
use vstd::prelude::*;

verus! {

/// Every step that no fault stops leaves a valid machine valid: the call
/// stack stays within its depth, and every return address on it is one at
/// which an instruction lies within memory.
pub proof fn lemma_step_keeps_valid(machine: Machine, after: Machine, random: u8)
    requires
        machine.valid(),
        machine.step(random) == Ok::<Machine, Fault>(after),
    ensures
        after.valid(),
{
    if machine.state is Running {
        lemma_decode_total(machine.instruction());
        let operation = decode_spec(machine.instruction())->Ok_0;
        lemma_apply_valid(machine, operation, random);
    }
}

/// The three bytes that `StoreBinaryCodedDecimal` stores are the decimal
/// digits of VX: each is at most 9, and they make up the value.
pub proof fn lemma_decimal_digits(machine: Machine, after: Machine, x: u8, random: u8)
    requires
        machine.valid(),
        (Operation::StoreBinaryCodedDecimal { x }).well_formed(),
        machine.execute(Operation::StoreBinaryCodedDecimal { x }, random) == Ok::<Machine, Fault>(
            after,
        ),
    ensures
        after.memory[machine.index as int] <= 9,
        after.memory[machine.index + 1] <= 9,
        after.memory[machine.index + 2] <= 9,
        100 * after.memory[machine.index as int] + 10 * after.memory[machine.index + 1]
            + after.memory[machine.index + 2] == machine.v(x),
        forall|a: int|
            0 <= a < after.memory.len() && !(machine.index <= a < machine.index + 3)
                ==> after.memory[a] == machine.memory[a],
{
}

/// Storing V0 to VX and then filling them from the same place gives the
/// registers back, whatever they held in between.
pub proof fn lemma_store_then_load(
    machine: Machine,
    stored: Machine,
    changed: Machine,
    loaded: Machine,
    x: u8,
    first_random: u8,
    second_random: u8,
)
    requires
        machine.valid(),
        (Operation::StoreRegistersInMemory { x }).well_formed(),
        machine.execute(Operation::StoreRegistersInMemory { x }, first_random) == Ok::<
            Machine,
            Fault,
        >(stored),
        changed.valid(),
        changed.memory == stored.memory,
        changed.index == stored.index,
        changed.execute(Operation::SetRegistersFromMemory { x }, second_random) == Ok::<
            Machine,
            Fault,
        >(loaded),
    ensures
        forall|i: u8| i <= x ==> loaded.v(i) == machine.v(i),
        forall|i: u8| x < i <= 15 ==> loaded.v(i) == changed.v(i),
        loaded.index == machine.index,
{
}

/// The glyph of a hexadecimal digit lies where `SetIndexToSprite` points
/// for it: in a machine that still holds the font, the five bytes from
/// there on are the five rows of the glyph.
pub proof fn lemma_glyph_address(machine: Machine, after: Machine, x: u8, random: u8)
    requires
        machine.valid(),
        (Operation::SetIndexToSprite { x }).well_formed(),
        machine.v(x) <= 15,
        forall|a: int| 0 <= a < FONT_SIZE ==> machine.memory[a] == FONT_SET@[a],
        machine.execute(Operation::SetIndexToSprite { x }, random) == Ok::<Machine, Fault>(after),
    ensures
        after.index == machine.v(x) * GLYPH_SIZE,
        after.index + GLYPH_SIZE <= FONT_SIZE,
        forall|row: int|
            0 <= row < GLYPH_SIZE ==> after.memory[after.index + row] == #[trigger] glyph_row(
                machine.v(x) as int,
                row,
            ),
{
}

/// Drawing the same sprite twice at the same place brings the display
/// back to what it was. The second draw reports a collision, VF = 1,
/// exactly if the first draw turned a pixel on; otherwise it reports
/// none, VF = 0.
///
/// The place is the same if the first draw leaves the two coordinates as
/// they were, which it does unless one of them is read from VF.
pub proof fn lemma_draw_twice_restores(
    machine: Machine,
    once: Machine,
    twice: Machine,
    x: u8,
    y: u8,
    n: u8,
    first_random: u8,
    second_random: u8,
)
    requires
        machine.valid(),
        (Operation::DrawSprite { x, y, n }).well_formed(),
        machine.execute(Operation::DrawSprite { x, y, n }, first_random) == Ok::<Machine, Fault>(
            once,
        ),
        once.execute(Operation::DrawSprite { x, y, n }, second_random) == Ok::<Machine, Fault>(
            twice,
        ),
        once.v(x) % (DISPLAY_WIDTH as u8) == machine.v(x) % (DISPLAY_WIDTH as u8),
        once.v(y) % (DISPLAY_HEIGHT as u8) == machine.v(y) % (DISPLAY_HEIGHT as u8),
    ensures
        twice.framebuffer == machine.framebuffer,
        twice.memory == machine.memory,
        twice.index == machine.index,
        twice.v(0xF) == 1 <==> exists|p: int|
            0 <= p < DISPLAY_SIZE && !machine.framebuffer[p] && #[trigger] once.framebuffer[p],
        twice.v(0xF) == 0 <==> !exists|p: int|
            0 <= p < DISPLAY_SIZE && !machine.framebuffer[p] && #[trigger] once.framebuffer[p],
{
    let x0 = (machine.v(x) % (DISPLAY_WIDTH as u8)) as int;
    let y0 = (machine.v(y) % (DISPLAY_HEIGHT as u8)) as int;
    assert forall|p: int| 0 <= p < DISPLAY_SIZE implies once.sprite_flips(x0, y0, n as int, p)
        == machine.sprite_flips(x0, y0, n as int, p) by {}
    assert(twice.framebuffer =~= machine.framebuffer);
    let turned_on = exists|p: int|
        0 <= p < DISPLAY_SIZE && !machine.framebuffer[p] && #[trigger] once.framebuffer[p];
    if once.sprite_collides(x0, y0, n as int) {
        let p = choose|p: int|
            0 <= p < DISPLAY_SIZE && once.framebuffer[p] && #[trigger] once.sprite_flips(
                x0,
                y0,
                n as int,
                p,
            );
        assert(!machine.framebuffer[p] && once.framebuffer[p]);
    }
    if turned_on {
        let p = choose|p: int|
            0 <= p < DISPLAY_SIZE && !machine.framebuffer[p] && #[trigger] once.framebuffer[p];
        assert(once.sprite_flips(x0, y0, n as int, p));
    }
}

/// A subroutine call followed at once by a return continues behind the
/// call: the program counter is two past the call, and everything else,
/// the call stack included, is as it was before the call.
pub proof fn lemma_call_then_return(
    machine: Machine,
    called: Machine,
    returned: Machine,
    nnn: u16,
    first_random: u8,
    second_random: u8,
)
    requires
        machine.valid(),
        (Operation::SubroutineCall { nnn }).well_formed(),
        machine.execute(Operation::SubroutineCall { nnn }, first_random) == Ok::<Machine, Fault>(
            called,
        ),
        called.execute(Operation::SubroutineReturn, second_random) == Ok::<Machine, Fault>(
            returned,
        ),
    ensures
        called.program_counter == nnn,
        returned == machine.next(),
        returned.program_counter == machine.program_counter + 2,
{
    assert(machine.stack.push(machine.program_counter).drop_last() =~= machine.stack);
}

/// The operation that awaits a key leaves the machine waiting, with the
/// program counter behind the instruction.
pub proof fn lemma_await_key_suspends(machine: Machine, waiting: Machine, x: u8, random: u8)
    requires
        machine.valid(),
        (Operation::StoreNextKeypress { x }).well_formed(),
        machine.execute(Operation::StoreNextKeypress { x }, random) == Ok::<Machine, Fault>(
            waiting,
        ),
    ensures
        waiting.valid(),
        waiting.state == (RunState::AwaitingKey { x }),
        waiting.program_counter == machine.program_counter + 2,
        waiting.registers == machine.registers,
{
}

/// A machine that awaits a key stays as it is through every step, and
/// keeps waiting through every tick of the clock and every key that goes
/// up. When a key goes down, its code goes to the register that waited,
/// the key counts as pressed, and the machine runs again, from where it
/// stopped: its next step fetches, decodes and executes.
pub proof fn lemma_awaiting_key_until_key_down(machine: Machine, x: u8, key: u8, random: u8)
    requires
        machine.valid(),
        machine.state == (RunState::AwaitingKey { x }),
        key <= 15,
    ensures
        machine.step(random) == Ok::<Machine, Fault>(machine),
        machine.tick().state == machine.state,
        machine.key_up(key).state == machine.state,
        machine.key_down(key).valid(),
        machine.key_down(key).state == RunState::Running,
        machine.key_down(key).v(x) == key,
        machine.key_down(key).key_pressed(key),
        machine.key_down(key).program_counter == machine.program_counter,
        forall|i: u8| i <= 15 && i != x ==> machine.key_down(key).v(i) == machine.v(i),
{
}

/// The redraw flag goes up with every operation that clears the display
/// or draws on it, and stays as it is through every other operation. It
/// goes down when the host has drawn, which leaves the display and
/// everything else as they are.
pub proof fn lemma_redraw_flag(machine: Machine, after: Machine, operation: Operation, random: u8)
    requires
        machine.valid(),
        operation.well_formed(),
        machine.execute(operation, random) == Ok::<Machine, Fault>(after),
    ensures
        operation is ClearDisplay || operation is DrawSprite ==> after.redraw_pending,
        !(operation is ClearDisplay || operation is DrawSprite) ==> after.redraw_pending
            == machine.redraw_pending,
        !after.redraw_done().redraw_pending,
        after.redraw_done().framebuffer == after.framebuffer,
        after.redraw_done().valid(),
        after.redraw_done() == (Machine { redraw_pending: false, ..after }),
{
    lemma_apply_valid(machine, operation, random);
}

/// What an operation leaves alone. The address register changes only
/// through the three operations that set it, so drawing and the block
/// transfers leave it as it is. Memory changes only through the two
/// operations that store to it, the display only through clearing and
/// drawing, the call stack only through call and return, the timers only
/// through the operations that set them, the control state only through
/// the wait for a key. No operation touches the keys. Adding an immediate
/// changes no register but the one it names, and adding to the address
/// register changes none at all: neither defines the flag.
pub proof fn lemma_untouched_parts(
    machine: Machine,
    after: Machine,
    operation: Operation,
    random: u8,
)
    requires
        machine.valid(),
        operation.well_formed(),
        machine.execute(operation, random) == Ok::<Machine, Fault>(after),
    ensures
        !(operation is SetIndexToAddress || operation is AddToIndex || operation
            is SetIndexToSprite) ==> after.index == machine.index,
        !(operation is StoreBinaryCodedDecimal || operation is StoreRegistersInMemory)
            ==> after.memory == machine.memory,
        !(operation is ClearDisplay || operation is DrawSprite) ==> after.framebuffer
            == machine.framebuffer && after.redraw_pending == machine.redraw_pending,
        !(operation is SubroutineCall || operation is SubroutineReturn) ==> after.stack
            == machine.stack,
        !(operation is SetDelayTimer) ==> after.delay_timer == machine.delay_timer,
        !(operation is SetSoundTimer) ==> after.sound_timer == machine.sound_timer,
        !(operation is StoreNextKeypress) ==> after.state == machine.state,
        after.keys == machine.keys,
        operation matches Operation::AddRegister { x, nn } ==> forall|i: u8|
            i <= 15 && i != x ==> after.v(i) == machine.v(i),
        operation is AddToIndex ==> after.registers == machine.registers,
{
}

/// A program whose jumps and calls all go to even addresses keeps the
/// program counter even, and with it every return address on the call
/// stack.
pub proof fn lemma_program_counter_stays_even(
    machine: Machine,
    after: Machine,
    operation: Operation,
    random: u8,
)
    requires
        machine.valid(),
        operation.well_formed(),
        machine.program_counter % 2 == 0,
        forall|i: int| 0 <= i < machine.stack.len() ==> #[trigger] machine.stack[i] % 2 == 0,
        operation matches Operation::GotoAddress { nnn } ==> nnn % 2 == 0,
        operation matches Operation::SubroutineCall { nnn } ==> nnn % 2 == 0,
        operation matches Operation::GotoAddressWithRegister { nnn } ==> (machine.v(0) + nnn) % 2
            == 0,
        machine.execute(operation, random) == Ok::<Machine, Fault>(after),
    ensures
        after.program_counter % 2 == 0,
        forall|i: int| 0 <= i < after.stack.len() ==> #[trigger] after.stack[i] % 2 == 0,
{
}

} // verus!
