//! The executable virtual machine.
//!
//! A `System` owns the whole state of one machine. Its view is a
//! `Machine`, and every method says in terms of that view what it does.

use crate::input_output::InputOutput;
use crate::machine::{
    place_of, sprite_bit, Fault, Machine, RunState, StepOutcome, DISPLAY_HEIGHT, DISPLAY_SIZE,
    DISPLAY_WIDTH, FONT_SET, FONT_SIZE, MEMORY_SIZE, PROGRAM_CAPACITY, PROGRAM_START,
    STACK_DEPTH,
};
use vstd::prelude::*;

verus! {

/// A CHIP-8 virtual machine.
pub struct System {
    draw_flag: bool,
    program_counter: u16,
    index: u16,
    memory: [u8; 4096],
    register: [u8; 16],
    stack: [u16; 16],
    stack_pointer: u8,
    delay_timer: u8,
    sound_timer: u8,
    io: InputOutput,
    state: RunState,
}

impl View for System {
    type V = Machine;

    closed spec fn view(&self) -> Machine {
        Machine {
            memory: self.memory@,
            registers: self.register@,
            index: self.index,
            program_counter: self.program_counter,
            stack: Seq::new(self.stack_pointer as nat, |i: int| self.stack@[i]),
            delay_timer: self.delay_timer,
            sound_timer: self.sound_timer,
            keys: self.io.keys@,
            framebuffer: self.io.pixels@,
            redraw_pending: self.draw_flag,
            state: self.state,
        }
    }
}

impl Default for System {
    /// A machine with the font loaded, ready for a program.
    fn default() -> (system: Self)
        ensures
            system@ == Machine::initial(),
            system.wf(),
    {
        let mut system = System {
            draw_flag: false,
            program_counter: PROGRAM_START,
            index: 0,
            memory: [0;4096],
            register: [0;16],
            stack: [0;16],
            stack_pointer: 0,
            delay_timer: 0,
            sound_timer: 0,
            io: InputOutput::default(),
            state: RunState::Running,
        };
        system.load_font();
        system
    }
}

impl System {
    /// The state is that of a machine: see `Machine::valid`.
    pub open spec fn wf(&self) -> bool {
        self@.valid()
    }

    /// Copies the font table to the start of memory.
    pub fn load_font(&mut self)
        requires
            old(self).wf(),
        ensures
            final(self)@ == old(self)@.load_font(),
            final(self).wf(),
    {
        let mut i: usize = 0;
        while i < FONT_SIZE
            invariant
                i <= FONT_SIZE,
                self@ == (Machine { memory: self@.memory, ..old(self)@ }),
                forall|a: int| 0 <= a < i ==> self.memory@[a] == FONT_SET@[a],
                forall|a: int| i <= a < MEMORY_SIZE ==> self.memory@[a] == old(self).memory@[a],
            decreases FONT_SIZE - i,
        {
            self.memory[i] = FONT_SET[i];
            i += 1;
        }
    }

    /// Copies a program into memory, from the program start on. A program
    /// of more than 3584 bytes does not fit: it is refused, and the
    /// machine stays as it was.
    pub fn load_rom(&mut self, data: Vec<u8>) -> (loaded: Result<(), Fault>)
        requires
            old(self).wf(),
        ensures
            final(self).wf(),
            data.len() <= PROGRAM_CAPACITY ==> loaded is Ok && final(self)@ == old(self)@.load_rom(
                data@,
            ),
            data.len() > PROGRAM_CAPACITY ==> loaded == Err::<(), Fault>(Fault::RomTooLarge)
                && final(self)@ == old(self)@,
    {
        if data.len() > PROGRAM_CAPACITY {
            return Err(Fault::RomTooLarge);
        }
        let mut i: usize = 0;
        while i < data.len()
            invariant
                i <= data.len() <= PROGRAM_CAPACITY,
                self@ == (Machine { memory: self@.memory, ..old(self)@ }),
                forall|a: int|
                    PROGRAM_START <= a < PROGRAM_START + i ==> self.memory@[a] == data@[a
                        - PROGRAM_START],
                forall|a: int|
                    0 <= a < MEMORY_SIZE && !(PROGRAM_START <= a < PROGRAM_START + i)
                        ==> self.memory@[a] == old(self).memory@[a],
            decreases data.len() - i,
        {
            self.memory[i + 0x200] = data[i];
            i += 1;
        }
        Ok(())
    }

    /// The value of register `x`.
    pub fn register(&self, x: u8) -> (value: u8)
        requires
            x <= 15,
        ensures
            value == self@.v(x),
    {
        self.register[x as usize]
    }

    /// The address register I.
    pub fn index(&self) -> (index: u16)
        ensures
            index == self@.index,
    {
        self.index
    }

    /// The address of the next instruction.
    pub fn program_counter(&self) -> (program_counter: u16)
        ensures
            program_counter == self@.program_counter,
    {
        self.program_counter
    }

    /// The byte of memory at `address`.
    pub fn memory(&self, address: u16) -> (byte: u8)
        requires
            address < MEMORY_SIZE,
        ensures
            byte == self@.memory[address as int],
    {
        self.memory[address as usize]
    }

    /// The number of calls in progress.
    pub fn stack_depth(&self) -> (depth: usize)
        ensures
            depth == self@.stack.len(),
    {
        self.stack_pointer as usize
    }

    /// The delay timer.
    pub fn delay_timer(&self) -> (value: u8)
        ensures
            value == self@.delay_timer,
    {
        self.delay_timer
    }

    /// The sound timer.
    pub fn sound_timer(&self) -> (value: u8)
        ensures
            value == self@.sound_timer,
    {
        self.sound_timer
    }

    /// Whether sound is to be heard: it is while the sound timer runs.
    pub fn sound_active(&self) -> (active: bool)
        ensures
            active == (self@.sound_timer > 0),
    {
        self.sound_timer > 0
    }

    /// The control state.
    pub fn state(&self) -> (state: RunState)
        ensures
            state == self@.state,
    {
        self.state
    }

    /// Whether the machine waits for a key.
    pub fn awaiting_key(&self) -> (awaiting: bool)
        ensures
            awaiting == (self@.state is AwaitingKey),
    {
        match self.state {
            RunState::Running => false,
            RunState::AwaitingKey { .. } => true,
        }
    }

    /// Whether the key with code `key` is pressed.
    pub fn key_pressed(&self, key: u8) -> (pressed: bool)
        ensures
            pressed == self@.key_pressed(key),
    {
        self.io.key_pressed(key)
    }

    /// Whether the display has changed since the host last drew it.
    pub fn draw_flag(&self) -> (pending: bool)
        ensures
            pending == self@.redraw_pending,
    {
        self.draw_flag
    }

    /// The host has drawn the display: the redraw flag goes down, and
    /// nothing else changes.
    pub fn redraw_done(&mut self)
        requires
            old(self).wf(),
        ensures
            final(self).wf(),
            final(self)@ == old(self)@.redraw_done(),
    {
        self.draw_flag = false;
    }

    /// What the host has to attend to in the present state.
    pub fn outcome(&self) -> (outcome: StepOutcome)
        ensures
            outcome == self@.outcome(),
    {
        StepOutcome { redraw_needed: self.draw_flag, sound_active: self.sound_timer > 0 }
    }

    /// Whether the pixel of column `x` and row `y` is on.
    pub fn pixel(&self, x: u8, y: u8) -> (on: bool)
        requires
            x < DISPLAY_WIDTH,
            y < DISPLAY_HEIGHT,
        ensures
            on == self@.framebuffer[place_of((x, y))],
    {
        self.io.pixel(x, y)
    }

    /// A copy of the framebuffer as it is now.
    pub fn framebuffer(&self) -> (snapshot: [bool; 2048])
        ensures
            snapshot@ == self@.framebuffer,
    {
        self.io.pixels
    }

    /// What is to be drawn: the positions, as column and row, of the
    /// pixels that are on. Every such pixel is listed once, and they come
    /// row by row, each row from left to right.
    pub fn draw(&self) -> (lit: Vec<(u8, u8)>)
        ensures
            forall|i: int|
                0 <= i < lit.len() ==> (#[trigger] lit[i]).0 < DISPLAY_WIDTH && lit[i].1
                    < DISPLAY_HEIGHT && self@.framebuffer[place_of(lit[i])],
            forall|i: int, j: int|
                0 <= i < j < lit.len() ==> place_of(#[trigger] lit[i]) < place_of(
                    #[trigger] lit[j],
                ),
            forall|x: u8, y: u8|
                x < DISPLAY_WIDTH && y < DISPLAY_HEIGHT && self@.framebuffer[place_of((x, y))]
                    ==> lit@.contains((x, y)),
    {
        self.io.draw()
    }

    /// One tick of the 60 Hz clock: each timer that runs goes down by one.
    pub fn tick_timers(&mut self)
        requires
            old(self).wf(),
        ensures
            final(self).wf(),
            final(self)@ == old(self)@.tick(),
    {
        if self.delay_timer > 0 {
            self.delay_timer -= 1;
        }
        if self.sound_timer > 0 {
            self.sound_timer -= 1;
        }
    }

    /// The key with code `key` went down. A machine that awaited a key
    /// takes the code into the register that waited, and runs again.
    pub fn key_down(&mut self, key: u8)
        requires
            old(self).wf(),
        ensures
            final(self).wf(),
            final(self)@ == old(self)@.key_down(key),
    {
        self.io.set_key(key, true);
        if key < 16 {
            match self.state {
                RunState::Running => {},
                RunState::AwaitingKey { x } => {
                    self.register[x as usize] = key;
                    self.state = RunState::Running;
                },
            }
        }
    }

    /// The key with code `key` went up.
    pub fn key_up(&mut self, key: u8)
        requires
            old(self).wf(),
        ensures
            final(self).wf(),
            final(self)@ == old(self)@.key_up(key),
    {
        self.io.set_key(key, false);
    }

    /// Moves the program counter on by one instruction.
    pub(crate) fn advance(&mut self)
        requires
            old(self)@.program_counter + 2 <= u16::MAX,
        ensures
            final(self)@ == old(self)@.next(),
    {
        self.program_counter += 2;
    }

    /// Moves the program counter on by two instructions if `condition`
    /// holds, by one if not.
    pub(crate) fn skip_if(&mut self, condition: bool)
        requires
            old(self)@.program_counter + 4 <= u16::MAX,
        ensures
            final(self)@ == old(self)@.skip_if(condition),
    {
        if condition {
            self.program_counter += 2;
        }
        self.program_counter += 2;
    }

    /// Sets the program counter.
    pub(crate) fn jump(&mut self, target: u16)
        ensures
            final(self)@ == old(self)@.jump(target),
    {
        self.program_counter = target;
    }

    /// Puts the program counter on the call stack, which has room.
    pub(crate) fn push_return(&mut self)
        requires
            old(self).wf(),
            old(self)@.stack.len() < STACK_DEPTH,
        ensures
            final(self)@ == (Machine {
                stack: old(self)@.stack.push(old(self)@.program_counter),
                ..old(self)@
            }),
    {
        self.stack[self.stack_pointer as usize] = self.program_counter;
        self.stack_pointer += 1;
    }

    /// Takes the latest return address from the call stack, which holds
    /// one, and continues behind the call that put it there.
    pub(crate) fn pop_return(&mut self)
        requires
            old(self).wf(),
            old(self)@.stack.len() > 0,
        ensures
            final(self)@ == (Machine { stack: old(self)@.stack.drop_last(), ..old(self)@ }).jump(
                (old(self)@.stack.last() + 2) as u16,
            ),
    {
        self.stack_pointer -= 1;
        assert(old(self)@.stack[self.stack_pointer as int] + 1 < MEMORY_SIZE);
        self.program_counter = self.stack[self.stack_pointer as usize] + 2;
    }

    /// Sets register `x`.
    pub(crate) fn set_register(&mut self, x: u8, value: u8)
        requires
            x <= 15,
        ensures
            final(self)@ == old(self)@.with_register(x, value),
    {
        self.register[x as usize] = value;
    }

    /// Sets the flag register to 1 if `flag` holds, and to 0 if not.
    pub(crate) fn set_flag(&mut self, flag: bool)
        ensures
            final(self)@ == old(self)@.with_flag(flag),
    {
        self.register[0xF] = if flag {
            1
        } else {
            0
        };
    }

    /// Sets the address register.
    pub(crate) fn set_index(&mut self, index: u16)
        ensures
            final(self)@ == (Machine { index, ..old(self)@ }),
    {
        self.index = index;
    }

    /// Sets the delay timer.
    pub(crate) fn set_delay_timer(&mut self, value: u8)
        ensures
            final(self)@ == (Machine { delay_timer: value, ..old(self)@ }),
    {
        self.delay_timer = value;
    }

    /// Sets the sound timer.
    pub(crate) fn set_sound_timer(&mut self, value: u8)
        ensures
            final(self)@ == (Machine { sound_timer: value, ..old(self)@ }),
    {
        self.sound_timer = value;
    }

    /// Lets the machine wait for a key, whose code will go to register
    /// `x`.
    pub(crate) fn await_key(&mut self, x: u8)
        ensures
            final(self)@ == (Machine { state: RunState::AwaitingKey { x }, ..old(self)@ }),
    {
        self.state = RunState::AwaitingKey { x };
    }

    /// Stores the decimal digits of VX at addresses that lie within
    /// memory.
    pub(crate) fn store_decimal(&mut self, x: u8)
        requires
            x <= 15,
            old(self)@.index + 3 <= MEMORY_SIZE,
            old(self)@.program_counter + 2 <= u16::MAX,
        ensures
            final(self)@ == old(self)@.store_decimal(x),
    {
        let value = self.register[x as usize];
        let at = self.index as usize;
        self.memory[at] = value / 100;
        self.memory[at + 1] = (value / 10) % 10;
        self.memory[at + 2] = value % 10;
        self.program_counter += 2;
    }

    /// Turns every pixel off, and asks for the display to be drawn.
    pub(crate) fn clear_pixels(&mut self)
        ensures
            final(self)@ == (Machine {
                framebuffer: Seq::new(DISPLAY_SIZE as nat, |p: int| false),
                redraw_pending: true,
                ..old(self)@
            }),
    {
        self.io.clear_pixels();
        self.draw_flag = true;
    }

    /// Draws a sprite that lies within memory.
    pub(crate) fn draw_sprite(&mut self, x: u8, y: u8, n: u8)
        requires
            old(self).wf(),
            x <= 15,
            y <= 15,
            n <= 15,
            n > 0 ==> old(self)@.index + n <= MEMORY_SIZE,
            old(self)@.program_counter + 2 <= u16::MAX,
        ensures
            final(self)@ == old(self)@.draw_sprite(x, y, n),
    {
        let x0: u8 = self.register[x as usize] % 64;
        let y0: u8 = self.register[y as usize] % 32;
        let ghost before = self@;
        let mut collision = false;
        let mut row: u8 = 0;
        while row < n
            invariant
                row <= n <= 15,
                x0 < 64,
                y0 < 32,
                before == old(self)@,
                before.valid(),
                n > 0 ==> before.index + n <= MEMORY_SIZE,
                self@ == (Machine { framebuffer: self@.framebuffer, ..before }),
                forall|p: int|
                    0 <= p < DISPLAY_SIZE ==> self.io.pixels@[p] == (before.framebuffer[p]
                        != before.sprite_flips(x0 as int, y0 as int, row as int, p)),
                collision == before.sprite_collides(x0 as int, y0 as int, row as int),
            decreases n - row,
        {
            let py: u8 = y0 + row;
            let byte = self.memory[self.index as usize + row as usize];
            let mut col: u8 = 0;
            proof {
                lemma_row_bounds(before, x0 as int, y0 as int, row as int);
            }
            while col < 8
                invariant
                    col <= 8,
                    row < n <= 15,
                    x0 < 64,
                    y0 < 32,
                    py == y0 + row,
                    before == old(self)@,
                    before.valid(),
                    before.index + n <= MEMORY_SIZE,
                    byte == before.memory[before.index + row],
                    self@ == (Machine { framebuffer: self@.framebuffer, ..before }),
                    forall|p: int|
                        0 <= p < DISPLAY_SIZE ==> self.io.pixels@[p] == (before.framebuffer[p]
                            != flips_so_far(
                            before,
                            x0 as int,
                            y0 as int,
                            row as int,
                            col as int,
                            p,
                        )),
                    collision == collides_so_far(
                        before,
                        x0 as int,
                        y0 as int,
                        row as int,
                        col as int,
                    ),
                decreases 8 - col,
            {
                let px: u8 = x0 + col;
                proof {
                    lemma_next_column(before, x0 as int, y0 as int, row as int, col as int);
                }
                if py < 32 && px < 64 && byte & (0x80u8 >> col) != 0 {
                    proof {
                        lemma_pixel_place(px as int, py as int);
                        assert(sprite_pixel_at(
                            before,
                            x0 as int,
                            y0 as int,
                            row as int,
                            col as int,
                            place_of((px, py)),
                        ));
                    }
                    if self.io.flip_pixel(px, py) {
                        collision = true;
                    }
                }
                col += 1;
            }
            row += 1;
        }
        self.register[0xF] = if collision {
            1
        } else {
            0
        };
        self.draw_flag = true;
        self.program_counter += 2;
    }

    /// Stores V0 to VX at addresses that lie within memory.
    pub(crate) fn store_registers(&mut self, x: u8)
        requires
            old(self).wf(),
            x <= 15,
            old(self)@.index + x + 1 <= MEMORY_SIZE,
            old(self)@.program_counter + 2 <= u16::MAX,
        ensures
            final(self)@ == old(self)@.store_registers(x),
    {
        let at = self.index as usize;
        let mut i: usize = 0;
        while i <= x as usize
            invariant
                i <= x + 1,
                x <= 15,
                at == old(self)@.index,
                at + x + 1 <= MEMORY_SIZE,
                self@ == (Machine { memory: self@.memory, ..old(self)@ }),
                forall|a: int|
                    0 <= a < MEMORY_SIZE ==> self.memory@[a] == if at <= a < at + i {
                        old(self)@.registers[a - at]
                    } else {
                        old(self)@.memory[a]
                    },
            decreases x + 1 - i,
        {
            self.memory[at + i] = self.register[i];
            i += 1;
        }
        self.program_counter += 2;
    }

    /// Fills V0 to VX from addresses that lie within memory.
    pub(crate) fn load_registers(&mut self, x: u8)
        requires
            old(self).wf(),
            x <= 15,
            old(self)@.index + x + 1 <= MEMORY_SIZE,
            old(self)@.program_counter + 2 <= u16::MAX,
        ensures
            final(self)@ == old(self)@.load_registers(x),
    {
        let at = self.index as usize;
        let mut i: usize = 0;
        while i <= x as usize
            invariant
                i <= x + 1,
                x <= 15,
                at == old(self)@.index,
                at + x + 1 <= MEMORY_SIZE,
                self@ == (Machine { registers: self@.registers, ..old(self)@ }),
                forall|k: int|
                    0 <= k < 16 ==> self.register@[k] == if k < i {
                        old(self)@.memory[at + k]
                    } else {
                        old(self)@.registers[k]
                    },
            decreases x + 1 - i,
        {
            self.register[i] = self.memory[at + i];
            i += 1;
        }
        self.program_counter += 2;
    }
}

/// Whether the pixel at place `p` is flipped by the part of a sprite drawn
/// so far: its first `rows` rows, and the first `cols` pixels of the row
/// after them.
spec fn flips_so_far(machine: Machine, x0: int, y0: int, rows: int, cols: int, p: int) -> bool {
    let px = p % 64;
    let py = p / 64;
    ||| machine.sprite_flips(x0, y0, rows, p)
    ||| {
        &&& py == y0 + rows
        &&& x0 <= px < x0 + cols
        &&& sprite_bit(machine.memory[machine.index + rows], (px - x0) as u8)
    }
}

/// Whether the part of a sprite drawn so far turns off a pixel that is on.
spec fn collides_so_far(machine: Machine, x0: int, y0: int, rows: int, cols: int) -> bool {
    exists|p: int|
        0 <= p < DISPLAY_SIZE && machine.framebuffer[p] && #[trigger] flips_so_far(
            machine,
            x0,
            y0,
            rows,
            cols,
            p,
        )
}

/// Whether the pixel at place `p` lies under the pixel of column `col` in
/// row `row` of a sprite, and that pixel is set.
spec fn sprite_pixel_at(machine: Machine, x0: int, y0: int, row: int, col: int, p: int) -> bool {
    &&& y0 + row < 32
    &&& x0 + col < 64
    &&& p == (y0 + row) * 64 + (x0 + col)
    &&& sprite_bit(machine.memory[machine.index + row], col as u8)
}

/// A row of which nothing is drawn yet adds nothing to the rows before
/// it, and a row drawn to its end is one more whole row.
proof fn lemma_row_bounds(machine: Machine, x0: int, y0: int, row: int)
    requires
        0 <= x0 < 64,
        0 <= y0 < 32,
        0 <= row,
    ensures
        forall|p: int|
            0 <= p < DISPLAY_SIZE ==> flips_so_far(machine, x0, y0, row, 0, p)
                == machine.sprite_flips(x0, y0, row, p),
        forall|p: int|
            0 <= p < DISPLAY_SIZE ==> flips_so_far(machine, x0, y0, row, 8, p)
                == machine.sprite_flips(x0, y0, row + 1, p),
        collides_so_far(machine, x0, y0, row, 0) == machine.sprite_collides(x0, y0, row),
        collides_so_far(machine, x0, y0, row, 8) == machine.sprite_collides(x0, y0, row + 1),
{
    assert forall|p: int| 0 <= p < DISPLAY_SIZE implies flips_so_far(machine, x0, y0, row, 8, p)
        == machine.sprite_flips(x0, y0, row + 1, p) by {
        if p / 64 == y0 + row {
            assert(machine.index + (p / 64 - y0) == machine.index + row);
        }
    }
    if collides_so_far(machine, x0, y0, row, 0) {
        let p = choose|p: int|
            0 <= p < DISPLAY_SIZE && machine.framebuffer[p] && #[trigger] flips_so_far(
                machine,
                x0,
                y0,
                row,
                0,
                p,
            );
        assert(machine.sprite_flips(x0, y0, row, p));
    }
    if machine.sprite_collides(x0, y0, row) {
        let p = choose|p: int|
            0 <= p < DISPLAY_SIZE && machine.framebuffer[p] && #[trigger] machine.sprite_flips(
                x0,
                y0,
                row,
                p,
            );
        assert(flips_so_far(machine, x0, y0, row, 0, p));
    }
    if collides_so_far(machine, x0, y0, row, 8) {
        let p = choose|p: int|
            0 <= p < DISPLAY_SIZE && machine.framebuffer[p] && #[trigger] flips_so_far(
                machine,
                x0,
                y0,
                row,
                8,
                p,
            );
        assert(machine.sprite_flips(x0, y0, row + 1, p));
    }
    if machine.sprite_collides(x0, y0, row + 1) {
        let p = choose|p: int|
            0 <= p < DISPLAY_SIZE && machine.framebuffer[p] && #[trigger] machine.sprite_flips(
                x0,
                y0,
                row + 1,
                p,
            );
        assert(flips_so_far(machine, x0, y0, row, 8, p));
    }
}

/// What one more pixel of a sprite row adds to the part drawn so far: the
/// place under it, if the pixel is set and lies on the display. That
/// place was not flipped before.
proof fn lemma_next_column(machine: Machine, x0: int, y0: int, row: int, col: int)
    requires
        0 <= x0 < 64,
        0 <= y0 < 32,
        0 <= row,
        0 <= col < 8,
    ensures
        forall|p: int|
            0 <= p < DISPLAY_SIZE ==> flips_so_far(machine, x0, y0, row, col + 1, p) == (
            flips_so_far(machine, x0, y0, row, col, p) || sprite_pixel_at(
                machine,
                x0,
                y0,
                row,
                col,
                p,
            )),
        forall|p: int|
            0 <= p < DISPLAY_SIZE && sprite_pixel_at(machine, x0, y0, row, col, p)
                ==> !flips_so_far(machine, x0, y0, row, col, p),
        collides_so_far(machine, x0, y0, row, col + 1) == (collides_so_far(
            machine,
            x0,
            y0,
            row,
            col,
        ) || (y0 + row < 32 && x0 + col < 64 && machine.framebuffer[(y0 + row) * 64 + (x0 + col)]
            && sprite_bit(machine.memory[machine.index + row], col as u8))),
{
    assert forall|p: int| 0 <= p < DISPLAY_SIZE implies flips_so_far(
        machine,
        x0,
        y0,
        row,
        col + 1,
        p,
    ) == (flips_so_far(machine, x0, y0, row, col, p) || sprite_pixel_at(
        machine,
        x0,
        y0,
        row,
        col,
        p,
    )) by {
        if p / 64 == y0 + row && p % 64 == x0 + col {
            assert(p == (y0 + row) * 64 + (x0 + col));
            assert((p % 64 - x0) as u8 == col as u8);
        }
    }
    let place = (y0 + row) * 64 + (x0 + col);
    if collides_so_far(machine, x0, y0, row, col + 1) {
        let p = choose|p: int|
            0 <= p < DISPLAY_SIZE && machine.framebuffer[p] && #[trigger] flips_so_far(
                machine,
                x0,
                y0,
                row,
                col + 1,
                p,
            );
        if flips_so_far(machine, x0, y0, row, col, p) {
            assert(collides_so_far(machine, x0, y0, row, col));
        } else {
            assert(sprite_pixel_at(machine, x0, y0, row, col, p));
        }
    }
    if collides_so_far(machine, x0, y0, row, col) {
        let p = choose|p: int|
            0 <= p < DISPLAY_SIZE && machine.framebuffer[p] && #[trigger] flips_so_far(
                machine,
                x0,
                y0,
                row,
                col,
                p,
            );
        assert(flips_so_far(machine, x0, y0, row, col + 1, p));
    }
    if y0 + row < 32 && x0 + col < 64 && machine.framebuffer[place] && sprite_bit(
        machine.memory[machine.index + row],
        col as u8,
    ) {
        assert(sprite_pixel_at(machine, x0, y0, row, col, place));
        assert(flips_so_far(machine, x0, y0, row, col + 1, place));
    }
}

/// The place of the pixel of column `px` and row `py` gives the column and
/// the row back.
proof fn lemma_pixel_place(px: int, py: int)
    requires
        0 <= px < 64,
        0 <= py < 32,
    ensures
        0 <= py * 64 + px < DISPLAY_SIZE,
        (py * 64 + px) % 64 == px,
        (py * 64 + px) / 64 == py,
{
}

} // verus!
