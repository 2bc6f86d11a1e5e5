use vstd::prelude::*;

use crate::display::draw_sprite;
use crate::instruction::{decode, lemma_decode_wf, Instruction};
use crate::model::{
    blank_screen, execute_spec, execute_word_spec, fetch_word, first_pressed, glyph_table,
    initial_ram, initial_state, load_spec, loaded_ram, step_outcome, step_spec, ticked, EmuError,
    MachineState, FLAG_REGISTER, GLYPH_TABLE_SIZE, MAX_PROGRAM_SIZE, NUM_KEYS, NUM_REGISTERS,
    RAM_SIZE, SCREEN_HEIGHT, SCREEN_SIZE, SCREEN_WIDTH, STACK_SIZE, START_ADDR,
};

verus! {

/// Relies on rand::random::<u8>: a byte from the thread-local generator, of
/// which nothing beyond its type is known.
#[verifier::external_body]
fn random_byte() -> u8 {
    rand::random::<u8>()
}

/// The glyph table as bytes.
fn glyph_bytes() -> (r: [u8; GLYPH_TABLE_SIZE])
    ensures
        r@ == glyph_table(),
{
    let r: [u8; GLYPH_TABLE_SIZE] = [
        0xF0, 0x90, 0x90, 0x90, 0xF0, // 0
        0x20, 0x60, 0x20, 0x20, 0x70, // 1
        0xF0, 0x10, 0xF0, 0x80, 0xF0, // 2
        0xF0, 0x10, 0xF0, 0x10, 0xF0, // 3
        0x90, 0x90, 0xF0, 0x10, 0x10, // 4
        0xF0, 0x80, 0xF0, 0x10, 0xF0, // 5
        0xF0, 0x80, 0xF0, 0x90, 0xF0, // 6
        0xF0, 0x10, 0x20, 0x40, 0x40, // 7
        0xF0, 0x90, 0xF0, 0x90, 0xF0, // 8
        0xF0, 0x90, 0xF0, 0x10, 0xF0, // 9
        0xF0, 0x90, 0xF0, 0x90, 0x90, // A
        0xE0, 0x90, 0xE0, 0x90, 0xE0, // B
        0xF0, 0x80, 0x80, 0x80, 0xF0, // C
        0xE0, 0x90, 0x90, 0x90, 0xE0, // D
        0xF0, 0x80, 0xF0, 0x80, 0xF0, // E
        0xF0, 0x80, 0xF0, 0x80, 0x80, // F
    ];
    assert(r@ =~= glyph_table());
    r
}

/// The machine: memory, registers, call stack, keypad, display and timers.
pub struct Emulator {
    pc: u16,
    ram: [u8; RAM_SIZE],
    screen: [bool; SCREEN_SIZE],
    v_registers: [u8; NUM_REGISTERS],
    i_register: u16,
    sp: u16,
    stack: [u16; STACK_SIZE],
    keys: [bool; NUM_KEYS],
    d_timer: u8,
    s_timer: u8,
}

impl View for Emulator {
    type V = MachineState;

    /// The live part of the stack is the one below the stack pointer.
    closed spec fn view(&self) -> MachineState {
        MachineState {
            pc: self.pc,
            ram: self.ram@,
            screen: self.screen@,
            v: self.v_registers@,
            index: self.i_register,
            stack: self.stack@.take(self.sp as int),
            keys: self.keys@,
            delay: self.d_timer,
            sound: self.s_timer,
        }
    }
}

impl Emulator {
    #[verifier::type_invariant]
    spec fn stack_in_bounds(self) -> bool {
        self.sp as usize <= STACK_SIZE
    }

    /// A machine in its initial state, with the glyph table in low memory.
    pub fn new() -> (r: Self)
        ensures
            r@ == initial_state(),
    {
        let glyphs = glyph_bytes();
        let mut ram = [0u8; RAM_SIZE];
        let mut a: usize = 0;
        while a < GLYPH_TABLE_SIZE
            invariant
                0 <= a <= GLYPH_TABLE_SIZE,
                glyphs@ == glyph_table(),
                forall|k: int|
                    0 <= k < RAM_SIZE ==> #[trigger] ram@[k] == if k < a {
                        glyph_table()[k]
                    } else {
                        0u8
                    },
            decreases GLYPH_TABLE_SIZE - a,
        {
            ram[a] = glyphs[a];
            a += 1;
        }
        let r = Emulator {
            pc: START_ADDR,
            ram,
            screen: [false; SCREEN_SIZE],
            v_registers: [0u8; NUM_REGISTERS],
            i_register: 0,
            sp: 0,
            stack: [0u16; STACK_SIZE],
            keys: [false; NUM_KEYS],
            d_timer: 0,
            s_timer: 0,
        };
        assert(r@.ram =~= initial_ram());
        assert(r@.screen =~= blank_screen());
        assert(r@.v =~= initial_state().v);
        assert(r@.keys =~= initial_state().keys);
        assert(r@.stack =~= initial_state().stack);
        r
    }

    /// The display, row-major, 64 pixels to a row.
    pub fn get_display(&self) -> (r: &[bool])
        ensures
            r@ == self@.screen,
    {
        self.screen.as_slice()
    }

    /// The program counter.
    pub fn pc(&self) -> (r: u16)
        ensures
            r == self@.pc,
    {
        self.pc
    }

    /// General-purpose register `x`; the last one is the flag register.
    pub fn register(&self, x: usize) -> (r: u8)
        requires
            x < NUM_REGISTERS,
        ensures
            r == self@.v[x as int],
    {
        self.v_registers[x]
    }

    /// The index register.
    pub fn index_register(&self) -> (r: u16)
        ensures
            r == self@.index,
    {
        self.i_register
    }

    /// The byte at memory address `addr`.
    pub fn memory_at(&self, addr: usize) -> (r: u8)
        requires
            addr < RAM_SIZE,
        ensures
            r == self@.ram[addr as int],
    {
        self.ram[addr]
    }

    /// The delay timer.
    pub fn delay_timer(&self) -> (r: u8)
        ensures
            r == self@.delay,
    {
        self.d_timer
    }

    /// The sound timer.
    pub fn sound_timer(&self) -> (r: u8)
        ensures
            r == self@.sound,
    {
        self.s_timer
    }

    /// Sets the state of key `idx`; an index past the last key is ignored.
    pub fn keypress(&mut self, idx: usize, is_pressed: bool)
        ensures
            final(self)@ == (if idx < NUM_KEYS {
                MachineState { keys: old(self)@.keys.update(idx as int, is_pressed), ..old(self)@ }
            } else {
                old(self)@
            }),
    {
        proof {
            use_type_invariant(&*self);
        }
        if idx >= NUM_KEYS {
            return;
        }
        self.keys[idx] = is_pressed;
    }

    /// Copies a program into memory at the start address. A program longer
    /// than the memory above that address is refused and nothing changes.
    pub fn load(&mut self, data: &[u8]) -> (r: Result<(), EmuError>)
        ensures
            step_outcome(old(self)@, final(self)@, r, load_spec(old(self)@, data@)),
    {
        proof {
            use_type_invariant(&*self);
        }
        if data.len() > MAX_PROGRAM_SIZE {
            return Err(EmuError::ProgramTooLarge);
        }
        let ghost before = self.ram@;
        let start = START_ADDR as usize;
        let mut k: usize = 0;
        while k < data.len()
            invariant
                0 <= k <= data@.len() <= MAX_PROGRAM_SIZE,
                start == START_ADDR,
                self@ == (MachineState { ram: self.ram@, ..old(self)@ }),
                before == old(self)@.ram,
                forall|a: int|
                    0 <= a < RAM_SIZE ==> #[trigger] self.ram@[a] == if start <= a < start + k {
                        data@[a - start]
                    } else {
                        before[a]
                    },
            decreases data@.len() - k,
        {
            proof {
                use_type_invariant(&*self);
            }
            self.ram[start + k] = data[k];
            k += 1;
        }
        assert(self.ram@ =~= loaded_ram(before, data@));
        Ok(())
    }

    /// Returns every part of the machine to its initial state.
    pub fn reset(&mut self)
        ensures
            final(self)@ == initial_state(),
    {
        *self = Emulator::new();
    }

    /// Counts both timers down by one, stopping at zero. Returns whether the
    /// sound timer ran out on this tick, which is when a sound cue is due.
    pub fn timers_tick(&mut self) -> (beep: bool)
        ensures
            final(self)@ == ticked(old(self)@),
            beep == (old(self)@.sound == 1),
    {
        proof {
            use_type_invariant(&*self);
        }
        if self.d_timer > 0 {
            self.d_timer -= 1;
        }
        let beep = self.s_timer == 1;
        if self.s_timer > 0 {
            self.s_timer -= 1;
        }
        beep
    }

    /// Runs one fetch-decode-execute cycle on the byte `rnd` for an
    /// instruction that asks for a random one. On failure the machine is left
    /// as it was.
    pub fn tick_with(&mut self, rnd: u8) -> (r: Result<(), EmuError>)
        ensures
            step_outcome(old(self)@, final(self)@, r, step_spec(old(self)@, rnd)),
    {
        if self.pc as usize + 1 >= RAM_SIZE {
            return Err(EmuError::MemoryOutOfBounds);
        }
        let start_pc = self.pc;
        let op = self.fetch();
        let r = self.execute(op, rnd);
        proof {
            use_type_invariant(&*self);
        }
        if r.is_err() {
            self.pc = start_pc;
        }
        r
    }

    /// Runs one fetch-decode-execute cycle, drawing a random byte for an
    /// instruction that asks for one. On failure the machine is left as it
    /// was.
    pub fn tick(&mut self) -> (r: Result<(), EmuError>)
        ensures
            exists|rnd: u8| step_outcome(old(self)@, final(self)@, r, #[trigger] step_spec(old(self)@, rnd)),
    {
        let rnd = random_byte();
        let r = self.tick_with(rnd);
        assert(step_outcome(old(self)@, self@, r, step_spec(old(self)@, rnd)));
        r
    }

    /// Reads the big-endian word at the program counter and moves past it.
    fn fetch(&mut self) -> (op: u16)
        requires
            old(self).pc + 1 < RAM_SIZE,
        ensures
            op == fetch_word(old(self)@.ram, old(self)@.pc),
            final(self)@ == (MachineState { pc: (old(self)@.pc + 2) as u16, ..old(self)@ }),
    {
        proof {
            use_type_invariant(&*self);
        }
        let higher_byte = self.ram[self.pc as usize] as u16;
        let lower_byte = self.ram[(self.pc + 1) as usize] as u16;
        let op = (higher_byte << 8) | lower_byte;
        self.pc = self.pc + 2;
        op
    }

    fn push(&mut self, val: u16)
        requires
            old(self)@.stack.len() < STACK_SIZE,
        ensures
            final(self)@ == (MachineState { stack: old(self)@.stack.push(val), ..old(self)@ }),
    {
        proof {
            use_type_invariant(&*self);
        }
        self.stack[self.sp as usize] = val;
        self.sp = self.sp + 1;
        assert(self@.stack =~= old(self)@.stack.push(val));
    }

    fn pop(&mut self) -> (r: u16)
        requires
            old(self)@.stack.len() > 0,
        ensures
            r == old(self)@.stack.last(),
            final(self)@ == (MachineState { stack: old(self)@.stack.drop_last(), ..old(self)@ }),
    {
        proof {
            use_type_invariant(&*self);
        }
        self.sp = self.sp - 1;
        assert(self@.stack =~= old(self)@.stack.drop_last());
        self.stack[self.sp as usize]
    }

    /// Decodes the word `op`, fetched just before, and runs it.
    fn execute(&mut self, op: u16, rnd: u8) -> (r: Result<(), EmuError>)
        requires
            2 <= old(self).pc <= RAM_SIZE,
        ensures
            step_outcome(old(self)@, final(self)@, r, execute_word_spec(old(self)@, op, rnd)),
    {
        proof {
            lemma_decode_wf(op);
        }
        match decode(op) {
            Some(ins) => self.run(ins, rnd),
            None => Err(EmuError::UnrecognizedOpcode { opcode: op, address: self.pc - 2 }),
        }
    }

    /// Runs one decoded instruction.
    fn run(&mut self, ins: Instruction, rnd: u8) -> (r: Result<(), EmuError>)
        requires
            2 <= old(self).pc <= RAM_SIZE,
            ins.wf(),
        ensures
            step_outcome(old(self)@, final(self)@, r, execute_spec(old(self)@, ins, rnd)),
    {
        match ins {
            Instruction::Return => self.ret(),
            Instruction::Call { addr } => self.call(addr),
            Instruction::Draw { x, y, n } => self.draw(x, y, n),
            Instruction::WaitKey { x } => self.wait_key(x),
            Instruction::Bcd { x } => self.bcd(x),
            Instruction::StoreRegs { x } => self.store_registers(x),
            Instruction::LoadRegs { x } => self.load_registers(x),
            Instruction::LoadImm { .. }
            | Instruction::AddImm { .. }
            | Instruction::Move { .. }
            | Instruction::Or { .. }
            | Instruction::And { .. }
            | Instruction::Xor { .. }
            | Instruction::AddReg { .. }
            | Instruction::SubReg { .. }
            | Instruction::ShiftRight { .. }
            | Instruction::SubRev { .. }
            | Instruction::ShiftLeft { .. }
            | Instruction::Random { .. }
            | Instruction::GetDelay { .. } => {
                self.run_register_op(ins, rnd);
                Ok(())
            },
            _ => {
                self.run_control_op(ins);
                Ok(())
            },
        }
    }

    /// Runs an instruction that writes general-purpose registers and can
    /// not fail.
    #[verifier::rlimit(40)]
    fn run_register_op(&mut self, ins: Instruction, rnd: u8)
        requires
            ins.wf(),
            ins is LoadImm || ins is AddImm || ins is Move || ins is Or || ins is And || ins is Xor
                || ins is AddReg || ins is SubReg || ins is ShiftRight || ins is SubRev
                || ins is ShiftLeft || ins is Random || ins is GetDelay,
        ensures
            execute_spec(old(self)@, ins, rnd) == Ok::<MachineState, EmuError>(final(self)@),
    {
        proof {
            use_type_invariant(&*self);
        }
        match ins {
            Instruction::LoadImm { x, nn } => {
                self.v_registers[x] = nn;
            },
            Instruction::AddImm { x, nn } => {
                self.v_registers[x] = self.v_registers[x].wrapping_add(nn);
            },
            Instruction::Move { x, y } => {
                self.v_registers[x] = self.v_registers[y];
            },
            Instruction::Or { x, y } => {
                self.v_registers[x] = self.v_registers[x] | self.v_registers[y];
            },
            Instruction::And { x, y } => {
                self.v_registers[x] = self.v_registers[x] & self.v_registers[y];
            },
            Instruction::Xor { x, y } => {
                self.v_registers[x] = self.v_registers[x] ^ self.v_registers[y];
            },
            Instruction::AddReg { x, y } => {
                let sum = self.v_registers[x] as u16 + self.v_registers[y] as u16;
                let carry: u8 = if sum >= 256 { 1 } else { 0 };
                self.v_registers[x] = (sum % 256) as u8;
                self.v_registers[FLAG_REGISTER] = carry;
            },
            Instruction::SubReg { x, y } => {
                let (a, b) = (self.v_registers[x], self.v_registers[y]);
                let no_borrow: u8 = if a < b { 0 } else { 1 };
                self.v_registers[x] = a.wrapping_sub(b);
                self.v_registers[FLAG_REGISTER] = no_borrow;
            },
            Instruction::ShiftRight { x } => {
                let a = self.v_registers[x];
                self.v_registers[x] = a >> 1;
                self.v_registers[FLAG_REGISTER] = a & 1;
            },
            Instruction::SubRev { x, y } => {
                let (a, b) = (self.v_registers[y], self.v_registers[x]);
                let no_borrow: u8 = if a < b { 0 } else { 1 };
                self.v_registers[x] = a.wrapping_sub(b);
                self.v_registers[FLAG_REGISTER] = no_borrow;
            },
            Instruction::ShiftLeft { x } => {
                let a = self.v_registers[x];
                assert((a << 1u8) == ((a * 2) % 256) as u8) by (bit_vector);
                self.v_registers[x] = a << 1;
                self.v_registers[FLAG_REGISTER] = (a >> 7) & 1;
            },
            Instruction::Random { x, nn } => {
                self.v_registers[x] = rnd & nn;
            },
            Instruction::GetDelay { x } => {
                self.v_registers[x] = self.d_timer;
            },
            _ => {},
        }
    }

    /// Runs an instruction that moves the program counter, clears the
    /// display, or sets the index register or a timer, and can not fail.
    #[verifier::rlimit(40)]
    fn run_control_op(&mut self, ins: Instruction)
        requires
            2 <= old(self).pc <= RAM_SIZE,
            ins.wf(),
            ins is Nop || ins is ClearScreen || ins is Jump || ins is SkipIfEqImm
                || ins is SkipIfNeImm || ins is SkipIfEqReg || ins is SkipIfNeReg || ins is SetIndex
                || ins is JumpOffset || ins is SkipIfKey || ins is SkipIfNotKey || ins is SetDelay
                || ins is SetSound || ins is AddIndex || ins is GlyphAddress,
        ensures
            execute_spec(old(self)@, ins, 0) == Ok::<MachineState, EmuError>(final(self)@),
    {
        proof {
            use_type_invariant(&*self);
        }
        match ins {
            Instruction::ClearScreen => {
                self.screen = [false; SCREEN_SIZE];
                assert(self.screen@ =~= blank_screen());
            },
            Instruction::Jump { addr } => {
                self.pc = addr;
            },
            Instruction::SkipIfEqImm { x, nn } => {
                if self.v_registers[x] == nn {
                    self.pc = self.pc + 2;
                }
            },
            Instruction::SkipIfNeImm { x, nn } => {
                if self.v_registers[x] != nn {
                    self.pc = self.pc + 2;
                }
            },
            Instruction::SkipIfEqReg { x, y } => {
                if self.v_registers[x] == self.v_registers[y] {
                    self.pc = self.pc + 2;
                }
            },
            Instruction::SkipIfNeReg { x, y } => {
                if self.v_registers[x] != self.v_registers[y] {
                    self.pc = self.pc + 2;
                }
            },
            Instruction::SetIndex { addr } => {
                self.i_register = addr;
            },
            Instruction::JumpOffset { addr } => {
                self.pc = self.v_registers[0] as u16 + addr;
            },
            Instruction::SkipIfKey { x } => {
                let k = self.v_registers[x] as usize;
                if k < NUM_KEYS && self.keys[k] {
                    self.pc = self.pc + 2;
                }
            },
            Instruction::SkipIfNotKey { x } => {
                let k = self.v_registers[x] as usize;
                if !(k < NUM_KEYS && self.keys[k]) {
                    self.pc = self.pc + 2;
                }
            },
            Instruction::SetDelay { x } => {
                self.d_timer = self.v_registers[x];
            },
            Instruction::SetSound { x } => {
                self.s_timer = self.v_registers[x];
            },
            Instruction::AddIndex { x } => {
                self.i_register = self.i_register.wrapping_add(self.v_registers[x] as u16);
            },
            Instruction::GlyphAddress { x } => {
                self.i_register = (self.v_registers[x] % 16) as u16 * 5;
            },
            _ => {},
        }
    }

    /// Returns from a subroutine.
    fn ret(&mut self) -> (r: Result<(), EmuError>)
        ensures
            step_outcome(old(self)@, final(self)@, r, execute_spec(old(self)@, Instruction::Return, 0)),
    {
        proof {
            use_type_invariant(&*self);
        }
        if self.sp == 0 {
            return Err(EmuError::StackUnderflow);
        }
        let ret_addr = self.pop();
        proof {
            use_type_invariant(&*self);
        }
        self.pc = ret_addr;
        Ok(())
    }

    /// Calls the subroutine at `addr`.
    fn call(&mut self, addr: u16) -> (r: Result<(), EmuError>)
        ensures
            step_outcome(
                old(self)@,
                final(self)@,
                r,
                execute_spec(old(self)@, Instruction::Call { addr }, 0),
            ),
    {
        proof {
            use_type_invariant(&*self);
        }
        if self.sp as usize >= STACK_SIZE {
            return Err(EmuError::StackOverflow);
        }
        self.push(self.pc);
        proof {
            use_type_invariant(&*self);
        }
        self.pc = addr;
        Ok(())
    }

    /// Draws the `n`-row sprite at the index register at the position that
    /// registers `x` and `y` give.
    fn draw(&mut self, x: usize, y: usize, n: usize) -> (r: Result<(), EmuError>)
        requires
            x < NUM_REGISTERS,
            y < NUM_REGISTERS,
            n < 16,
        ensures
            step_outcome(
                old(self)@,
                final(self)@,
                r,
                execute_spec(old(self)@, Instruction::Draw { x, y, n }, 0),
            ),
    {
        proof {
            use_type_invariant(&*self);
        }
        let base = self.i_register as usize;
        if n > 0 && base + n > RAM_SIZE {
            return Err(EmuError::MemoryOutOfBounds);
        }
        let x0 = self.v_registers[x] as usize % SCREEN_WIDTH;
        let y0 = self.v_registers[y] as usize % SCREEN_HEIGHT;
        draw_sprite(&mut self.screen, &self.ram, base, x0, y0, n);
        proof {
            use_type_invariant(&*self);
        }
        // The flag reads 1 after every draw, whether or not a set pixel was
        // turned off.
        self.v_registers[FLAG_REGISTER] = 1;
        Ok(())
    }

    /// Writes the decimal digits of register `x` to memory at the index
    /// register, hundreds first.
    fn bcd(&mut self, x: usize) -> (r: Result<(), EmuError>)
        requires
            x < NUM_REGISTERS,
        ensures
            step_outcome(old(self)@, final(self)@, r, execute_spec(old(self)@, Instruction::Bcd { x }, 0)),
    {
        proof {
            use_type_invariant(&*self);
        }
        let i = self.i_register as usize;
        if i + 2 >= RAM_SIZE {
            return Err(EmuError::MemoryOutOfBounds);
        }
        let a = self.v_registers[x];
        self.ram[i] = a / 100;
        self.ram[i + 1] = (a / 10) % 10;
        self.ram[i + 2] = a % 10;
        Ok(())
    }

    /// Puts the lowest pressed key into register `x`, or steps back onto the
    /// same instruction when no key is pressed.
    fn wait_key(&mut self, x: usize) -> (r: Result<(), EmuError>)
        requires
            2 <= old(self).pc <= RAM_SIZE,
            x < NUM_REGISTERS,
        ensures
            step_outcome(
                old(self)@,
                final(self)@,
                r,
                execute_spec(old(self)@, Instruction::WaitKey { x }, 0),
            ),
    {
        proof {
            use_type_invariant(&*self);
        }
        let mut i: usize = 0;
        while i < NUM_KEYS
            invariant
                0 <= i <= NUM_KEYS,
                x < NUM_REGISTERS,
                *self == *old(self),
                first_pressed(self.keys@, 0) == first_pressed(self.keys@, i as nat),
            decreases NUM_KEYS - i,
        {
            proof {
                use_type_invariant(&*self);
            }
            if self.keys[i] {
                self.v_registers[x] = i as u8;
                return Ok(());
            }
            i += 1;
        }
        self.pc = self.pc - 2;
        Ok(())
    }

    /// Stores registers `0..=x` into memory from the index register on.
    fn store_registers(&mut self, x: usize) -> (r: Result<(), EmuError>)
        requires
            x < NUM_REGISTERS,
        ensures
            step_outcome(
                old(self)@,
                final(self)@,
                r,
                execute_spec(old(self)@, Instruction::StoreRegs { x }, 0),
            ),
    {
        let i = self.i_register as usize;
        if i + x >= RAM_SIZE {
            return Err(EmuError::MemoryOutOfBounds);
        }
        let ghost before = self.ram@;
        let mut k: usize = 0;
        while k <= x
            invariant
                0 <= k <= x + 1,
                x < NUM_REGISTERS,
                i + x < RAM_SIZE,
                i == old(self).i_register,
                before == old(self)@.ram,
                self@ == (MachineState { ram: self.ram@, ..old(self)@ }),
                forall|a: int|
                    0 <= a < RAM_SIZE ==> #[trigger] self.ram@[a] == if i <= a < i + k {
                        self.v_registers@[a - i]
                    } else {
                        before[a]
                    },
            decreases x + 1 - k,
        {
            proof {
                use_type_invariant(&*self);
            }
            self.ram[i + k] = self.v_registers[k];
            k += 1;
        }
        assert(self.ram@ =~= execute_spec(old(self)@, Instruction::StoreRegs { x }, 0)->Ok_0.ram);
        Ok(())
    }

    /// Loads registers `0..=x` from memory from the index register on.
    fn load_registers(&mut self, x: usize) -> (r: Result<(), EmuError>)
        requires
            x < NUM_REGISTERS,
        ensures
            step_outcome(
                old(self)@,
                final(self)@,
                r,
                execute_spec(old(self)@, Instruction::LoadRegs { x }, 0),
            ),
    {
        let i = self.i_register as usize;
        if i + x >= RAM_SIZE {
            return Err(EmuError::MemoryOutOfBounds);
        }
        let ghost before = self.v_registers@;
        let mut k: usize = 0;
        while k <= x
            invariant
                0 <= k <= x + 1,
                x < NUM_REGISTERS,
                i + x < RAM_SIZE,
                i == old(self).i_register,
                before == old(self)@.v,
                self@ == (MachineState { v: self.v_registers@, ..old(self)@ }),
                forall|r: int|
                    0 <= r < NUM_REGISTERS ==> #[trigger] self.v_registers@[r] == if r < k {
                        self.ram@[i + r]
                    } else {
                        before[r]
                    },
            decreases x + 1 - k,
        {
            proof {
                use_type_invariant(&*self);
            }
            self.v_registers[k] = self.ram[i + k];
            k += 1;
        }
        assert(self.v_registers@ =~= execute_spec(old(self)@, Instruction::LoadRegs { x }, 0)->Ok_0.v);
        Ok(())
    }
}

} // verus!
