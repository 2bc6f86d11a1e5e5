use vstd::prelude::*;

use crate::instruction::{decode_spec, Instruction};

verus! {

/// Number of pixels in one row of the display.
pub const SCREEN_WIDTH: usize = 64;

/// Number of rows of the display.
pub const SCREEN_HEIGHT: usize = 32;

/// Number of pixels of the display.
pub const SCREEN_SIZE: usize = 2048;

/// Bytes of addressable memory.
pub const RAM_SIZE: usize = 4096;

/// General-purpose registers; the last one doubles as the flag register.
pub const NUM_REGISTERS: usize = 16;

/// Index of the flag register.
pub const FLAG_REGISTER: usize = 15;

/// Capacity of the call stack.
pub const STACK_SIZE: usize = 16;

/// Keys of the keypad.
pub const NUM_KEYS: usize = 16;

/// Address at which programs are loaded and execution starts.
pub const START_ADDR: u16 = 0x200;

/// Largest program that fits between the start address and the end of memory.
pub const MAX_PROGRAM_SIZE: usize = 3584;

/// Bytes of the built-in glyph table at the base of memory.
pub const GLYPH_TABLE_SIZE: usize = 80;

/// Why a step or a load failed.
#[derive(Debug, Clone, Copy, PartialEq, Eq, Structural)]
pub enum EmuError {
    /// The word fetched at `address` encodes no instruction.
    UnrecognizedOpcode { opcode: u16, address: u16 },
    /// A fetch or an instruction would touch memory past its end.
    MemoryOutOfBounds,
    /// A call with all stack entries in use.
    StackOverflow,
    /// A return with an empty stack.
    StackUnderflow,
    /// A program longer than the memory above the start address.
    ProgramTooLarge,
}

/// The whole observable state of the machine, as mathematical values.
pub struct MachineState {
    pub pc: u16,
    pub ram: Seq<u8>,
    pub screen: Seq<bool>,
    pub v: Seq<u8>,
    pub index: u16,
    /// Return addresses, the most recent last.
    pub stack: Seq<u16>,
    pub keys: Seq<bool>,
    pub delay: u8,
    pub sound: u8,
}

impl MachineState {
    pub open spec fn wf(self) -> bool {
        &&& self.ram.len() == RAM_SIZE
        &&& self.screen.len() == SCREEN_SIZE
        &&& self.v.len() == NUM_REGISTERS
        &&& self.keys.len() == NUM_KEYS
        &&& self.stack.len() <= STACK_SIZE
    }
}

/// The sixteen hexadecimal digit glyphs, five rows of one byte each.
pub open spec fn glyph_table() -> Seq<u8> {
    seq![
        0xF0u8, 0x90, 0x90, 0x90, 0xF0,
        0x20, 0x60, 0x20, 0x20, 0x70,
        0xF0, 0x10, 0xF0, 0x80, 0xF0,
        0xF0, 0x10, 0xF0, 0x10, 0xF0,
        0x90, 0x90, 0xF0, 0x10, 0x10,
        0xF0, 0x80, 0xF0, 0x10, 0xF0,
        0xF0, 0x80, 0xF0, 0x90, 0xF0,
        0xF0, 0x10, 0x20, 0x40, 0x40,
        0xF0, 0x90, 0xF0, 0x90, 0xF0,
        0xF0, 0x90, 0xF0, 0x10, 0xF0,
        0xF0, 0x90, 0xF0, 0x90, 0x90,
        0xE0, 0x90, 0xE0, 0x90, 0xE0,
        0xF0, 0x80, 0x80, 0x80, 0xF0,
        0xE0, 0x90, 0x90, 0x90, 0xE0,
        0xF0, 0x80, 0xF0, 0x80, 0xF0,
        0xF0, 0x80, 0xF0, 0x80, 0x80,
    ]
}

/// Memory at power-on: the glyph table, then zeros.
pub open spec fn initial_ram() -> Seq<u8> {
    Seq::new(RAM_SIZE as nat, |a: int| if a < GLYPH_TABLE_SIZE { glyph_table()[a] } else { 0u8 })
}

pub open spec fn blank_screen() -> Seq<bool> {
    Seq::new(SCREEN_SIZE as nat, |p: int| false)
}

/// The state after construction or reset.
pub open spec fn initial_state() -> MachineState {
    MachineState {
        pc: START_ADDR,
        ram: initial_ram(),
        screen: blank_screen(),
        v: Seq::new(NUM_REGISTERS as nat, |r: int| 0u8),
        index: 0,
        stack: Seq::empty(),
        keys: Seq::new(NUM_KEYS as nat, |k: int| false),
        delay: 0,
        sound: 0,
    }
}

/// Memory after a program is copied in at the start address.
pub open spec fn loaded_ram(ram: Seq<u8>, program: Seq<u8>) -> Seq<u8> {
    Seq::new(
        ram.len(),
        |a: int|
            if START_ADDR <= a < START_ADDR + program.len() {
                program[a - START_ADDR]
            } else {
                ram[a]
            },
    )
}

/// Loading a program: refused when it does not fit above the start address.
pub open spec fn load_spec(s: MachineState, program: Seq<u8>) -> Result<MachineState, EmuError> {
    if program.len() > MAX_PROGRAM_SIZE {
        Err(EmuError::ProgramTooLarge)
    } else {
        Ok(MachineState { ram: loaded_ram(s.ram, program), ..s })
    }
}

/// The big-endian word at `pc`.
pub open spec fn fetch_word(ram: Seq<u8>, pc: u16) -> u16 {
    ((ram[pc as int] as u16) << 8u16) | (ram[pc + 1] as u16)
}

/// Whether key `k` exists and is held down.
pub open spec fn key_pressed(keys: Seq<bool>, k: u8) -> bool {
    k < NUM_KEYS && keys[k as int]
}

/// The lowest key at or above `k` that is held down.
pub open spec fn first_pressed(keys: Seq<bool>, k: nat) -> Option<nat>
    decreases keys.len() - k,
{
    if k >= keys.len() {
        None
    } else if keys[k as int] {
        Some(k)
    } else {
        first_pressed(keys, k + 1)
    }
}

/// Whether bit `col` of a sprite row is set, counting from the most
/// significant bit.
pub open spec fn sprite_bit(bits: u8, col: int) -> bool {
    bits & (0x80u8 >> (col as u8)) != 0
}

/// How far `a` lies after `b` going forward around a circle of `m` places.
pub open spec fn wrap_dist(a: int, b: int, m: int) -> int {
    if a >= b {
        a - b
    } else {
        a + m - b
    }
}

/// Sprite column that lands on pixel `p` when the sprite starts at column `x0`.
pub open spec fn col_offset(p: int, x0: int) -> int {
    wrap_dist(p % SCREEN_WIDTH as int, x0, SCREEN_WIDTH as int)
}

/// Sprite row that lands on pixel `p` when the sprite starts at row `y0`.
pub open spec fn row_offset(p: int, y0: int) -> int {
    wrap_dist(p / SCREEN_WIDTH as int, y0, SCREEN_HEIGHT as int)
}

/// Whether the `n`-row sprite at `ram[base..base + n]`, drawn from column `x0`
/// and row `y0` with wraparound, has a set bit on pixel `p`.
pub open spec fn sprite_hit(ram: Seq<u8>, base: int, x0: int, y0: int, n: int, p: int) -> bool {
    let c = col_offset(p, x0);
    let r = row_offset(p, y0);
    r < n && c < 8 && sprite_bit(ram[base + r], c)
}

/// The display after the sprite is XORed onto it.
pub open spec fn drawn_screen(screen: Seq<bool>, ram: Seq<u8>, base: int, x0: int, y0: int, n: int) -> Seq<bool> {
    Seq::new(screen.len(), |p: int| screen[p] != sprite_hit(ram, base, x0, y0, n, p))
}

/// `a - b` modulo 256.
pub open spec fn wrapping_sub_u8(a: u8, b: u8) -> u8 {
    if a >= b {
        (a - b) as u8
    } else {
        (a + 256 - b) as u8
    }
}

pub open spec fn set_reg(s: MachineState, x: int, val: u8) -> MachineState {
    MachineState { v: s.v.update(x, val), ..s }
}

/// Writes `val` to register `x`, then `flag` to the flag register.
pub open spec fn set_reg_flag(s: MachineState, x: int, val: u8, flag: u8) -> MachineState {
    MachineState { v: s.v.update(x, val).update(FLAG_REGISTER as int, flag), ..s }
}

/// Skips the next instruction when `cond` holds.
pub open spec fn skip_if(s: MachineState, cond: bool) -> MachineState {
    if cond {
        MachineState { pc: (s.pc + 2) as u16, ..s }
    } else {
        s
    }
}

/// The effect of one instruction on a state whose program counter has
/// already moved past it; `rnd` is the random byte the instruction may use.
pub open spec fn execute_spec(s: MachineState, ins: Instruction, rnd: u8) -> Result<MachineState, EmuError> {
    match ins {
        Instruction::Nop => Ok(s),
        Instruction::ClearScreen => Ok(MachineState { screen: blank_screen(), ..s }),
        Instruction::Return => if s.stack.len() == 0 {
            Err(EmuError::StackUnderflow)
        } else {
            Ok(MachineState { pc: s.stack.last(), stack: s.stack.drop_last(), ..s })
        },
        Instruction::Jump { addr } => Ok(MachineState { pc: addr, ..s }),
        Instruction::Call { addr } => if s.stack.len() >= STACK_SIZE {
            Err(EmuError::StackOverflow)
        } else {
            Ok(MachineState { pc: addr, stack: s.stack.push(s.pc), ..s })
        },
        Instruction::SkipIfEqImm { x, nn } => Ok(skip_if(s, s.v[x as int] == nn)),
        Instruction::SkipIfNeImm { x, nn } => Ok(skip_if(s, s.v[x as int] != nn)),
        Instruction::SkipIfEqReg { x, y } => Ok(skip_if(s, s.v[x as int] == s.v[y as int])),
        Instruction::LoadImm { x, nn } => Ok(set_reg(s, x as int, nn)),
        Instruction::AddImm { x, nn } => Ok(
            set_reg(s, x as int, ((s.v[x as int] + nn) % 256) as u8),
        ),
        Instruction::Move { x, y } => Ok(set_reg(s, x as int, s.v[y as int])),
        Instruction::Or { x, y } => Ok(set_reg(s, x as int, s.v[x as int] | s.v[y as int])),
        Instruction::And { x, y } => Ok(set_reg(s, x as int, s.v[x as int] & s.v[y as int])),
        Instruction::Xor { x, y } => Ok(set_reg(s, x as int, s.v[x as int] ^ s.v[y as int])),
        Instruction::AddReg { x, y } => {
            let sum = s.v[x as int] + s.v[y as int];
            Ok(set_reg_flag(s, x as int, (sum % 256) as u8, if sum >= 256 { 1 } else { 0 }))
        },
        Instruction::SubReg { x, y } => {
            let (a, b) = (s.v[x as int], s.v[y as int]);
            Ok(set_reg_flag(s, x as int, wrapping_sub_u8(a, b), if a < b { 0 } else { 1 }))
        },
        Instruction::ShiftRight { x } => {
            let a = s.v[x as int];
            Ok(set_reg_flag(s, x as int, a >> 1u8, a & 1))
        },
        Instruction::SubRev { x, y } => {
            let (a, b) = (s.v[y as int], s.v[x as int]);
            Ok(set_reg_flag(s, x as int, wrapping_sub_u8(a, b), if a < b { 0 } else { 1 }))
        },
        Instruction::ShiftLeft { x } => {
            let a = s.v[x as int];
            Ok(set_reg_flag(s, x as int, ((a * 2) % 256) as u8, (a >> 7u8) & 1))
        },
        Instruction::SkipIfNeReg { x, y } => Ok(skip_if(s, s.v[x as int] != s.v[y as int])),
        Instruction::SetIndex { addr } => Ok(MachineState { index: addr, ..s }),
        Instruction::JumpOffset { addr } => Ok(MachineState { pc: (s.v[0] + addr) as u16, ..s }),
        Instruction::Random { x, nn } => Ok(set_reg(s, x as int, rnd & nn)),
        Instruction::Draw { x, y, n } => if n > 0 && s.index + n > RAM_SIZE {
            Err(EmuError::MemoryOutOfBounds)
        } else {
            let x0 = s.v[x as int] as int % SCREEN_WIDTH as int;
            let y0 = s.v[y as int] as int % SCREEN_HEIGHT as int;
            Ok(
                MachineState {
                    screen: drawn_screen(s.screen, s.ram, s.index as int, x0, y0, n as int),
                    v: s.v.update(FLAG_REGISTER as int, 1),
                    ..s
                },
            )
        },
        Instruction::SkipIfKey { x } => Ok(skip_if(s, key_pressed(s.keys, s.v[x as int]))),
        Instruction::SkipIfNotKey { x } => Ok(skip_if(s, !key_pressed(s.keys, s.v[x as int]))),
        Instruction::GetDelay { x } => Ok(set_reg(s, x as int, s.delay)),
        Instruction::WaitKey { x } => match first_pressed(s.keys, 0) {
            Some(k) => Ok(set_reg(s, x as int, k as u8)),
            None => Ok(MachineState { pc: (s.pc - 2) as u16, ..s }),
        },
        Instruction::SetDelay { x } => Ok(MachineState { delay: s.v[x as int], ..s }),
        Instruction::SetSound { x } => Ok(MachineState { sound: s.v[x as int], ..s }),
        Instruction::AddIndex { x } => Ok(
            MachineState { index: ((s.index + s.v[x as int]) % 0x10000) as u16, ..s },
        ),
        Instruction::GlyphAddress { x } => Ok(
            MachineState { index: ((s.v[x as int] % 16) * 5) as u16, ..s },
        ),
        Instruction::Bcd { x } => if s.index + 2 >= RAM_SIZE {
            Err(EmuError::MemoryOutOfBounds)
        } else {
            let a = s.v[x as int];
            let i = s.index as int;
            Ok(
                MachineState {
                    ram: s.ram.update(i, (a / 100) as u8).update(i + 1, ((a / 10) % 10) as u8).update(
                        i + 2,
                        (a % 10) as u8,
                    ),
                    ..s
                },
            )
        },
        Instruction::StoreRegs { x } => if s.index + x >= RAM_SIZE {
            Err(EmuError::MemoryOutOfBounds)
        } else {
            let i = s.index as int;
            Ok(
                MachineState {
                    ram: Seq::new(
                        s.ram.len(),
                        |a: int| if i <= a <= i + x { s.v[a - i] } else { s.ram[a] },
                    ),
                    ..s
                },
            )
        },
        Instruction::LoadRegs { x } => if s.index + x >= RAM_SIZE {
            Err(EmuError::MemoryOutOfBounds)
        } else {
            let i = s.index as int;
            Ok(
                MachineState {
                    v: Seq::new(s.v.len(), |r: int| if r <= x { s.ram[i + r] } else { s.v[r] }),
                    ..s
                },
            )
        },
    }
}

/// The effect of the instruction word `op` on a state whose program counter
/// has already moved past it.
pub open spec fn execute_word_spec(s: MachineState, op: u16, rnd: u8) -> Result<MachineState, EmuError> {
    match decode_spec(op) {
        Some(ins) => execute_spec(s, ins, rnd),
        None => Err(EmuError::UnrecognizedOpcode { opcode: op, address: (s.pc - 2) as u16 }),
    }
}

/// One fetch-decode-execute cycle: fetch the word at the program counter,
/// move past it, and run the instruction it encodes.
pub open spec fn step_spec(s: MachineState, rnd: u8) -> Result<MachineState, EmuError> {
    if s.pc + 1 >= RAM_SIZE {
        Err(EmuError::MemoryOutOfBounds)
    } else {
        execute_word_spec(MachineState { pc: (s.pc + 2) as u16, ..s }, fetch_word(s.ram, s.pc), rnd)
    }
}

/// How `after` and the reported result `r` relate to `before` when the
/// specified outcome is `expected`: on success the new state, on failure the
/// error with the state left as it was.
pub open spec fn step_outcome(
    before: MachineState,
    after: MachineState,
    r: Result<(), EmuError>,
    expected: Result<MachineState, EmuError>,
) -> bool {
    match expected {
        Ok(t) => r is Ok && after == t,
        Err(e) => r == Err::<(), EmuError>(e) && after == before,
    }
}

/// The timers after one tick: each counts down by one and stops at zero.
pub open spec fn ticked(s: MachineState) -> MachineState {
    MachineState {
        delay: if s.delay > 0 { (s.delay - 1) as u8 } else { 0 },
        sound: if s.sound > 0 { (s.sound - 1) as u8 } else { 0 },
        ..s
    }
}

} // verus!
