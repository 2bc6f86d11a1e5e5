use vstd::prelude::*;

use crate::instruction::{lemma_address_word, lemma_word_nibbles, word};
use crate::model::{
    fetch_word, first_pressed, load_spec, sprite_bit, step_spec, ticked, EmuError, MachineState,
    MAX_PROGRAM_SIZE, RAM_SIZE, SCREEN_SIZE,
};

verus! {

/// Adding register `y` to register `x` (word `8xy4`) leaves the sum modulo
/// 256 in `x` and sets the flag register to 1 exactly when the sum does not
/// fit in eight bits. `x` is not the flag register itself, whose last write
/// is the flag.
pub proof fn law_add_registers(s: MachineState, x: u16, y: u16, rnd: u8)
    requires
        s.wf(),
        s.pc + 1 < RAM_SIZE,
        x < 15,
        y < 16,
        fetch_word(s.ram, s.pc) == word(8, x, y, 4),
    ensures
        step_spec(s, rnd) is Ok,
        step_spec(s, rnd)->Ok_0.v[x as int] == (s.v[x as int] + s.v[y as int]) % 256,
        step_spec(s, rnd)->Ok_0.v[15] == (if s.v[x as int] + s.v[y as int] >= 256 {
            1u8
        } else {
            0u8
        }),
        step_spec(s, rnd)->Ok_0.pc == s.pc + 2,
{
    lemma_word_nibbles(8, x, y, 4);
}

/// Subtracting register `y` from register `x` (word `8xy5`) leaves the
/// difference modulo 256 in `x` and sets the flag register to 0 exactly when
/// the subtraction borrows. `x` is not the flag register itself.
pub proof fn law_subtract_registers(s: MachineState, x: u16, y: u16, rnd: u8)
    requires
        s.wf(),
        s.pc + 1 < RAM_SIZE,
        x < 15,
        y < 16,
        fetch_word(s.ram, s.pc) == word(8, x, y, 5),
    ensures
        step_spec(s, rnd) is Ok,
        step_spec(s, rnd)->Ok_0.v[x as int] == (s.v[x as int] - s.v[y as int]) % 256,
        step_spec(s, rnd)->Ok_0.v[15] == 0 <==> s.v[x as int] < s.v[y as int],
        step_spec(s, rnd)->Ok_0.v[15] == 1 <==> s.v[x as int] >= s.v[y as int],
        step_spec(s, rnd)->Ok_0.pc == s.pc + 2,
{
    lemma_word_nibbles(8, x, y, 5);
    let (a, b) = (s.v[x as int] as int, s.v[y as int] as int);
    if a < b {
        assert((a - b) % 256 == a - b + 256);
    } else {
        assert((a - b) % 256 == a - b);
    }
}

/// Clearing the display (word `00E0`) turns every pixel off.
pub proof fn law_clear_display(s: MachineState, rnd: u8)
    requires
        s.wf(),
        s.pc + 1 < RAM_SIZE,
        fetch_word(s.ram, s.pc) == 0x00E0,
    ensures
        step_spec(s, rnd) is Ok,
        step_spec(s, rnd)->Ok_0.screen.len() == SCREEN_SIZE,
        forall|p: int| 0 <= p < SCREEN_SIZE ==> !(#[trigger] step_spec(s, rnd)->Ok_0.screen[p]),
{
    assert(0x00E0u16 >> 12u16 == 0) by (bit_vector);
}

/// A program fits exactly when it is at most 3584 bytes long, the memory
/// above the start address; a longer one is refused as too large.
pub proof fn law_load_capacity(s: MachineState, program: Seq<u8>)
    ensures
        load_spec(s, program) is Ok <==> program.len() <= MAX_PROGRAM_SIZE,
        program.len() > MAX_PROGRAM_SIZE ==> load_spec(s, program) == Err::<MachineState, EmuError>(
            EmuError::ProgramTooLarge,
        ),
{
}

/// A call (word `2nnn`) followed by a return (word `00EE` at `nnn`) comes
/// back to the instruction after the call with the stack as it was.
pub proof fn law_call_return(s: MachineState, addr: u16, rnd1: u8, rnd2: u8)
    requires
        s.wf(),
        s.pc + 1 < RAM_SIZE,
        s.stack.len() < 16,
        addr + 1 < RAM_SIZE,
        fetch_word(s.ram, s.pc) == (2u16 << 12u16) | addr,
        fetch_word(s.ram, addr) == 0x00EE,
    ensures
        step_spec(s, rnd1) is Ok,
        step_spec(step_spec(s, rnd1)->Ok_0, rnd2) == Ok::<MachineState, EmuError>(
            MachineState { pc: (s.pc + 2) as u16, ..s },
        ),
{
    lemma_address_word(2, addr);
    assert(0x00EEu16 >> 12u16 == 0) by (bit_vector);
    let t = step_spec(s, rnd1)->Ok_0;
    assert(t.stack.drop_last() =~= s.stack);
}

/// A jump (word `1nnn`) sets the program counter to `nnn`, whatever the state.
pub proof fn law_jump(s: MachineState, addr: u16, rnd: u8)
    requires
        s.wf(),
        s.pc + 1 < RAM_SIZE,
        addr < 0x1000,
        fetch_word(s.ram, s.pc) == (1u16 << 12u16) | addr,
    ensures
        step_spec(s, rnd) == Ok::<MachineState, EmuError>(MachineState { pc: addr, ..s }),
{
    lemma_address_word(1, addr);
}

proof fn lemma_none_pressed(keys: Seq<bool>, k: nat)
    requires
        forall|j: int| 0 <= j < keys.len() ==> !keys[j],
    ensures
        first_pressed(keys, k) is None,
    decreases keys.len() - k,
{
    if k < keys.len() {
        lemma_none_pressed(keys, k + 1);
    }
}

proof fn lemma_lowest_pressed(keys: Seq<bool>, j: nat, k: nat)
    requires
        j <= k < keys.len(),
        keys[k as int],
        forall|i: int| j <= i < k ==> !keys[i],
    ensures
        first_pressed(keys, j) == Some(k),
    decreases k - j,
{
    if j < k {
        lemma_lowest_pressed(keys, j + 1, k);
    }
}

/// Waiting for a key (word `Fx0A`) with no key pressed changes nothing: the
/// program counter comes back to the same instruction.
pub proof fn law_wait_key_blocks(s: MachineState, x: u16, rnd: u8)
    requires
        s.wf(),
        s.pc + 1 < RAM_SIZE,
        x < 16,
        forall|k: int| 0 <= k < 16 ==> !s.keys[k],
        fetch_word(s.ram, s.pc) == word(0xF, x, 0, 0xA),
    ensures
        step_spec(s, rnd) == Ok::<MachineState, EmuError>(s),
{
    lemma_word_nibbles(0xF, x, 0, 0xA);
    lemma_none_pressed(s.keys, 0);
}

/// Waiting for a key (word `Fx0A`) with key `k` the lowest one pressed puts
/// `k` in register `x` and moves on to the next instruction.
pub proof fn law_wait_key_takes_lowest(s: MachineState, x: u16, k: nat, rnd: u8)
    requires
        s.wf(),
        s.pc + 1 < RAM_SIZE,
        x < 16,
        k < 16,
        s.keys[k as int],
        forall|j: int| 0 <= j < k ==> !s.keys[j],
        fetch_word(s.ram, s.pc) == word(0xF, x, 0, 0xA),
    ensures
        step_spec(s, rnd) is Ok,
        step_spec(s, rnd)->Ok_0.v[x as int] == k,
        step_spec(s, rnd)->Ok_0.pc == s.pc + 2,
{
    lemma_word_nibbles(0xF, x, 0, 0xA);
    lemma_lowest_pressed(s.keys, 0, k);
}

/// A timer tick lowers the delay timer by one and never below zero: from 1
/// it reaches 0 and stays there.
pub proof fn law_delay_timer_floor(s: MachineState)
    ensures
        s.delay > 0 ==> ticked(s).delay == s.delay - 1,
        s.delay == 0 ==> ticked(s).delay == 0,
        s.delay == 1 ==> ticked(s).delay == 0 && ticked(ticked(s)).delay == 0,
{
}

/// A one-row sprite (word `Dxy1`) drawn at column 60 of row 0 wraps around:
/// its first four bits land on columns 60 to 63 and its last four on
/// columns 0 to 3.
pub proof fn law_draw_wraps_horizontally(s: MachineState, x: u16, y: u16, rnd: u8)
    requires
        s.wf(),
        s.pc + 1 < RAM_SIZE,
        x < 16,
        y < 16,
        s.v[x as int] == 60,
        s.v[y as int] == 0,
        s.index < RAM_SIZE,
        fetch_word(s.ram, s.pc) == word(0xD, x, y, 1),
    ensures
        step_spec(s, rnd) is Ok,
        forall|c: int|
            0 <= c < 4 ==> #[trigger] step_spec(s, rnd)->Ok_0.screen[60 + c] == (s.screen[60 + c]
                != sprite_bit(s.ram[s.index as int], c)),
        forall|c: int|
            0 <= c < 4 ==> #[trigger] step_spec(s, rnd)->Ok_0.screen[c] == (s.screen[c]
                != sprite_bit(s.ram[s.index as int], c + 4)),
{
    lemma_word_nibbles(0xD, x, y, 1);
}

} // verus!
