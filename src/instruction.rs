use vstd::prelude::*;

verus! {

/// One decoded instruction. `x` and `y` name registers, `nn` is the low byte
/// of the word, `addr` its low twelve bits and `n` its lowest nibble.
#[derive(Debug, Clone, Copy, PartialEq, Eq, Structural)]
pub enum Instruction {
    Nop,
    ClearScreen,
    Return,
    Jump { addr: u16 },
    Call { addr: u16 },
    SkipIfEqImm { x: usize, nn: u8 },
    SkipIfNeImm { x: usize, nn: u8 },
    SkipIfEqReg { x: usize, y: usize },
    LoadImm { x: usize, nn: u8 },
    AddImm { x: usize, nn: u8 },
    Move { x: usize, y: usize },
    Or { x: usize, y: usize },
    And { x: usize, y: usize },
    Xor { x: usize, y: usize },
    AddReg { x: usize, y: usize },
    SubReg { x: usize, y: usize },
    ShiftRight { x: usize },
    SubRev { x: usize, y: usize },
    ShiftLeft { x: usize },
    SkipIfNeReg { x: usize, y: usize },
    SetIndex { addr: u16 },
    JumpOffset { addr: u16 },
    Random { x: usize, nn: u8 },
    Draw { x: usize, y: usize, n: usize },
    SkipIfKey { x: usize },
    SkipIfNotKey { x: usize },
    GetDelay { x: usize },
    WaitKey { x: usize },
    SetDelay { x: usize },
    SetSound { x: usize },
    AddIndex { x: usize },
    GlyphAddress { x: usize },
    Bcd { x: usize },
    StoreRegs { x: usize },
    LoadRegs { x: usize },
}

/// Highest nibble of an instruction word.
pub open spec fn nib1(op: u16) -> u16 {
    op >> 12
}

/// Second nibble: the `x` register.
pub open spec fn nib2(op: u16) -> u16 {
    (op >> 8) & 0xF
}

/// Third nibble: the `y` register.
pub open spec fn nib3(op: u16) -> u16 {
    (op >> 4) & 0xF
}

/// Lowest nibble.
pub open spec fn nib4(op: u16) -> u16 {
    op & 0xF
}

/// The instruction that a word encodes, or `None` for an unrecognised word.
pub open spec fn decode_spec(op: u16) -> Option<Instruction> {
    let d1 = nib1(op);
    let d3 = nib3(op);
    let d4 = nib4(op);
    let x = nib2(op) as usize;
    let y = nib3(op) as usize;
    let nn = (op & 0xFF) as u8;
    let addr = op & 0xFFF;
    if d1 == 0 {
        if op == 0x0000 {
            Some(Instruction::Nop)
        } else if op == 0x00E0 {
            Some(Instruction::ClearScreen)
        } else if op == 0x00EE {
            Some(Instruction::Return)
        } else {
            None
        }
    } else if d1 == 1 {
        Some(Instruction::Jump { addr })
    } else if d1 == 2 {
        Some(Instruction::Call { addr })
    } else if d1 == 3 {
        Some(Instruction::SkipIfEqImm { x, nn })
    } else if d1 == 4 {
        Some(Instruction::SkipIfNeImm { x, nn })
    } else if d1 == 5 {
        Some(Instruction::SkipIfEqReg { x, y })
    } else if d1 == 6 {
        Some(Instruction::LoadImm { x, nn })
    } else if d1 == 7 {
        Some(Instruction::AddImm { x, nn })
    } else if d1 == 8 {
        if d4 == 0 {
            Some(Instruction::Move { x, y })
        } else if d4 == 1 {
            Some(Instruction::Or { x, y })
        } else if d4 == 2 {
            Some(Instruction::And { x, y })
        } else if d4 == 3 {
            Some(Instruction::Xor { x, y })
        } else if d4 == 4 {
            Some(Instruction::AddReg { x, y })
        } else if d4 == 5 {
            Some(Instruction::SubReg { x, y })
        } else if d4 == 6 {
            Some(Instruction::ShiftRight { x })
        } else if d4 == 7 {
            Some(Instruction::SubRev { x, y })
        } else if d4 == 0xE {
            Some(Instruction::ShiftLeft { x })
        } else {
            None
        }
    } else if d1 == 9 {
        Some(Instruction::SkipIfNeReg { x, y })
    } else if d1 == 0xA {
        Some(Instruction::SetIndex { addr })
    } else if d1 == 0xB {
        Some(Instruction::JumpOffset { addr })
    } else if d1 == 0xC {
        Some(Instruction::Random { x, nn })
    } else if d1 == 0xD {
        Some(Instruction::Draw { x, y, n: d4 as usize })
    } else if d1 == 0xE {
        if d3 == 9 && d4 == 0xE {
            Some(Instruction::SkipIfKey { x })
        } else if d3 == 0xA && d4 == 0xE {
            Some(Instruction::SkipIfNotKey { x })
        } else {
            None
        }
    } else if d3 == 0 && d4 == 7 {
        Some(Instruction::GetDelay { x })
    } else if d3 == 0 && d4 == 0xA {
        Some(Instruction::WaitKey { x })
    } else if d3 == 1 && d4 == 5 {
        Some(Instruction::SetDelay { x })
    } else if d3 == 1 && d4 == 8 {
        Some(Instruction::SetSound { x })
    } else if d3 == 1 && d4 == 0xE {
        Some(Instruction::AddIndex { x })
    } else if d3 == 2 && d4 == 9 {
        Some(Instruction::GlyphAddress { x })
    } else if d3 == 3 && d4 == 3 {
        Some(Instruction::Bcd { x })
    } else if d3 == 5 && d4 == 5 {
        Some(Instruction::StoreRegs { x })
    } else if d3 == 6 && d4 == 5 {
        Some(Instruction::LoadRegs { x })
    } else {
        None
    }
}

impl Instruction {
    /// Register operands name one of the sixteen registers, a row count fits
    /// in a nibble and an address in twelve bits.
    pub open spec fn wf(self) -> bool {
        match self {
            Instruction::Jump { addr } => addr < 0x1000,
            Instruction::Call { addr } => addr < 0x1000,
            Instruction::SetIndex { addr } => addr < 0x1000,
            Instruction::JumpOffset { addr } => addr < 0x1000,
            Instruction::SkipIfEqImm { x, .. } => x < 16,
            Instruction::SkipIfNeImm { x, .. } => x < 16,
            Instruction::LoadImm { x, .. } => x < 16,
            Instruction::AddImm { x, .. } => x < 16,
            Instruction::Random { x, .. } => x < 16,
            Instruction::SkipIfEqReg { x, y } => x < 16 && y < 16,
            Instruction::Move { x, y } => x < 16 && y < 16,
            Instruction::Or { x, y } => x < 16 && y < 16,
            Instruction::And { x, y } => x < 16 && y < 16,
            Instruction::Xor { x, y } => x < 16 && y < 16,
            Instruction::AddReg { x, y } => x < 16 && y < 16,
            Instruction::SubReg { x, y } => x < 16 && y < 16,
            Instruction::SubRev { x, y } => x < 16 && y < 16,
            Instruction::SkipIfNeReg { x, y } => x < 16 && y < 16,
            Instruction::Draw { x, y, n } => x < 16 && y < 16 && n < 16,
            Instruction::ShiftRight { x } => x < 16,
            Instruction::ShiftLeft { x } => x < 16,
            Instruction::SkipIfKey { x } => x < 16,
            Instruction::SkipIfNotKey { x } => x < 16,
            Instruction::GetDelay { x } => x < 16,
            Instruction::WaitKey { x } => x < 16,
            Instruction::SetDelay { x } => x < 16,
            Instruction::SetSound { x } => x < 16,
            Instruction::AddIndex { x } => x < 16,
            Instruction::GlyphAddress { x } => x < 16,
            Instruction::Bcd { x } => x < 16,
            Instruction::StoreRegs { x } => x < 16,
            Instruction::LoadRegs { x } => x < 16,
            _ => true,
        }
    }
}

/// Every field that a word yields stays within its nibble or its twelve bits.
pub proof fn lemma_fields_bounded(op: u16)
    ensures
        nib1(op) < 16,
        nib2(op) < 16,
        nib3(op) < 16,
        nib4(op) < 16,
        op & 0xFFF < 0x1000,
{
    assert(op >> 12 < 16) by (bit_vector);
    assert((op >> 8) & 0xF < 16) by (bit_vector);
    assert((op >> 4) & 0xF < 16) by (bit_vector);
    assert(op & 0xF < 16) by (bit_vector);
    assert(op & 0xFFF < 0x1000) by (bit_vector);
}

/// Whatever a word decodes to is well formed.
pub proof fn lemma_decode_wf(op: u16)
    ensures
        decode_spec(op) matches Some(ins) ==> ins.wf(),
{
    lemma_fields_bounded(op);
}

/// The word with nibbles `a`, `b`, `c`, `d`, highest first.
pub open spec fn word(a: u16, b: u16, c: u16, d: u16) -> u16 {
    (a << 12u16) | (b << 8u16) | (c << 4u16) | d
}

/// A word built from four nibbles gives them back.
pub proof fn lemma_word_nibbles(a: u16, b: u16, c: u16, d: u16)
    requires
        a < 16,
        b < 16,
        c < 16,
        d < 16,
    ensures
        nib1(word(a, b, c, d)) == a,
        nib2(word(a, b, c, d)) == b,
        nib3(word(a, b, c, d)) == c,
        nib4(word(a, b, c, d)) == d,
{
    assert(((a << 12u16) | (b << 8u16) | (c << 4u16) | d) >> 12u16 == a) by (bit_vector)
        requires
            a < 16 && b < 16 && c < 16 && d < 16,
    ;
    assert((((a << 12u16) | (b << 8u16) | (c << 4u16) | d) >> 8u16) & 0xF == b) by (bit_vector)
        requires
            a < 16 && b < 16 && c < 16 && d < 16,
    ;
    assert((((a << 12u16) | (b << 8u16) | (c << 4u16) | d) >> 4u16) & 0xF == c) by (bit_vector)
        requires
            a < 16 && b < 16 && c < 16 && d < 16,
    ;
    assert(((a << 12u16) | (b << 8u16) | (c << 4u16) | d) & 0xF == d) by (bit_vector)
        requires
            a < 16 && b < 16 && c < 16 && d < 16,
    ;
}

/// A word made of the nibble `a` and a twelve-bit address gives both back.
pub proof fn lemma_address_word(a: u16, addr: u16)
    requires
        a < 16,
        addr < 0x1000,
    ensures
        nib1((a << 12u16) | addr) == a,
        ((a << 12u16) | addr) & 0xFFF == addr,
{
    assert(((a << 12u16) | addr) >> 12u16 == a) by (bit_vector)
        requires
            a < 16 && addr < 0x1000,
    ;
    assert(((a << 12u16) | addr) & 0xFFF == addr) by (bit_vector)
        requires
            a < 16 && addr < 0x1000,
    ;
}

/// Splits an instruction word into its nibbles and dispatches on them.
pub fn decode(op: u16) -> (r: Option<Instruction>)
    ensures
        r == decode_spec(op),
{
    proof {
        lemma_fields_bounded(op);
    }
    let d1 = op >> 12;
    let d3 = (op >> 4) & 0xF;
    let d4 = op & 0xF;
    let x = ((op >> 8) & 0xF) as usize;
    let y = ((op >> 4) & 0xF) as usize;
    let nn = (op & 0xFF) as u8;
    let addr = op & 0xFFF;
    if d1 == 0 {
        if op == 0x0000 {
            Some(Instruction::Nop)
        } else if op == 0x00E0 {
            Some(Instruction::ClearScreen)
        } else if op == 0x00EE {
            Some(Instruction::Return)
        } else {
            None
        }
    } else if d1 == 1 {
        Some(Instruction::Jump { addr })
    } else if d1 == 2 {
        Some(Instruction::Call { addr })
    } else if d1 == 3 {
        Some(Instruction::SkipIfEqImm { x, nn })
    } else if d1 == 4 {
        Some(Instruction::SkipIfNeImm { x, nn })
    } else if d1 == 5 {
        Some(Instruction::SkipIfEqReg { x, y })
    } else if d1 == 6 {
        Some(Instruction::LoadImm { x, nn })
    } else if d1 == 7 {
        Some(Instruction::AddImm { x, nn })
    } else if d1 == 8 {
        if d4 == 0 {
            Some(Instruction::Move { x, y })
        } else if d4 == 1 {
            Some(Instruction::Or { x, y })
        } else if d4 == 2 {
            Some(Instruction::And { x, y })
        } else if d4 == 3 {
            Some(Instruction::Xor { x, y })
        } else if d4 == 4 {
            Some(Instruction::AddReg { x, y })
        } else if d4 == 5 {
            Some(Instruction::SubReg { x, y })
        } else if d4 == 6 {
            Some(Instruction::ShiftRight { x })
        } else if d4 == 7 {
            Some(Instruction::SubRev { x, y })
        } else if d4 == 0xE {
            Some(Instruction::ShiftLeft { x })
        } else {
            None
        }
    } else if d1 == 9 {
        Some(Instruction::SkipIfNeReg { x, y })
    } else if d1 == 0xA {
        Some(Instruction::SetIndex { addr })
    } else if d1 == 0xB {
        Some(Instruction::JumpOffset { addr })
    } else if d1 == 0xC {
        Some(Instruction::Random { x, nn })
    } else if d1 == 0xD {
        Some(Instruction::Draw { x, y, n: d4 as usize })
    } else if d1 == 0xE {
        if d3 == 9 && d4 == 0xE {
            Some(Instruction::SkipIfKey { x })
        } else if d3 == 0xA && d4 == 0xE {
            Some(Instruction::SkipIfNotKey { x })
        } else {
            None
        }
    } else if d3 == 0 && d4 == 7 {
        Some(Instruction::GetDelay { x })
    } else if d3 == 0 && d4 == 0xA {
        Some(Instruction::WaitKey { x })
    } else if d3 == 1 && d4 == 5 {
        Some(Instruction::SetDelay { x })
    } else if d3 == 1 && d4 == 8 {
        Some(Instruction::SetSound { x })
    } else if d3 == 1 && d4 == 0xE {
        Some(Instruction::AddIndex { x })
    } else if d3 == 2 && d4 == 9 {
        Some(Instruction::GlyphAddress { x })
    } else if d3 == 3 && d4 == 3 {
        Some(Instruction::Bcd { x })
    } else if d3 == 5 && d4 == 5 {
        Some(Instruction::StoreRegs { x })
    } else if d3 == 6 && d4 == 5 {
        Some(Instruction::LoadRegs { x })
    } else {
        None
    }
}

} // verus!
