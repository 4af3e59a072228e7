//! The instruction set at the specification level.
//!
//! A fetched 16-bit word decodes to at most one `Instr`. Classes are told
//! apart first by the top nibble, and for the 0x0, 0x5, 0x8, 0x9 and 0xF
//! classes further by the low nibble or low byte. Operand extraction is
//! the same bit slicing for every class: `x` is bits 8..12, `y` is bits
//! 4..8, `n` is the low byte, `addr` the low 12 bits.
use vstd::prelude::*;

verus! {

/// One decoded instruction, with its operands.
pub enum Instr {
    ClearScreen,
    Return,
    Goto { addr: usize },
    Call { addr: usize },
    SkipIfVxEqN { x: usize, n: u8 },
    SkipIfVxNeN { x: usize, n: u8 },
    SkipIfVxEqVy { x: usize, y: usize },
    SetVxN { x: usize, n: u8 },
    AddNToVx { x: usize, n: u8 },
    SetVxVy { x: usize, y: usize },
    OrVxVy { x: usize, y: usize },
    AndVxVy { x: usize, y: usize },
    XorVxVy { x: usize, y: usize },
    AddVyToVx { x: usize, y: usize },
    SubVyFromVx { x: usize, y: usize },
    ShrVx { x: usize },
    SetVxVyMinusVx { x: usize, y: usize },
    ShlVx { x: usize },
    SkipIfVxNeVy { x: usize, y: usize },
    SetI { addr: usize },
    GotoPlusV0 { addr: usize },
    MaskedRandom { x: usize, n: u8 },
    DrawSprite { x: usize, y: usize, lines: usize },
    StoreBcd { x: usize },
}

/// What a 16-bit word decodes to; `None` is a fatal decode error.
pub open spec fn spec_decode(i: u16) -> Option<Instr> {
    let x = ((i & 0x0F00) >> 8) as usize;
    let y = ((i & 0x00F0) >> 4) as usize;
    let n = (i & 0x00FF) as u8;
    let addr = (i & 0x0FFF) as usize;
    let low = i & 0x000F;
    if i == 0x00E0 {
        Some(Instr::ClearScreen)
    } else if i == 0x00EE {
        Some(Instr::Return)
    } else if 0x1000 <= i && i <= 0x1FFF {
        Some(Instr::Goto { addr })
    } else if 0x2000 <= i && i <= 0x2FFF {
        Some(Instr::Call { addr })
    } else if 0x3000 <= i && i <= 0x3FFF {
        Some(Instr::SkipIfVxEqN { x, n })
    } else if 0x4000 <= i && i <= 0x4FFF {
        Some(Instr::SkipIfVxNeN { x, n })
    } else if 0x5000 <= i && i <= 0x5FFF && low == 0x0 {
        Some(Instr::SkipIfVxEqVy { x, y })
    } else if 0x6000 <= i && i <= 0x6FFF {
        Some(Instr::SetVxN { x, n })
    } else if 0x7000 <= i && i <= 0x7FFF {
        Some(Instr::AddNToVx { x, n })
    } else if 0x8000 <= i && i <= 0x8FFF && low == 0x0 {
        Some(Instr::SetVxVy { x, y })
    } else if 0x8000 <= i && i <= 0x8FFF && low == 0x1 {
        Some(Instr::OrVxVy { x, y })
    } else if 0x8000 <= i && i <= 0x8FFF && low == 0x2 {
        Some(Instr::AndVxVy { x, y })
    } else if 0x8000 <= i && i <= 0x8FFF && low == 0x3 {
        Some(Instr::XorVxVy { x, y })
    } else if 0x8000 <= i && i <= 0x8FFF && low == 0x4 {
        Some(Instr::AddVyToVx { x, y })
    } else if 0x8000 <= i && i <= 0x8FFF && low == 0x5 {
        Some(Instr::SubVyFromVx { x, y })
    } else if 0x8000 <= i && i <= 0x8FFF && low == 0x6 {
        Some(Instr::ShrVx { x })
    } else if 0x8000 <= i && i <= 0x8FFF && low == 0x7 {
        Some(Instr::SetVxVyMinusVx { x, y })
    } else if 0x8000 <= i && i <= 0x8FFF && low == 0xE {
        Some(Instr::ShlVx { x })
    } else if 0x9000 <= i && i <= 0x9FFF && low == 0x0 {
        Some(Instr::SkipIfVxNeVy { x, y })
    } else if 0xA000 <= i && i <= 0xAFFF {
        Some(Instr::SetI { addr })
    } else if 0xB000 <= i && i <= 0xBFFF {
        Some(Instr::GotoPlusV0 { addr })
    } else if 0xC000 <= i && i <= 0xCFFF {
        Some(Instr::MaskedRandom { x, n })
    } else if 0xD000 <= i && i <= 0xDFFF {
        Some(Instr::DrawSprite { x, y, lines: low as usize })
    } else if 0xF000 <= i && (i & 0x00FF) == 0x33 {
        Some(Instr::StoreBcd { x })
    } else {
        None
    }
}

/// The bit slices that extract operands stay inside their ranges: a
/// register index is below 16, an address below 4096.
pub proof fn lemma_operand_bounds()
    by (bit_vector)
    ensures
        forall|i: u16| ((i & 0x0F00) >> 8) < 16,
        forall|i: u16| ((i & 0x00F0) >> 4) < 16,
        forall|i: u16| (i & 0x000F) < 16,
        forall|i: u16| (i & 0x0FFF) < 4096,
{
}

} // verus!
