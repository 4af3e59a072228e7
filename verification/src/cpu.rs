//! A preliminary model of a second, unrelated 8-bit processor: named
//! registers, four flags, and a block of internal RAM whose power-on
//! content is undetermined. Only construction is modelled; the processor
//! has no instruction semantics here.
use vstd::prelude::*;
use rand::RngCore;

verus! {

/// Size of the processor's internal RAM block.
pub const INTERNAL_RAM_SIZE: usize = 0x2000;

/// The processor's registers, flags and internal RAM.
pub struct Cpu {
    pub A: u8,
    pub B: u8,
    pub C: u8,
    pub D: u8,
    pub E: u8,
    pub H: u8,
    pub L: u8,
    pub SP: u16,
    pub PC: u16,
    pub zf: bool,
    pub nf: bool,
    pub hf: bool,
    pub cf: bool,
    pub internal_ram: [u8; INTERNAL_RAM_SIZE],
}

/// Relies on rand::thread_rng and rand_core's RngCore::fill_bytes: the
/// block comes back filled with bytes from the thread-local generator.
/// Nothing can be promised of random bytes beyond what the type already
/// carries, so there is no `ensures`.
#[verifier::external_body]
fn random_internal_ram() -> (r: [u8; INTERNAL_RAM_SIZE]) {
    let mut bytes = [0u8; INTERNAL_RAM_SIZE];
    rand::thread_rng().fill_bytes(&mut bytes);
    bytes
}

impl Cpu {
    /// A processor at power-on: every register and flag zeroed, the
    /// internal RAM filled with undetermined bytes.
    pub fn new() -> (r: Cpu)
        ensures
            r.A == 0,
            r.B == 0,
            r.C == 0,
            r.D == 0,
            r.E == 0,
            r.H == 0,
            r.L == 0,
            r.SP == 0,
            r.PC == 0,
            r.zf == false,
            r.nf == false,
            r.hf == false,
            r.cf == false,
    {
        let internal_ram = random_internal_ram();
        Cpu {
            A: 0,
            B: 0,
            C: 0,
            D: 0,
            E: 0,
            H: 0,
            L: 0,
            SP: 0,
            PC: 0,
            zf: false,
            nf: false,
            hf: false,
            cf: false,
            internal_ram,
        }
    }
}

} // verus!
