//! The CHIP-8 machine state and its construction.
//!
//! The machine is a single aggregate: 4096 bytes of memory (font glyphs at
//! the bottom, the program image from 0x200 on), a 64x32 one-bit
//! framebuffer stored as bytes valued 0 or 1, sixteen 8-bit registers, an
//! address register, a program counter, a sixteen-entry return stack, two
//! 8-bit timers and a sixteen-key input latch.
use vstd::prelude::*;

verus! {

/// Number of addressable memory bytes.
pub const RAM_SIZE: usize = 4096;
/// Where the built-in font glyphs start.
pub const FONTS_LOCATION: usize = 0;
/// Number of bytes of built-in font glyphs: 16 glyphs of 5 bytes each.
pub const FONTSET_SIZE: usize = 80;
/// Where a program image is loaded and where execution starts.
pub const PROGRAMS_LOCATION: usize = 0x200;
/// The largest program image that fits between 0x200 and the end of memory.
pub const MAX_ROM_SIZE: usize = RAM_SIZE - PROGRAMS_LOCATION;

/// Framebuffer width in cells.
pub const SCREEN_WIDTH: usize = 64;
/// Framebuffer height in cells.
pub const SCREEN_HEIGHT: usize = 32;
/// Total framebuffer cells.
pub const SCREEN_SIZE: usize = SCREEN_WIDTH * SCREEN_HEIGHT;

/// Depth of the return-address stack.
pub const STACK_SIZE: usize = 16;
/// Number of general-purpose registers.
pub const NUM_REGISTERS: usize = 16;
/// Number of keys in the input latch.
pub const NUM_KEYS: usize = 16;

/// A fatal machine condition. The interpreter never panics: every
/// condition the machine cannot execute past is returned as one of
/// these, and the driver loop halts on it.
#[derive(Clone, Copy, Debug, PartialEq, Eq)]
pub enum Chip8Error {
    /// The program image does not fit between 0x200 and the end of memory.
    RomTooBig,
    /// The program counter does not point at two readable bytes.
    OutOfBoundsFetch,
    /// The fetched word matches no instruction of the machine.
    InvalidInstruction,
    /// A return was executed with an empty stack.
    StackUnderflow,
    /// A call was executed with a full stack.
    StackOverflow,
    /// A sprite row would be read or a cell written outside memory
    /// or the framebuffer.
    DrawOutOfBounds,
    /// A binary-coded-decimal store would write past the end of memory.
    BcdOutOfBounds,
}

/// The complete architectural state of a CHIP-8 machine.
pub struct Chip8 {
    /// Memory: font glyphs at `FONTS_LOCATION`, program from
    /// `PROGRAMS_LOCATION`. Always `RAM_SIZE` bytes.
    pub ram: Vec<u8>,
    /// Framebuffer cells, row-major, each 0 or 1. Always `SCREEN_SIZE` long.
    pub screen: Vec<u8>,
    /// Return-address stack; entries at indices below `SP` are live.
    pub stack: Vec<usize>,
    /// General-purpose registers V0..VF. VF doubles as the flag register.
    pub V: Vec<u8>,
    /// Address register, an index into `ram`.
    pub I: usize,
    /// Program counter: the address of the next instruction.
    pub PC: usize,
    /// Stack pointer: the number of live return addresses.
    pub SP: usize,
    /// Delay timer, decremented once per cycle down to zero.
    pub delay_timer: u8,
    /// Sound timer, decremented once per cycle down to zero.
    pub sound_timer: u8,
    /// Input latch, one cell per key, each 0 or 1.
    pub key: Vec<u8>,
    /// Set whenever the framebuffer changed; the driver loop clears it
    /// after handing the framebuffer to the presentation layer.
    pub draw_flag: bool,
}

impl Chip8 {
    /// Well-formedness: the fixed sizes of the state's arrays, the stack
    /// pointer's range, the address register's range, and the one-bit
    /// values of framebuffer cells and key latches.
    pub open spec fn wf(self) -> bool {
        &&& self.ram@.len() == RAM_SIZE
        &&& self.screen@.len() == SCREEN_SIZE
        &&& self.stack@.len() == STACK_SIZE
        &&& self.V@.len() == NUM_REGISTERS
        &&& self.key@.len() == NUM_KEYS
        &&& self.SP <= STACK_SIZE
        &&& self.I < RAM_SIZE
        &&& forall|i: int| 0 <= i < SCREEN_SIZE ==> self.screen@[i] <= 1
        &&& forall|i: int| 0 <= i < NUM_KEYS ==> self.key@[i] <= 1
    }
}

/// The built-in font: one five-byte glyph per hexadecimal digit.
pub open spec fn font_seq() -> Seq<u8> {
    seq![
        0xF0u8, 0x90, 0x90, 0x90, 0xF0, // 0
        0x20, 0x60, 0x20, 0x20, 0x70, // 1
        0xF0, 0x10, 0xF0, 0x80, 0xF0, // 2
        0xF0, 0x10, 0xF0, 0x10, 0xF0, // 3
        0x90, 0x90, 0xF0, 0x10, 0x10, // 4
        0xF0, 0x80, 0xF0, 0x10, 0xF0, // 5
        0xF0, 0x80, 0xF0, 0x90, 0xF0, // 6
        0xF0, 0x10, 0x20, 0x40, 0x40, // 7
        0xF0, 0x90, 0xF0, 0x90, 0xF0, // 8
        0xF0, 0x90, 0xF0, 0x10, 0xF0, // 9
        0xF0, 0x90, 0xF0, 0x90, 0x90, // A
        0xE0, 0x90, 0xE0, 0x90, 0xE0, // B
        0xF0, 0x80, 0x80, 0x80, 0xF0, // C
        0xE0, 0x90, 0x90, 0x90, 0xE0, // D
        0xF0, 0x80, 0xF0, 0x80, 0xF0, // E
        0xF0, 0x80, 0xF0, 0x80, 0x80, // F
    ]
}

/// The state a machine is in right after construction from a program
/// image: font then zeros then the image in memory, the program counter at
/// the image's start, and everything else zeroed.
pub open spec fn initial_state(c: Chip8, rom: Seq<u8>) -> bool {
    &&& forall|i: int| 0 <= i < FONTSET_SIZE ==> c.ram@[i] == font_seq()[i]
    &&& forall|i: int| FONTSET_SIZE <= i < PROGRAMS_LOCATION ==> c.ram@[i] == 0
    &&& forall|i: int| 0 <= i < rom.len() ==> c.ram@[PROGRAMS_LOCATION + i] == rom[i]
    &&& forall|i: int| PROGRAMS_LOCATION + rom.len() <= i < RAM_SIZE ==> c.ram@[i] == 0
    &&& forall|i: int| 0 <= i < SCREEN_SIZE ==> c.screen@[i] == 0
    &&& forall|i: int| 0 <= i < STACK_SIZE ==> c.stack@[i] == 0
    &&& forall|i: int| 0 <= i < NUM_REGISTERS ==> c.V@[i] == 0
    &&& forall|i: int| 0 <= i < NUM_KEYS ==> c.key@[i] == 0
    &&& c.I == 0
    &&& c.PC == PROGRAMS_LOCATION
    &&& c.SP == 0
    &&& c.delay_timer == 0
    &&& c.sound_timer == 0
    &&& c.draw_flag == false
}

/// A vector of `n` zero bytes.
pub(crate) fn zeroed_bytes(n: usize) -> (v: Vec<u8>)
    ensures
        v@.len() == n,
        forall|i: int| 0 <= i < n ==> v@[i] == 0,
{
    let mut v: Vec<u8> = Vec::new();
    let mut k: usize = 0;
    while k < n
        invariant
            k <= n,
            v@.len() == k,
            forall|i: int| 0 <= i < k ==> v@[i] == 0,
        decreases n - k,
    {
        v.push(0);
        k += 1;
    }
    v
}

/// The font glyphs as a byte vector.
fn font_vec() -> (v: Vec<u8>)
    ensures
        v@ == font_seq(),
{
    let v: Vec<u8> = vec![
        0xF0u8, 0x90, 0x90, 0x90, 0xF0, // 0
        0x20, 0x60, 0x20, 0x20, 0x70, // 1
        0xF0, 0x10, 0xF0, 0x80, 0xF0, // 2
        0xF0, 0x10, 0xF0, 0x10, 0xF0, // 3
        0x90, 0x90, 0xF0, 0x10, 0x10, // 4
        0xF0, 0x80, 0xF0, 0x10, 0xF0, // 5
        0xF0, 0x80, 0xF0, 0x90, 0xF0, // 6
        0xF0, 0x10, 0x20, 0x40, 0x40, // 7
        0xF0, 0x90, 0xF0, 0x90, 0xF0, // 8
        0xF0, 0x90, 0xF0, 0x10, 0xF0, // 9
        0xF0, 0x90, 0xF0, 0x90, 0x90, // A
        0xE0, 0x90, 0xE0, 0x90, 0xE0, // B
        0xF0, 0x80, 0x80, 0x80, 0xF0, // C
        0xE0, 0x90, 0x90, 0x90, 0xE0, // D
        0xF0, 0x80, 0xF0, 0x80, 0xF0, // E
        0xF0, 0x80, 0xF0, 0x80, 0x80, // F
    ];
    proof {
        assert(v@ =~= font_seq());
    }
    v
}

/// Memory as the machine starts with it: the font, zeros up to
/// `PROGRAMS_LOCATION`, the program image, zeros to the end.
fn build_ram(game_rom: &Vec<u8>) -> (ram: Vec<u8>)
    requires
        game_rom@.len() <= MAX_ROM_SIZE,
    ensures
        ram@.len() == RAM_SIZE,
        forall|i: int| 0 <= i < FONTSET_SIZE ==> ram@[i] == font_seq()[i],
        forall|i: int| FONTSET_SIZE <= i < PROGRAMS_LOCATION ==> ram@[i] == 0,
        forall|i: int| 0 <= i < game_rom@.len() ==> ram@[PROGRAMS_LOCATION + i] == game_rom@[i],
        forall|i: int| PROGRAMS_LOCATION + game_rom@.len() <= i < RAM_SIZE ==> ram@[i] == 0,
{
    let mut ram = font_vec();
    let mut k: usize = FONTSET_SIZE;
    while k < PROGRAMS_LOCATION
        invariant
            FONTSET_SIZE <= k <= PROGRAMS_LOCATION,
            ram@.len() == k,
            forall|i: int| 0 <= i < FONTSET_SIZE ==> ram@[i] == font_seq()[i],
            forall|i: int| FONTSET_SIZE <= i < k ==> ram@[i] == 0,
        decreases PROGRAMS_LOCATION - k,
    {
        ram.push(0);
        k += 1;
    }
    let mut j: usize = 0;
    while j < game_rom.len()
        invariant
            j <= game_rom@.len(),
            game_rom@.len() <= MAX_ROM_SIZE,
            ram@.len() == PROGRAMS_LOCATION + j,
            forall|i: int| 0 <= i < FONTSET_SIZE ==> ram@[i] == font_seq()[i],
            forall|i: int| FONTSET_SIZE <= i < PROGRAMS_LOCATION ==> ram@[i] == 0,
            forall|i: int| 0 <= i < j ==> ram@[PROGRAMS_LOCATION + i] == game_rom@[i],
        decreases game_rom@.len() - j,
    {
        ram.push(game_rom[j]);
        j += 1;
    }
    let rom_end: usize = PROGRAMS_LOCATION + game_rom.len();
    let mut k2: usize = rom_end;
    while k2 < RAM_SIZE
        invariant
            rom_end == PROGRAMS_LOCATION + game_rom@.len(),
            rom_end <= k2 <= RAM_SIZE,
            ram@.len() == k2,
            forall|i: int| 0 <= i < FONTSET_SIZE ==> ram@[i] == font_seq()[i],
            forall|i: int| FONTSET_SIZE <= i < PROGRAMS_LOCATION ==> ram@[i] == 0,
            forall|i: int| 0 <= i < game_rom@.len() ==> ram@[PROGRAMS_LOCATION + i]
                == game_rom@[i],
            forall|i: int| rom_end <= i < k2 ==> ram@[i] == 0,
        decreases RAM_SIZE - k2,
    {
        ram.push(0);
        k2 += 1;
    }
    ram
}

impl Chip8 {
    /// Builds a machine from a program image: the font set is placed at
    /// the bottom of memory, the image at `PROGRAMS_LOCATION`, the program
    /// counter starts there, and all registers, timers, the stack, the
    /// framebuffer and the input latch start zeroed. An image longer than
    /// `MAX_ROM_SIZE` is rejected before any state exists.
    pub fn new(game_rom: &Vec<u8>) -> (r: Result<Chip8, Chip8Error>)
        ensures
            game_rom@.len() > MAX_ROM_SIZE ==> r == Err::<Chip8, Chip8Error>(
                Chip8Error::RomTooBig,
            ),
            game_rom@.len() <= MAX_ROM_SIZE ==> (r matches Ok(c) && c.wf() && initial_state(
                c,
                game_rom@,
            )),
    {
        if game_rom.len() > MAX_ROM_SIZE {
            return Err(Chip8Error::RomTooBig);
        }
        let ram = build_ram(game_rom);
        let screen = zeroed_bytes(SCREEN_SIZE);
        let v_regs = zeroed_bytes(NUM_REGISTERS);
        let key = zeroed_bytes(NUM_KEYS);
        let mut stack: Vec<usize> = Vec::new();
        let mut k: usize = 0;
        while k < STACK_SIZE
            invariant
                k <= STACK_SIZE,
                stack@.len() == k,
                forall|i: int| 0 <= i < k ==> stack@[i] == 0,
            decreases STACK_SIZE - k,
        {
            stack.push(0);
            k += 1;
        }
        Ok(
            Chip8 {
                ram,
                screen,
                stack,
                V: v_regs,
                I: 0,
                PC: PROGRAMS_LOCATION,
                SP: 0,
                delay_timer: 0,
                sound_timer: 0,
                key,
                draw_flag: false,
            },
        )
    }
}

} // verus!
