//! The 4096-byte address space with the built-in font and the pending program image.
use crate::gpu::Gpu;
use vstd::prelude::*;

verus! {

/// Size of the address space in bytes.
pub const RAM_SIZE: usize = 4096;

/// Address at which programs are loaded.
pub const PROGRAM_START: usize = 512;

/// Largest program that fits between `PROGRAM_START` and the end of memory.
pub const ROM_MAX_SIZE: usize = 3584;

/// Number of bytes in the built-in font: sixteen glyphs of five rows.
pub const FONT_SIZE: usize = 80;

/// The built-in 4x5 glyphs for the hex digits 0 to F, five bytes each.
pub const FONTS: [u8; 80] = [
    0xF0, 0x90, 0x90, 0x90, 0xF0, // 0
    0x20, 0x60, 0x20, 0x20, 0x70, // 1
    0xF0, 0x10, 0xF0, 0x80, 0xF0, // 2
    0xF0, 0x10, 0xF0, 0x10, 0xF0, // 3
    0x90, 0x90, 0xF0, 0x10, 0x10, // 4
    0xF0, 0x80, 0xF0, 0x10, 0xF0, // 5
    0xF0, 0x80, 0xF0, 0x90, 0xF0, // 6
    0xF0, 0x10, 0x20, 0x40, 0x40, // 7
    0xF0, 0x90, 0xF0, 0x90, 0xF0, // 8
    0xF0, 0x90, 0xF0, 0x10, 0xF0, // 9
    0xF0, 0x90, 0xF0, 0x90, 0x90, // A
    0xE0, 0x90, 0xE0, 0x90, 0xE0, // B
    0xF0, 0x80, 0x80, 0x80, 0xF0, // C
    0xE0, 0x90, 0x90, 0x90, 0xE0, // D
    0xF0, 0x80, 0xF0, 0x80, 0xF0, // E
    0xF0, 0x80, 0xF0, 0x80, 0x80, // F
];

/// The font bytes as a sequence.
pub open spec fn font_seq() -> Seq<u8> {
    seq![
        0xF0u8, 0x90, 0x90, 0x90, 0xF0,
        0x20, 0x60, 0x20, 0x20, 0x70,
        0xF0, 0x10, 0xF0, 0x80, 0xF0,
        0xF0, 0x10, 0xF0, 0x10, 0xF0,
        0x90, 0x90, 0xF0, 0x10, 0x10,
        0xF0, 0x80, 0xF0, 0x10, 0xF0,
        0xF0, 0x80, 0xF0, 0x90, 0xF0,
        0xF0, 0x10, 0x20, 0x40, 0x40,
        0xF0, 0x90, 0xF0, 0x90, 0xF0,
        0xF0, 0x90, 0xF0, 0x10, 0xF0,
        0xF0, 0x90, 0xF0, 0x90, 0x90,
        0xE0, 0x90, 0xE0, 0x90, 0xE0,
        0xF0, 0x80, 0x80, 0x80, 0xF0,
        0xE0, 0x90, 0x90, 0x90, 0xE0,
        0xF0, 0x80, 0xF0, 0x80, 0xF0,
        0xF0, 0x80, 0xF0, 0x80, 0x80,
    ]
}

/// Memory as it is at power-on: the font at the bottom, zeros everywhere else.
pub open spec fn initial_ram() -> Seq<u8> {
    Seq::new(4096, |a: int| if a < 80 { font_seq()[a] } else { 0u8 })
}

pub proof fn lemma_fonts_view()
    ensures
        FONTS@ == font_seq(),
{
    assert(FONTS@ =~= font_seq());
}

/// The address space, the display buffer, and the program image waiting to be loaded.
#[derive(Debug)]
pub struct Memory {
    pub ram: [u8; 4096],
    pub gpu: Gpu,
    pub rom: Vec<u8>,
}

impl Memory {
    /// Memory holding the font at `0x000..0x050`, zeros above it, and `rom` as the
    /// image that `Emulator::load_rom` will copy to `0x200`.
    pub fn new(gpu: Gpu, rom: Vec<u8>) -> (r: Self)
        ensures
            r.ram@ == initial_ram(),
            r.gpu == gpu,
            r.rom@ == rom@,
    {
        let mut ram = [0u8; 4096];
        proof {
            lemma_fonts_view();
        }
        let mut a: usize = 0;
        while a < FONT_SIZE
            invariant
                a <= FONT_SIZE,
                FONTS@ == font_seq(),
                forall|k: int| 0 <= k < a ==> ram@[k] == font_seq()[k],
                forall|k: int| a <= k < 4096 ==> ram@[k] == 0,
            decreases FONT_SIZE - a,
        {
            ram[a] = FONTS[a];
            a = a + 1;
        }
        assert(ram@ =~= initial_ram());
        Memory { ram, gpu, rom }
    }
}

impl Default for Memory {
    fn default() -> (r: Self)
        ensures
            r.ram@ == initial_ram(),
            r.gpu.screen@ == crate::gpu::blank_screen(),
            r.rom@.len() == 0,
    {
        Memory::new(Gpu::new(), Vec::new())
    }
}

} // verus!
