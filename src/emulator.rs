//! The interpreter as a host sees it: a processor with its memory, plus program loading.
use crate::cpu::{applied, spec_fetch, Chip8Error, Cpu, MachineState};
use crate::memory::{
    font_seq, initial_ram, lemma_fonts_view, Memory, FONTS, FONT_SIZE, PROGRAM_START, ROM_MAX_SIZE,
};
use vstd::prelude::*;

verus! {

/// Memory with the font written back over `0x000..0x050`.
pub open spec fn spec_load_font(s: MachineState) -> MachineState {
    MachineState {
        ram: Seq::new(s.ram.len(), |a: int| if a < 80 { font_seq()[a] } else { s.ram[a] }),
        ..s
    }
}

/// The pending program image copied to `0x200` and the image emptied; an image larger
/// than 3584 bytes is refused and nothing changes.
pub open spec fn spec_load_rom(s: MachineState) -> Result<MachineState, Chip8Error> {
    if s.rom.len() > 3584 {
        Err(Chip8Error::LoadTooLarge)
    } else {
        Ok(MachineState {
            ram: Seq::new(
                s.ram.len(),
                |a: int|
                    if 512 <= a < 512 + s.rom.len() {
                        s.rom[a - 512]
                    } else {
                        s.ram[a]
                    },
            ),
            rom: Seq::empty(),
            ..s
        })
    }
}

/// A CHIP-8 machine.
#[derive(Debug)]
pub struct Emulator {
    pub cpu: Cpu,
}

impl Emulator {
    /// A machine at power-on: font in place, blank screen, no program, registers
    /// zeroed and the program counter at `0x200`.
    pub fn new() -> (r: Emulator)
        ensures
            r.cpu@ == (MachineState {
                op: 0,
                v: Seq::new(16, |_k: int| 0u8),
                i: 0,
                pc: 0x200,
                stack: Seq::new(16, |_k: int| 0u16),
                sp: 0,
                delay: 0,
                sound: 0,
                keys: Seq::new(16, |_k: int| false),
                running: false,
                ram: initial_ram(),
                screen: Seq::new(2048, |_p: int| false),
                rom: Seq::empty(),
            }),
    {
        let r = Emulator { cpu: Cpu::new(Memory::default()) };
        assert(r.cpu@.rom =~= Seq::<u8>::empty());
        assert(r.cpu@ =~= (MachineState {
            op: 0,
            v: Seq::new(16, |_k: int| 0u8),
            i: 0,
            pc: 0x200,
            stack: Seq::new(16, |_k: int| 0u16),
            sp: 0,
            delay: 0,
            sound: 0,
            keys: Seq::new(16, |_k: int| false),
            running: false,
            ram: initial_ram(),
            screen: Seq::new(2048, |_p: int| false),
            rom: Seq::empty(),
        }));
        r
    }

    /// Read the opcode at the program counter and move the program counter past it.
    pub fn fetch_opcode(&mut self) -> (r: Result<(), Chip8Error>)
        ensures
            applied(old(self).cpu@, final(self).cpu@, r, spec_fetch(old(self).cpu@)),
    {
        self.cpu.fetch_opcode()
    }

    /// Write the built-in font to `0x000..0x050`.
    pub fn load_font(&mut self)
        ensures
            final(self).cpu@ == spec_load_font(old(self).cpu@),
    {
        proof {
            lemma_fonts_view();
        }
        let ghost pre = self.cpu@;
        let mut a: usize = 0;
        while a < FONT_SIZE
            invariant
                a <= FONT_SIZE,
                FONTS@ == font_seq(),
                self.cpu@ == (MachineState { ram: self.cpu@.ram, ..pre }),
                self.cpu@.ram.len() == 4096,
                forall|k: int|
                    0 <= k < 4096 ==> #[trigger] self.cpu@.ram[k] == if k < a {
                        font_seq()[k]
                    } else {
                        pre.ram[k]
                    },
            decreases FONT_SIZE - a,
        {
            self.cpu.memory.ram[a] = FONTS[a];
            a = a + 1;
        }
        assert(self.cpu@ =~= spec_load_font(pre));
    }

    /// Copy the pending program image (`cpu.memory.rom`) to `0x200` and empty it.
    pub fn load_rom(&mut self) -> (r: Result<(), Chip8Error>)
        ensures
            applied(old(self).cpu@, final(self).cpu@, r, spec_load_rom(old(self).cpu@)),
    {
        let rom_length: usize = self.cpu.memory.rom.len();
        if rom_length > ROM_MAX_SIZE {
            return Err(Chip8Error::LoadTooLarge);
        }
        let ghost pre = self.cpu@;
        let mut k: usize = 0;
        while k < rom_length
            invariant
                k <= rom_length,
                rom_length == pre.rom.len(),
                rom_length <= 3584,
                self.cpu@ == (MachineState { ram: self.cpu@.ram, ..pre }),
                self.cpu@.ram.len() == 4096,
                forall|a: int|
                    0 <= a < 4096 ==> #[trigger] self.cpu@.ram[a] == if 512 <= a < 512 + k {
                        pre.rom[a - 512]
                    } else {
                        pre.ram[a]
                    },
            decreases rom_length - k,
        {
            let byte = self.cpu.memory.rom[k];
            self.cpu.memory.ram[PROGRAM_START + k] = byte;
            k = k + 1;
        }
        self.cpu.memory.rom.clear();
        assert(self.cpu@ =~= spec_load_rom(pre)->Ok_0);
        Ok(())
    }
}

} // verus!
