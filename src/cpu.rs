//! The register file, the keypad, and the abstract machine state they are verified against.
use crate::iset::{
    random_byte, spec_00e0, spec_00ee, spec_1nnn, spec_2nnn, spec_3xnn, spec_4xnn, spec_5xy0,
    spec_6xnn, spec_7xnn, spec_8xy0, spec_8xy1, spec_8xy2, spec_8xy3, spec_8xy4, spec_8xy5,
    spec_8xy6, spec_8xy7, spec_8xye, spec_9xy0, spec_annn, spec_bnnn, spec_cxnn, spec_dxyn,
    spec_ex9e, spec_exa1, spec_fx07, spec_fx0a, spec_fx15, spec_fx18, spec_fx1e, spec_fx29,
    spec_fx33, spec_fx55, spec_fx65,
};
use crate::memory::{Memory, RAM_SIZE};
use crate::opcode::{nibbles_of, Nibbles, OpCode};
use vstd::prelude::*;

verus! {

/// What can stop a cycle or a load.
#[derive(Debug, Clone, Copy, PartialEq, Eq, Structural)]
pub enum Chip8Error {
    /// The opcode matches no instruction; it was skipped.
    DecodeMiss(u16),
    /// A memory or stack access fell outside its range.
    OutOfBounds,
    /// A return with an empty call stack.
    StackUnderflow,
    /// A call with sixteen return addresses already on the stack.
    StackOverflow,
    /// The program does not fit between `0x200` and the end of memory.
    LoadTooLarge,
}

/// The whole machine as mathematical values.
#[verifier::ext_equal]
pub ghost struct MachineState {
    /// The opcode most recently fetched.
    pub op: u16,
    /// V0 to VF.
    pub v: Seq<u8>,
    /// The index register I.
    pub i: u16,
    pub pc: u16,
    pub stack: Seq<u16>,
    pub sp: usize,
    pub delay: u8,
    pub sound: u8,
    pub keys: Seq<bool>,
    pub running: bool,
    pub ram: Seq<u8>,
    pub screen: Seq<bool>,
    /// The program image waiting to be loaded.
    pub rom: Seq<u8>,
}

/// `pre` went to `post` and `r` was returned, as the model `m` prescribes:
/// its state on success, and no change at all on an error.
pub open spec fn applied(
    pre: MachineState,
    post: MachineState,
    r: Result<(), Chip8Error>,
    m: Result<MachineState, Chip8Error>,
) -> bool {
    match m {
        Ok(t) => r is Ok && post == t,
        Err(e) => r == Err::<(), Chip8Error>(e) && post == pre,
    }
}

/// The lowest key index at or above `k` that is down.
pub open spec fn lowest_pressed_from(keys: Seq<bool>, k: int) -> Option<u8>
    decreases 16 - k,
{
    if k >= 16 {
        None
    } else if keys[k] {
        Some(k as u8)
    } else {
        lowest_pressed_from(keys, k + 1)
    }
}

/// The lowest key index that is down, if any.
pub open spec fn lowest_pressed(keys: Seq<bool>) -> Option<u8> {
    lowest_pressed_from(keys, 0)
}

/// Whether the key named by register value `k` is down; values above 15 name no key.
pub open spec fn key_down(keys: Seq<bool>, k: u8) -> bool {
    k < 16 && keys[k as int]
}

/// One instruction: the model of the opcode in `s.op`, with `rng` as the byte that
/// `CXNN` draws. `0NNN` (a native routine) does nothing; an opcode outside the table
/// is a decode miss.
pub open spec fn spec_execute(s: MachineState, rng: u8) -> Result<MachineState, Chip8Error> {
    match nibbles_of(s.op) {
        (0, 0, 0xE, 0xE) => spec_00ee(s),
        (0, 0, 0xE, 0) => Ok(spec_00e0(s)),
        (0, _, _, _) => Ok(s),
        (1, _, _, _) => Ok(spec_1nnn(s)),
        (2, _, _, _) => spec_2nnn(s),
        (3, _, _, _) => Ok(spec_3xnn(s)),
        (4, _, _, _) => Ok(spec_4xnn(s)),
        (5, _, _, 0) => Ok(spec_5xy0(s)),
        (6, _, _, _) => Ok(spec_6xnn(s)),
        (7, _, _, _) => Ok(spec_7xnn(s)),
        (8, _, _, 0) => Ok(spec_8xy0(s)),
        (8, _, _, 1) => Ok(spec_8xy1(s)),
        (8, _, _, 2) => Ok(spec_8xy2(s)),
        (8, _, _, 3) => Ok(spec_8xy3(s)),
        (8, _, _, 4) => Ok(spec_8xy4(s)),
        (8, _, _, 5) => Ok(spec_8xy5(s)),
        (8, _, _, 6) => Ok(spec_8xy6(s)),
        (8, _, _, 7) => Ok(spec_8xy7(s)),
        (8, _, _, 0xE) => Ok(spec_8xye(s)),
        (9, _, _, 0) => Ok(spec_9xy0(s)),
        (0xA, _, _, _) => Ok(spec_annn(s)),
        (0xB, _, _, _) => Ok(spec_bnnn(s)),
        (0xC, _, _, _) => Ok(spec_cxnn(s, rng)),
        (0xD, _, _, _) => spec_dxyn(s),
        (0xE, _, 9, 0xE) => Ok(spec_ex9e(s)),
        (0xE, _, 0xA, 1) => Ok(spec_exa1(s)),
        (0xF, _, 0, 7) => Ok(spec_fx07(s)),
        (0xF, _, 0, 0xA) => Ok(spec_fx0a(s)),
        (0xF, _, 1, 5) => Ok(spec_fx15(s)),
        (0xF, _, 1, 8) => Ok(spec_fx18(s)),
        (0xF, _, 1, 0xE) => Ok(spec_fx1e(s)),
        (0xF, _, 2, 9) => Ok(spec_fx29(s)),
        (0xF, _, 3, 3) => spec_fx33(s),
        (0xF, _, 5, 5) => spec_fx55(s),
        (0xF, _, 6, 5) => spec_fx65(s),
        _ => Err(Chip8Error::DecodeMiss(s.op)),
    }
}

/// Fetch: the two bytes at the program counter, high byte first, become the current
/// opcode and the program counter moves past them.
pub open spec fn spec_fetch(s: MachineState) -> Result<MachineState, Chip8Error> {
    if s.pc + 2 > 4096 {
        Err(Chip8Error::OutOfBounds)
    } else {
        Ok(MachineState {
            op: (s.ram[s.pc as int] * 256 + s.ram[s.pc + 1]) as u16,
            pc: (s.pc + 2) as u16,
            ..s
        })
    }
}

/// One whole cycle from `pre` to `post` returning `r`, with `rng` as the byte `CXNN`
/// would draw. A failed fetch changes nothing; once the fetch is done its effect
/// stays, and a failed instruction changes nothing more.
pub open spec fn stepped(pre: MachineState, post: MachineState, r: Result<(), Chip8Error>, rng: u8) -> bool {
    match spec_fetch(pre) {
        Err(e) => r == Err::<(), Chip8Error>(e) && post == pre,
        Ok(t) => applied(t, post, r, spec_execute(t, rng)),
    }
}

/// Registers, timers, keypad and the memory they work on.
#[derive(Debug)]
pub struct Cpu {
    pub current_opcode: OpCode,
    /// General-purpose registers V0 to VF; VF doubles as the flag register.
    pub registers: [u8; 16],
    /// The index register I. It holds a full 16-bit value; an access through it
    /// beyond `0xFFF` fails with `OutOfBounds` rather than wrapping.
    pub index_register: u16,
    pub program_counter: u16,
    /// Return addresses; `stack[0..stack_pointer]` are live.
    pub stack: [u16; 16],
    pub stack_pointer: usize,
    pub delay_timer: u8,
    pub sound_timer: u8,
    /// Key states for the hex keys 0 to F, set by the host.
    pub keypad: [bool; 16],
    pub running: bool,
    pub memory: Memory,
}

impl View for Cpu {
    type V = MachineState;

    open spec fn view(&self) -> MachineState {
        MachineState {
            op: self.current_opcode.0,
            v: self.registers@,
            i: self.index_register,
            pc: self.program_counter,
            stack: self.stack@,
            sp: self.stack_pointer,
            delay: self.delay_timer,
            sound: self.sound_timer,
            keys: self.keypad@,
            running: self.running,
            ram: self.memory.ram@,
            screen: self.memory.gpu.screen@,
            rom: self.memory.rom@,
        }
    }
}

impl Cpu {
    /// A processor at reset around `memory`: registers, stack and timers zeroed,
    /// no key down, and the program counter at `0x200`.
    pub fn new(memory: Memory) -> (r: Self)
        ensures
            r@.op == 0,
            r@.v == Seq::new(16, |_k: int| 0u8),
            r@.i == 0,
            r@.pc == 0x200,
            r@.stack == Seq::new(16, |_k: int| 0u16),
            r@.sp == 0,
            r@.delay == 0,
            r@.sound == 0,
            r@.keys == Seq::new(16, |_k: int| false),
            !r@.running,
            r.memory == memory,
    {
        let r = Cpu {
            current_opcode: OpCode(0),
            registers: [0; 16],
            index_register: 0,
            program_counter: 0x200,
            stack: [0; 16],
            stack_pointer: 0,
            delay_timer: 0,
            sound_timer: 0,
            keypad: [false; 16],
            running: false,
            memory,
        };
        assert(r@.v =~= Seq::new(16, |_k: int| 0u8));
        assert(r@.stack =~= Seq::new(16, |_k: int| 0u16));
        assert(r@.keys =~= Seq::new(16, |_k: int| false));
        r
    }

    /// Whether key `index` (0 to 15) is down.
    pub fn is_key_pressed(&self, index: u8) -> (r: bool)
        ensures
            r == key_down(self.keypad@, index),
    {
        index < 16 && self.keypad[index as usize]
    }

    /// The lowest key index that is down, if any.
    pub fn any_pressed(&self) -> (r: Option<u8>)
        ensures
            r == lowest_pressed(self.keypad@),
            r matches Some(k) ==> k < 16 && self.keypad@[k as int],
            r is None ==> forall|k: int| 0 <= k < 16 ==> !self.keypad@[k],
    {
        let mut k: u8 = 0;
        while k < 16
            invariant
                k <= 16,
                lowest_pressed(self.keypad@) == lowest_pressed_from(self.keypad@, k as int),
                forall|j: int| 0 <= j < k ==> !self.keypad@[j],
            decreases 16 - k,
        {
            if self.keypad[k as usize] {
                return Some(k);
            }
            k = k + 1;
        }
        None
    }

    /// Decode the current opcode and run its instruction, with `rng` as the byte
    /// that `CXNN` masks.
    pub fn execute(&mut self, rng: u8) -> (r: Result<(), Chip8Error>)
        ensures
            applied(old(self)@, final(self)@, r, spec_execute(old(self)@, rng)),
    {
        match self.current_opcode.into_tuple() {
            (0, 0, 0xE, 0xE) => OpCode::_00ee(self),
            (0, 0, 0xE, 0) => {
                OpCode::_00e0(&mut self.memory.gpu);
                assert(self@ =~= spec_00e0(old(self)@));
                Ok(())
            },
            (0, _, _, _) => Ok(()),
            (1, _, _, _) => {
                OpCode::_1nnn(self);
                Ok(())
            },
            (2, _, _, _) => OpCode::_2nnn(self),
            (3, _, _, _) => {
                OpCode::_3xnn(self);
                Ok(())
            },
            (4, _, _, _) => {
                OpCode::_4xnn(self);
                Ok(())
            },
            (5, _, _, 0) => {
                OpCode::_5xy0(self);
                Ok(())
            },
            (6, _, _, _) => {
                OpCode::_6xnn(self);
                Ok(())
            },
            (7, _, _, _) => {
                OpCode::_7xnn(self);
                Ok(())
            },
            (8, _, _, 0) => {
                OpCode::_8xy0(self);
                Ok(())
            },
            (8, _, _, 1) => {
                OpCode::_8xy1(self);
                Ok(())
            },
            (8, _, _, 2) => {
                OpCode::_8xy2(self);
                Ok(())
            },
            (8, _, _, 3) => {
                OpCode::_8xy3(self);
                Ok(())
            },
            (8, _, _, 4) => {
                OpCode::_8xy4(self);
                Ok(())
            },
            (8, _, _, 5) => {
                OpCode::_8xy5(self);
                Ok(())
            },
            (8, _, _, 6) => {
                OpCode::_8xy6(self);
                Ok(())
            },
            (8, _, _, 7) => {
                OpCode::_8xy7(self);
                Ok(())
            },
            (8, _, _, 0xE) => {
                OpCode::_8xye(self);
                Ok(())
            },
            (9, _, _, 0) => {
                OpCode::_9xy0(self);
                Ok(())
            },
            (0xA, _, _, _) => {
                OpCode::annn(self);
                Ok(())
            },
            (0xB, _, _, _) => {
                OpCode::bnnn(self);
                Ok(())
            },
            (0xC, _, _, _) => {
                OpCode::cxnn_with(self, rng);
                Ok(())
            },
            (0xD, _, _, _) => OpCode::dxyn(self),
            (0xE, _, 9, 0xE) => {
                OpCode::ex9e(self);
                Ok(())
            },
            (0xE, _, 0xA, 1) => {
                OpCode::exa1(self);
                Ok(())
            },
            (0xF, _, 0, 7) => {
                OpCode::fx07(self);
                Ok(())
            },
            (0xF, _, 0, 0xA) => {
                OpCode::fx0a(self);
                Ok(())
            },
            (0xF, _, 1, 5) => {
                OpCode::fx15(self);
                Ok(())
            },
            (0xF, _, 1, 8) => {
                OpCode::fx18(self);
                Ok(())
            },
            (0xF, _, 1, 0xE) => {
                OpCode::fx1e(self);
                Ok(())
            },
            (0xF, _, 2, 9) => {
                OpCode::fx29(self);
                Ok(())
            },
            (0xF, _, 3, 3) => OpCode::fx33(self),
            (0xF, _, 5, 5) => OpCode::fx55(self),
            (0xF, _, 6, 5) => OpCode::fx65(self),
            _ => Err(Chip8Error::DecodeMiss(self.current_opcode.0)),
        }
    }

    /// Decode the current opcode and run its instruction; `CXNN` draws a random byte.
    pub fn process(&mut self) -> (r: Result<(), Chip8Error>)
        ensures
            exists|rng: u8| applied(old(self)@, final(self)@, r, spec_execute(old(self)@, rng)),
    {
        let rng = random_byte();
        self.execute(rng)
    }

    /// Read the opcode at the program counter into `current_opcode` and move the
    /// program counter past it.
    pub fn fetch_opcode(&mut self) -> (r: Result<(), Chip8Error>)
        ensures
            applied(old(self)@, final(self)@, r, spec_fetch(old(self)@)),
    {
        let pc = self.program_counter as usize;
        if pc + 2 > RAM_SIZE {
            return Err(Chip8Error::OutOfBounds);
        }
        let opcode_high: u8 = self.memory.ram[pc];
        let opcode_low: u8 = self.memory.ram[pc + 1];
        let opcode: u16 = opcode_high as u16 * 256 + opcode_low as u16;
        self.current_opcode = OpCode(opcode);
        self.program_counter = (pc + 2) as u16;
        Ok(())
    }

    /// One fetch-decode-execute cycle, with `rng` as the byte that `CXNN` masks.
    pub fn step_with(&mut self, rng: u8) -> (r: Result<(), Chip8Error>)
        ensures
            stepped(old(self)@, final(self)@, r, rng),
    {
        match self.fetch_opcode() {
            Err(e) => Err(e),
            Ok(()) => self.execute(rng),
        }
    }

    /// One fetch-decode-execute cycle. It never blocks: `FX0A` with no key down
    /// leaves the program counter on itself, and the host calls `step` again.
    pub fn step(&mut self) -> (r: Result<(), Chip8Error>)
        ensures
            exists|rng: u8| stepped(old(self)@, final(self)@, r, rng),
    {
        let rng = random_byte();
        self.step_with(rng)
    }

    /// One tick of the external 60 Hz clock: each timer above zero counts down by one.
    pub fn tick_timers(&mut self)
        ensures
            final(self)@ == (MachineState {
                delay: if old(self)@.delay > 0 { (old(self)@.delay - 1) as u8 } else { 0 },
                sound: if old(self)@.sound > 0 { (old(self)@.sound - 1) as u8 } else { 0 },
                ..old(self)@
            }),
    {
        if self.delay_timer > 0 {
            self.delay_timer = self.delay_timer - 1;
        }
        if self.sound_timer > 0 {
            self.sound_timer = self.sound_timer - 1;
        }
    }
}

} // verus!
