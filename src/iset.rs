//! The instruction set: one function per instruction form, each acting on the
//! opcode in `cpu.current_opcode`, each stated against a model on `MachineState`.
use crate::cpu::{applied, key_down, lowest_pressed, Chip8Error, Cpu, MachineState};
use crate::memory::RAM_SIZE;
use crate::opcode::{op_n, op_nn, op_nnn, op_x, op_y, Nibbles, OpCode};
use crate::gpu::{blank_screen, Gpu, SCREEN_HEIGHT, SCREEN_WIDTH};
use vstd::prelude::*;

verus! {

/// Register VX of the current opcode.
pub open spec fn vx(s: MachineState) -> u8 {
    s.v[op_x(s.op) as int]
}

/// Register VY of the current opcode.
pub open spec fn vy(s: MachineState) -> u8 {
    s.v[op_y(s.op) as int]
}

/// `s` with register `x` set to `val`.
pub open spec fn with_v(s: MachineState, x: int, val: u8) -> MachineState {
    MachineState { v: s.v.update(x, val), ..s }
}

/// Bit `col` of a sprite row, counting from the most significant bit.
pub open spec fn sprite_bit(byte: u8, col: int) -> bool {
    (byte >> ((7 - col) as u8)) & 1u8 == 1u8
}

/// Whether screen cell `p` lies under an 8-wide, `n`-high sprite placed at `(x0, y0)`.
/// Cells past the right or bottom edge do not exist: the sprite is clipped there.
pub open spec fn sprite_covers(x0: int, y0: int, n: int, p: int) -> bool {
    x0 <= p % 64 < x0 + 8 && y0 <= p / 64 < y0 + n
}

/// Whether the sprite whose rows start at `ram[i]` has a set bit over screen cell `p`.
pub open spec fn sprite_pixel(ram: Seq<u8>, i: int, x0: int, y0: int, n: int, p: int) -> bool {
    sprite_covers(x0, y0, n, p) && sprite_bit(ram[i + p / 64 - y0], p % 64 - x0)
}

/// The screen after XOR-ing the sprite onto it.
pub open spec fn drawn_screen(
    screen: Seq<bool>,
    ram: Seq<u8>,
    i: int,
    x0: int,
    y0: int,
    n: int,
) -> Seq<bool> {
    Seq::new(2048, |p: int| screen[p] != sprite_pixel(ram, i, x0, y0, n, p))
}

/// Whether drawing the sprite turns some set pixel off.
pub open spec fn collides(screen: Seq<bool>, ram: Seq<u8>, i: int, x0: int, y0: int, n: int) -> bool {
    exists|p: int| 0 <= p < 2048 && #[trigger] screen[p] && sprite_pixel(ram, i, x0, y0, n, p)
}

/// `DXYN`: draw `N` sprite rows read from `I` at `(VX, VY)`; VF := 1 iff a set pixel was erased.
pub open spec fn spec_dxyn(s: MachineState) -> Result<MachineState, Chip8Error> {
    let n = op_n(s.op) as int;
    let x0 = vx(s) as int;
    let y0 = vy(s) as int;
    if s.i + n > 4096 {
        Err(Chip8Error::OutOfBounds)
    } else {
        Ok(MachineState {
            screen: drawn_screen(s.screen, s.ram, s.i as int, x0, y0, n),
            v: s.v.update(15, if collides(s.screen, s.ram, s.i as int, x0, y0, n) { 1u8 } else { 0u8 }),
            ..s
        })
    }
}

/// `s` with the program counter moved past the next instruction.
pub open spec fn skipped(s: MachineState) -> MachineState {
    MachineState { pc: ((s.pc + 2) % 65536) as u16, ..s }
}

/// `s` with the program counter moved past the next instruction when `cond` holds.
pub open spec fn skip_if(s: MachineState, cond: bool) -> MachineState {
    if cond {
        skipped(s)
    } else {
        s
    }
}

/// `00E0`: every pixel unset.
pub open spec fn spec_00e0(s: MachineState) -> MachineState {
    MachineState { screen: blank_screen(), ..s }
}

/// `00EE`: pop the return address into the program counter.
pub open spec fn spec_00ee(s: MachineState) -> Result<MachineState, Chip8Error> {
    if s.sp == 0 {
        Err(Chip8Error::StackUnderflow)
    } else if s.sp > 16 {
        Err(Chip8Error::OutOfBounds)
    } else {
        Ok(MachineState { pc: s.stack[s.sp - 1], sp: (s.sp - 1) as usize, ..s })
    }
}

/// `1NNN`: jump to `NNN`.
pub open spec fn spec_1nnn(s: MachineState) -> MachineState {
    MachineState { pc: op_nnn(s.op), ..s }
}

/// `2NNN`: push the program counter and jump to `NNN`.
pub open spec fn spec_2nnn(s: MachineState) -> Result<MachineState, Chip8Error> {
    if s.sp >= 16 {
        Err(Chip8Error::StackOverflow)
    } else {
        Ok(MachineState {
            stack: s.stack.update(s.sp as int, s.pc),
            sp: (s.sp + 1) as usize,
            pc: op_nnn(s.op),
            ..s
        })
    }
}

/// `3XNN`: skip when VX == NN.
pub open spec fn spec_3xnn(s: MachineState) -> MachineState {
    skip_if(s, vx(s) == op_nn(s.op))
}

/// `4XNN`: skip when VX != NN.
pub open spec fn spec_4xnn(s: MachineState) -> MachineState {
    skip_if(s, vx(s) != op_nn(s.op))
}

/// `5XY0`: skip when VX == VY.
pub open spec fn spec_5xy0(s: MachineState) -> MachineState {
    skip_if(s, vx(s) == vy(s))
}

/// `9XY0`: skip when VX != VY.
pub open spec fn spec_9xy0(s: MachineState) -> MachineState {
    skip_if(s, vx(s) != vy(s))
}

/// `6XNN`: VX := NN.
pub open spec fn spec_6xnn(s: MachineState) -> MachineState {
    with_v(s, op_x(s.op) as int, op_nn(s.op))
}

/// `7XNN`: VX := VX + NN modulo 256; VF is not touched.
pub open spec fn spec_7xnn(s: MachineState) -> MachineState {
    with_v(s, op_x(s.op) as int, ((vx(s) + op_nn(s.op)) % 256) as u8)
}

/// `8XY0`: VX := VY.
pub open spec fn spec_8xy0(s: MachineState) -> MachineState {
    with_v(s, op_x(s.op) as int, vy(s))
}

/// `8XY1`: VX := VX | VY.
pub open spec fn spec_8xy1(s: MachineState) -> MachineState {
    with_v(s, op_x(s.op) as int, vx(s) | vy(s))
}

/// `8XY2`: VX := VX & VY.
pub open spec fn spec_8xy2(s: MachineState) -> MachineState {
    with_v(s, op_x(s.op) as int, vx(s) & vy(s))
}

/// `8XY3`: VX := VX ^ VY.
pub open spec fn spec_8xy3(s: MachineState) -> MachineState {
    with_v(s, op_x(s.op) as int, vx(s) ^ vy(s))
}

/// `8XY4`: VX := VX + VY modulo 256, then VF := 1 on a carry out of eight bits, else 0.
pub open spec fn spec_8xy4(s: MachineState) -> MachineState {
    let sum = vx(s) + vy(s);
    with_v(
        with_v(s, op_x(s.op) as int, (sum % 256) as u8),
        15,
        if sum > 255 { 1u8 } else { 0u8 },
    )
}

/// `8XY5`: VX := VX - VY modulo 256, then VF := 1 when no borrow occurred (VX >= VY), else 0.
pub open spec fn spec_8xy5(s: MachineState) -> MachineState {
    with_v(
        with_v(s, op_x(s.op) as int, ((vx(s) - vy(s) + 256) % 256) as u8),
        15,
        if vx(s) >= vy(s) { 1u8 } else { 0u8 },
    )
}

/// `8XY6`: VF := the low bit of VY, then VX := VY shifted right by one.
pub open spec fn spec_8xy6(s: MachineState) -> MachineState {
    with_v(with_v(s, 15, vy(s) % 2), op_x(s.op) as int, vy(s) / 2)
}

/// `8XY7`: VX := VY - VX modulo 256, then VF := 1 when no borrow occurred (VY >= VX), else 0.
pub open spec fn spec_8xy7(s: MachineState) -> MachineState {
    with_v(
        with_v(s, op_x(s.op) as int, ((vy(s) - vx(s) + 256) % 256) as u8),
        15,
        if vy(s) >= vx(s) { 1u8 } else { 0u8 },
    )
}

/// `8XYE`: VF := the high bit of VY, then VX := VY shifted left by one, modulo 256.
pub open spec fn spec_8xye(s: MachineState) -> MachineState {
    with_v(with_v(s, 15, vy(s) / 128), op_x(s.op) as int, ((vy(s) * 2) % 256) as u8)
}

/// `ANNN`: I := NNN.
pub open spec fn spec_annn(s: MachineState) -> MachineState {
    MachineState { i: op_nnn(s.op), ..s }
}

/// `BNNN`: jump to NNN + V0.
pub open spec fn spec_bnnn(s: MachineState) -> MachineState {
    MachineState { pc: (op_nnn(s.op) + s.v[0]) as u16, ..s }
}

/// `CXNN` with the drawn byte `r`: VX := r & NN.
pub open spec fn spec_cxnn(s: MachineState, r: u8) -> MachineState {
    with_v(s, op_x(s.op) as int, r & op_nn(s.op))
}

/// `EX9E`: skip when the key named by VX is down.
pub open spec fn spec_ex9e(s: MachineState) -> MachineState {
    skip_if(s, key_down(s.keys, vx(s)))
}

/// `EXA1`: skip when the key named by VX is up.
pub open spec fn spec_exa1(s: MachineState) -> MachineState {
    skip_if(s, !key_down(s.keys, vx(s)))
}

/// `FX07`: VX := delay timer.
pub open spec fn spec_fx07(s: MachineState) -> MachineState {
    with_v(s, op_x(s.op) as int, s.delay)
}

/// `FX0A`: VX := the lowest key index that is down; with no key down, the program
/// counter steps back onto this instruction so that the next cycle waits again.
pub open spec fn spec_fx0a(s: MachineState) -> MachineState {
    match lowest_pressed(s.keys) {
        Some(k) => with_v(s, op_x(s.op) as int, k),
        None => MachineState { pc: ((s.pc + 65534) % 65536) as u16, ..s },
    }
}

/// `FX15`: delay timer := VX.
pub open spec fn spec_fx15(s: MachineState) -> MachineState {
    MachineState { delay: vx(s), ..s }
}

/// `FX18`: sound timer := VX.
pub open spec fn spec_fx18(s: MachineState) -> MachineState {
    MachineState { sound: vx(s), ..s }
}

/// `FX1E`: I := I + VX modulo 65536; VF is not touched.
pub open spec fn spec_fx1e(s: MachineState) -> MachineState {
    MachineState { i: ((s.i + vx(s)) % 65536) as u16, ..s }
}

/// `FX29`: I := address of the font glyph for the low nibble of VX.
pub open spec fn spec_fx29(s: MachineState) -> MachineState {
    MachineState { i: ((vx(s) % 16) * 5) as u16, ..s }
}

/// The decimal digits of `v`: hundreds, tens, ones.
pub open spec fn bcd_digits(v: u8) -> Seq<u8> {
    seq![(v / 100) as u8, ((v / 10) % 10) as u8, (v % 10) as u8]
}

/// `FX33`: the decimal digits of VX at I, I+1, I+2.
pub open spec fn spec_fx33(s: MachineState) -> Result<MachineState, Chip8Error> {
    let d = bcd_digits(vx(s));
    if s.i + 3 > 4096 {
        Err(Chip8Error::OutOfBounds)
    } else {
        Ok(MachineState {
            ram: s.ram.update(s.i as int, d[0]).update(s.i + 1, d[1]).update(s.i + 2, d[2]),
            ..s
        })
    }
}

/// `FX55`: V0..=VX to memory at I..=I+X, then I := I + X + 1.
pub open spec fn spec_fx55(s: MachineState) -> Result<MachineState, Chip8Error> {
    let x = op_x(s.op) as int;
    if s.i + x + 1 > 4096 {
        Err(Chip8Error::OutOfBounds)
    } else {
        Ok(MachineState {
            ram: Seq::new(
                s.ram.len(),
                |a: int|
                    if s.i <= a <= s.i + x {
                        s.v[a - s.i]
                    } else {
                        s.ram[a]
                    },
            ),
            i: (s.i + x + 1) as u16,
            ..s
        })
    }
}

/// `FX65`: memory at I..=I+X to V0..=VX, then I := I + X + 1.
pub open spec fn spec_fx65(s: MachineState) -> Result<MachineState, Chip8Error> {
    let x = op_x(s.op) as int;
    if s.i + x + 1 > 4096 {
        Err(Chip8Error::OutOfBounds)
    } else {
        Ok(MachineState {
            v: Seq::new(
                s.v.len(),
                |r: int|
                    if r <= x {
                        s.ram[s.i + r]
                    } else {
                        s.v[r]
                    },
            ),
            i: (s.i + x + 1) as u16,
            ..s
        })
    }
}

/// Cells visited before row `line`, column `c` in row-major order.
pub open spec fn visited(p: int, line: int, c: int) -> bool {
    p / 64 < line || (p / 64 == line && p % 64 < c)
}

impl OpCode {
    /// Returns the current opcode's second nibble, the register index X.
    pub fn get_x(cpu: &Cpu) -> (r: u8)
        ensures
            r == op_x(cpu.current_opcode.0),
            r < 16,
    {
        cpu.current_opcode.into_tuple().1
    }

    /// Returns the current opcode's third nibble, the register index Y.
    pub fn get_y(cpu: &Cpu) -> (r: u8)
        ensures
            r == op_y(cpu.current_opcode.0),
            r < 16,
    {
        cpu.current_opcode.into_tuple().2
    }

    /// Fill registers V0 to VX inclusive from memory starting at I, then set I = I + X + 1.
    pub fn fx65(cpu: &mut Cpu) -> (r: Result<(), Chip8Error>)
        ensures
            applied(old(cpu)@, final(cpu)@, r, spec_fx65(old(cpu)@)),
    {
        let num_registers = OpCode::get_x(cpu);
        let start = cpu.index_register as usize;
        if start + (num_registers as usize) + 1 > RAM_SIZE {
            return Err(Chip8Error::OutOfBounds);
        }
        let ghost pre = cpu@;
        let mut x: u8 = 0;
        while x <= num_registers
            invariant
                num_registers < 16,
                x <= num_registers + 1,
                start == pre.i,
                start + num_registers + 1 <= 4096,
                pre == old(cpu)@,
                cpu@ == (MachineState { v: cpu@.v, ..pre }),
                cpu@.v.len() == 16,
                forall|r: int| 0 <= r < 16 ==> #[trigger] cpu@.v[r] == if r < x {
                    pre.ram[start + r]
                } else {
                    pre.v[r]
                },
            decreases num_registers + 1 - x,
        {
            cpu.registers[x as usize] = cpu.memory.ram[start + x as usize];
            x = x + 1;
        }
        cpu.index_register = (start + num_registers as usize + 1) as u16;
        assert(cpu@ =~= spec_fx65(pre)->Ok_0);
        Ok(())
    }

    /// Store registers V0 to VX inclusive in memory starting at address I, then set
    /// I = I + X + 1.
    pub fn fx55(cpu: &mut Cpu) -> (r: Result<(), Chip8Error>)
        ensures
            applied(old(cpu)@, final(cpu)@, r, spec_fx55(old(cpu)@)),
    {
        let num_registers = OpCode::get_x(cpu);
        let start = cpu.index_register as usize;
        if start + (num_registers as usize) + 1 > RAM_SIZE {
            return Err(Chip8Error::OutOfBounds);
        }
        let ghost pre = cpu@;
        let mut x: u8 = 0;
        while x <= num_registers
            invariant
                num_registers < 16,
                x <= num_registers + 1,
                start == pre.i,
                start + num_registers + 1 <= 4096,
                pre == old(cpu)@,
                cpu@ == (MachineState { ram: cpu@.ram, ..pre }),
                cpu@.ram.len() == 4096,
                forall|a: int| 0 <= a < 4096 ==> #[trigger] cpu@.ram[a] == if start <= a < start + x {
                    pre.v[a - start]
                } else {
                    pre.ram[a]
                },
            decreases num_registers + 1 - x,
        {
            cpu.memory.ram[start + x as usize] = cpu.registers[x as usize];
            x = x + 1;
        }
        cpu.index_register = (start + num_registers as usize + 1) as u16;
        assert(cpu@ =~= spec_fx55(pre)->Ok_0);
        Ok(())
    }

    /// Store the binary-coded decimal form of VX: hundreds digit at I, tens at I+1,
    /// ones at I+2.
    pub fn fx33(cpu: &mut Cpu) -> (r: Result<(), Chip8Error>)
        ensures
            applied(old(cpu)@, final(cpu)@, r, spec_fx33(old(cpu)@)),
    {
        let x = OpCode::get_x(cpu);
        let register = cpu.registers[x as usize];
        let index = cpu.index_register as usize;
        if index + 3 > RAM_SIZE {
            return Err(Chip8Error::OutOfBounds);
        }
        cpu.memory.ram[index] = register / 100;
        cpu.memory.ram[index + 1] = (register / 10) % 10;
        cpu.memory.ram[index + 2] = register % 10;
        assert(cpu@ =~= spec_fx33(old(cpu)@)->Ok_0);
        Ok(())
    }

    /// Set I to the address of the font glyph for the hex digit in VX's low nibble.
    pub fn fx29(cpu: &mut Cpu)
        ensures
            final(cpu)@ == spec_fx29(old(cpu)@),
    {
        let x = OpCode::get_x(cpu);
        let vx = cpu.registers[x as usize];
        cpu.index_register = ((vx % 16) as u16) * 5;
    }

    /// Set I = I + VX, wrapping at 16 bits.
    pub fn fx1e(cpu: &mut Cpu)
        ensures
            final(cpu)@ == spec_fx1e(old(cpu)@),
    {
        let x = OpCode::get_x(cpu);
        let vx = cpu.registers[x as usize];
        cpu.index_register = cpu.index_register.wrapping_add(vx as u16);
    }

    /// Set the sound timer to the value of VX.
    pub fn fx18(cpu: &mut Cpu)
        ensures
            final(cpu)@ == spec_fx18(old(cpu)@),
    {
        let x = OpCode::get_x(cpu);
        cpu.sound_timer = cpu.registers[x as usize];
    }

    /// Set the delay timer to the value of VX.
    pub fn fx15(cpu: &mut Cpu)
        ensures
            final(cpu)@ == spec_fx15(old(cpu)@),
    {
        let x = OpCode::get_x(cpu);
        cpu.delay_timer = cpu.registers[x as usize];
    }

    /// Wait for a key press and store its index in VX. The wait does not block: with
    /// no key down the program counter steps back two bytes, so the next cycle runs
    /// this instruction again. Returns whether a key was taken.
    pub fn fx0a(cpu: &mut Cpu) -> (r: bool)
        ensures
            final(cpu)@ == spec_fx0a(old(cpu)@),
            r == (lowest_pressed(old(cpu)@.keys) is Some),
    {
        let x = OpCode::get_x(cpu);
        match cpu.any_pressed() {
            Some(k) => {
                cpu.registers[x as usize] = k;
                true
            },
            None => {
                cpu.program_counter = cpu.program_counter.wrapping_sub(2);
                false
            },
        }
    }

    /// Store the current value of the delay timer in VX.
    pub fn fx07(cpu: &mut Cpu)
        ensures
            final(cpu)@ == spec_fx07(old(cpu)@),
    {
        let delay_timer = cpu.delay_timer;
        let x = OpCode::get_x(cpu);
        cpu.registers[x as usize] = delay_timer;
    }

    /// Skip the following instruction if the key named by VX is not pressed.
    pub fn exa1(cpu: &mut Cpu)
        ensures
            final(cpu)@ == spec_exa1(old(cpu)@),
    {
        let x = OpCode::get_x(cpu);
        let vx = cpu.registers[x as usize];
        if !cpu.is_key_pressed(vx) {
            cpu.program_counter = cpu.program_counter.wrapping_add(2);
        }
    }

    /// Skip the following instruction if the key named by VX is pressed.
    pub fn ex9e(cpu: &mut Cpu)
        ensures
            final(cpu)@ == spec_ex9e(old(cpu)@),
    {
        let x = OpCode::get_x(cpu);
        let vx = cpu.registers[x as usize];
        if cpu.is_key_pressed(vx) {
            cpu.program_counter = cpu.program_counter.wrapping_add(2);
        }
    }

    /// Set VX to the byte `rng` masked with NN.
    pub fn cxnn_with(cpu: &mut Cpu, rng: u8)
        ensures
            final(cpu)@ == spec_cxnn(old(cpu)@, rng),
    {
        let x = OpCode::get_x(cpu);
        let mask = cpu.current_opcode.nn();
        cpu.registers[x as usize] = rng & mask;
    }

    /// Set VX to a random byte masked with NN.
    pub fn cxnn(cpu: &mut Cpu)
        ensures
            exists|rng: u8| final(cpu)@ == spec_cxnn(old(cpu)@, rng),
    {
        let rng = random_byte();
        OpCode::cxnn_with(cpu, rng);
    }

    /// Jump to address NNN + V0.
    pub fn bnnn(cpu: &mut Cpu)
        ensures
            final(cpu)@ == spec_bnnn(old(cpu)@),
    {
        let address = cpu.current_opcode.nnn();
        cpu.program_counter = address + cpu.registers[0] as u16;
    }

    /// Store memory address NNN in register I.
    pub fn annn(cpu: &mut Cpu)
        ensures
            final(cpu)@ == spec_annn(old(cpu)@),
    {
        cpu.index_register = cpu.current_opcode.nnn();
    }

    /// Skip the following instruction if VX is not equal to VY.
    pub fn _9xy0(cpu: &mut Cpu)
        ensures
            final(cpu)@ == spec_9xy0(old(cpu)@),
    {
        let x = OpCode::get_x(cpu);
        let y = OpCode::get_y(cpu);
        if cpu.registers[x as usize] != cpu.registers[y as usize] {
            cpu.program_counter = cpu.program_counter.wrapping_add(2);
        }
    }

    /// Store VY shifted left one bit in VX; VF is first set to VY's most significant bit.
    pub fn _8xye(cpu: &mut Cpu)
        ensures
            final(cpu)@ == spec_8xye(old(cpu)@),
    {
        let x = OpCode::get_x(cpu);
        let y = OpCode::get_y(cpu);
        let vy = cpu.registers[y as usize];
        let msb_vy = vy / 128;
        cpu.registers[15] = msb_vy;
        cpu.registers[x as usize] = ((vy as u16 * 2) % 256) as u8;
    }

    /// Set VX to VY minus VX; VF becomes 0 if a borrow occurs and 1 if not.
    pub fn _8xy7(cpu: &mut Cpu)
        ensures
            final(cpu)@ == spec_8xy7(old(cpu)@),
    {
        let x = OpCode::get_x(cpu);
        let y = OpCode::get_y(cpu);
        let vx = cpu.registers[x as usize];
        let vy = cpu.registers[y as usize];
        let diff = vy.wrapping_sub(vx);
        let borrow = vy < vx;
        cpu.registers[x as usize] = diff;
        cpu.registers[15] = if borrow { 0 } else { 1 };
    }

    /// Store VY shifted right one bit in VX; VF is first set to VY's least significant bit.
    pub fn _8xy6(cpu: &mut Cpu)
        ensures
            final(cpu)@ == spec_8xy6(old(cpu)@),
    {
        let x = OpCode::get_x(cpu);
        let y = OpCode::get_y(cpu);
        let vy = cpu.registers[y as usize];
        let lsb_vy = vy % 2;
        cpu.registers[15] = lsb_vy;
        cpu.registers[x as usize] = vy / 2;
    }

    /// Subtract VY from VX; VF becomes 0 if a borrow occurs and 1 if not.
    pub fn _8xy5(cpu: &mut Cpu)
        ensures
            final(cpu)@ == spec_8xy5(old(cpu)@),
    {
        let x = OpCode::get_x(cpu);
        let y = OpCode::get_y(cpu);
        let vx = cpu.registers[x as usize];
        let vy = cpu.registers[y as usize];
        let diff = vx.wrapping_sub(vy);
        let borrow = vx < vy;
        cpu.registers[x as usize] = diff;
        cpu.registers[15] = if borrow { 0 } else { 1 };
    }

    /// Add VY to VX; VF becomes 1 if a carry occurs and 0 if not.
    pub fn _8xy4(cpu: &mut Cpu)
        ensures
            final(cpu)@ == spec_8xy4(old(cpu)@),
    {
        let x = OpCode::get_x(cpu);
        let y = OpCode::get_y(cpu);
        let vx = cpu.registers[x as usize];
        let vy = cpu.registers[y as usize];
        let sum = vx.wrapping_add(vy);
        let carry = vx as u16 + vy as u16 > 255;
        cpu.registers[x as usize] = sum;
        cpu.registers[15] = carry as u8;
    }

    /// Set VX to VX XOR VY.
    pub fn _8xy3(cpu: &mut Cpu)
        ensures
            final(cpu)@ == spec_8xy3(old(cpu)@),
    {
        let x = OpCode::get_x(cpu);
        let y = OpCode::get_y(cpu);
        let vx = cpu.registers[x as usize];
        let vy = cpu.registers[y as usize];
        cpu.registers[x as usize] = vx ^ vy;
    }

    /// Set VX to VX AND VY.
    pub fn _8xy2(cpu: &mut Cpu)
        ensures
            final(cpu)@ == spec_8xy2(old(cpu)@),
    {
        let x = OpCode::get_x(cpu);
        let y = OpCode::get_y(cpu);
        let vx = cpu.registers[x as usize];
        let vy = cpu.registers[y as usize];
        cpu.registers[x as usize] = vx & vy;
    }

    /// Set VX to VX OR VY.
    pub fn _8xy1(cpu: &mut Cpu)
        ensures
            final(cpu)@ == spec_8xy1(old(cpu)@),
    {
        let x = OpCode::get_x(cpu);
        let y = OpCode::get_y(cpu);
        let vx = cpu.registers[x as usize];
        let vy = cpu.registers[y as usize];
        cpu.registers[x as usize] = vx | vy;
    }

    /// Store the value of VY in VX.
    pub fn _8xy0(cpu: &mut Cpu)
        ensures
            final(cpu)@ == spec_8xy0(old(cpu)@),
    {
        let x = OpCode::get_x(cpu);
        let y = OpCode::get_y(cpu);
        cpu.registers[x as usize] = cpu.registers[y as usize];
    }

    /// Add NN to VX, wrapping at eight bits; VF is not touched.
    pub fn _7xnn(cpu: &mut Cpu)
        ensures
            final(cpu)@ == spec_7xnn(old(cpu)@),
    {
        let x = OpCode::get_x(cpu);
        let value = cpu.current_opcode.nn();
        cpu.registers[x as usize] = cpu.registers[x as usize].wrapping_add(value);
    }

    /// Store NN in VX.
    pub fn _6xnn(cpu: &mut Cpu)
        ensures
            final(cpu)@ == spec_6xnn(old(cpu)@),
    {
        let x = OpCode::get_x(cpu);
        cpu.registers[x as usize] = cpu.current_opcode.nn();
    }

    /// Skip the following instruction if VX equals VY.
    pub fn _5xy0(cpu: &mut Cpu)
        ensures
            final(cpu)@ == spec_5xy0(old(cpu)@),
    {
        let x = OpCode::get_x(cpu);
        let y = OpCode::get_y(cpu);
        if cpu.registers[x as usize] == cpu.registers[y as usize] {
            cpu.program_counter = cpu.program_counter.wrapping_add(2);
        }
    }

    /// Skip the following instruction if VX is not equal to NN.
    pub fn _4xnn(cpu: &mut Cpu)
        ensures
            final(cpu)@ == spec_4xnn(old(cpu)@),
    {
        let x = OpCode::get_x(cpu);
        if cpu.registers[x as usize] != cpu.current_opcode.nn() {
            cpu.program_counter = cpu.program_counter.wrapping_add(2);
        }
    }

    /// Skip the following instruction if VX equals NN.
    pub fn _3xnn(cpu: &mut Cpu)
        ensures
            final(cpu)@ == spec_3xnn(old(cpu)@),
    {
        let x = OpCode::get_x(cpu);
        if cpu.registers[x as usize] == cpu.current_opcode.nn() {
            cpu.program_counter = cpu.program_counter.wrapping_add(2);
        }
    }

    /// Call the subroutine at NNN: push the program counter, then jump.
    pub fn _2nnn(cpu: &mut Cpu) -> (r: Result<(), Chip8Error>)
        ensures
            applied(old(cpu)@, final(cpu)@, r, spec_2nnn(old(cpu)@)),
    {
        let sp = cpu.stack_pointer;
        if sp >= 16 {
            return Err(Chip8Error::StackOverflow);
        }
        cpu.stack[sp] = cpu.program_counter;
        cpu.stack_pointer = sp + 1;
        cpu.program_counter = cpu.current_opcode.nnn();
        assert(cpu@ =~= spec_2nnn(old(cpu)@)->Ok_0);
        Ok(())
    }

    /// Jump to address NNN.
    pub fn _1nnn(cpu: &mut Cpu)
        ensures
            final(cpu)@ == spec_1nnn(old(cpu)@),
    {
        cpu.program_counter = cpu.current_opcode.nnn();
    }

    /// Clear the screen.
    pub fn _00e0(gpu: &mut Gpu)
        ensures
            final(gpu).screen@ == blank_screen(),
    {
        gpu.screen = [false; 2048];
        assert(gpu.screen@ =~= blank_screen());
    }

    /// Return from a subroutine: pop the return address into the program counter.
    pub fn _00ee(cpu: &mut Cpu) -> (r: Result<(), Chip8Error>)
        ensures
            applied(old(cpu)@, final(cpu)@, r, spec_00ee(old(cpu)@)),
    {
        let sp = cpu.stack_pointer;
        if sp == 0 {
            return Err(Chip8Error::StackUnderflow);
        }
        if sp > 16 {
            return Err(Chip8Error::OutOfBounds);
        }
        cpu.program_counter = cpu.stack[sp - 1];
        cpu.stack_pointer = sp - 1;
        Ok(())
    }
}

/// Relies on `rand::random::<u8>`: a byte from the thread-local generator, of which
/// nothing is promised.
#[verifier::external_body]
pub(crate) fn random_byte() -> u8 {
    rand::random::<u8>()
}

impl OpCode {
    /// Draw a sprite at position VX, VY with N bytes of sprite data starting at the
    /// address stored in I. Set VF to 01 if any set pixels are changed to unset, and 00
    /// otherwise. Pixels that would fall past the screen's edge are not drawn.
    pub fn dxyn(cpu: &mut Cpu) -> (r: Result<(), Chip8Error>)
        ensures
            applied(old(cpu)@, final(cpu)@, r, spec_dxyn(old(cpu)@)),
    {
        let (_, x, y, n) = cpu.current_opcode.into_tuple();
        let start = cpu.index_register as usize;
        if start + (n as usize) > RAM_SIZE {
            return Err(Chip8Error::OutOfBounds);
        }
        let x0 = cpu.registers[x as usize] as usize;
        let y0 = cpu.registers[y as usize] as usize;
        let ghost pre = cpu@;
        let ghost (i, gx, gy, gn) = (start as int, x0 as int, y0 as int, n as int);
        let mut collided = false;
        let mut row: usize = 0;
        while row < n as usize
            invariant
                n < 16,
                row <= n,
                start + n <= 4096,
                pre == old(cpu)@,
                i == start,
                gx == x0,
                gy == y0,
                gn == n,
                x0 < 256,
                y0 < 256,
                cpu@ == (MachineState { screen: cpu@.screen, ..pre }),
                cpu@.screen.len() == 2048,
                forall|p: int|
                    0 <= p < 2048 ==> #[trigger] cpu@.screen[p] == (pre.screen[p] != (
                    sprite_pixel(pre.ram, i, gx, gy, gn, p) && visited(p, y0 + row, 0))),
                collided <==> exists|p: int|
                    0 <= p < 2048 && #[trigger] pre.screen[p] && sprite_pixel(
                        pre.ram,
                        i,
                        gx,
                        gy,
                        gn,
                        p,
                    ) && visited(p, y0 + row, 0),
            decreases n - row,
        {
            let line = y0 + row;
            if line < SCREEN_HEIGHT {
                let byte = cpu.memory.ram[start + row];
                let mut col: usize = 0;
                while col < 8
                    invariant
                        n < 16,
                        row < n,
                        col <= 8,
                        start + n <= 4096,
                        pre == old(cpu)@,
                        i == start,
                        gx == x0,
                        gy == y0,
                        gn == n,
                        x0 < 256,
                        y0 < 256,
                        line == y0 + row,
                        line < 32,
                        byte == pre.ram[start + row],
                        cpu@ == (MachineState { screen: cpu@.screen, ..pre }),
                        cpu@.screen.len() == 2048,
                        forall|p: int|
                            0 <= p < 2048 ==> #[trigger] cpu@.screen[p] == (pre.screen[p] != (
                            sprite_pixel(pre.ram, i, gx, gy, gn, p) && visited(p, line as int, x0 + col))),
                        collided <==> exists|p: int|
                            0 <= p < 2048 && #[trigger] pre.screen[p] && sprite_pixel(
                                pre.ram,
                                i,
                                gx,
                                gy,
                                gn,
                                p,
                            ) && visited(p, line as int, x0 + col),
                    decreases 8 - col,
                {
                    let c = x0 + col;
                    if c < SCREEN_WIDTH {
                        let p = line * SCREEN_WIDTH + c;
                        assert(p / 64 == line && p % 64 == c);
                        let bit = (byte >> ((7 - col) as u8)) & 1u8 == 1u8;
                        assert(bit == sprite_bit(pre.ram[i + p / 64 - gy], p % 64 - gx));
                        if bit {
                            if cpu.memory.gpu.screen[p] {
                                collided = true;
                            }
                            cpu.memory.gpu.screen[p] = !cpu.memory.gpu.screen[p];
                        }
                    }
                    col = col + 1;
                }
            }
            row = row + 1;
        }
        cpu.registers[15] = if collided { 1 } else { 0 };
        assert(cpu@.screen =~= drawn_screen(pre.screen, pre.ram, i, gx, gy, gn));
        assert(cpu@ =~= (MachineState {
            screen: drawn_screen(pre.screen, pre.ram, i, gx, gy, gn),
            v: pre.v.update(15, if collides(pre.screen, pre.ram, i, gx, gy, gn) { 1u8 } else { 0u8 }),
            ..pre
        }));
        Ok(())
    }
}

} // verus!
