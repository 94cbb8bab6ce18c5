//! Properties of the instruction set that hold for every machine state, proved
//! against the model that `Cpu::execute` and `Cpu::step` are verified to follow.
use crate::cpu::{spec_execute, Chip8Error, MachineState};
use crate::iset::{sprite_covers, sprite_pixel, vx, vy};
use crate::opcode::{nibbles_of, op_n, op_nn, op_x, op_y};
use vstd::prelude::*;

verus! {

/// The sequences of a state have the lengths of the machine they describe.
pub open spec fn well_formed(s: MachineState) -> bool {
    &&& s.v.len() == 16
    &&& s.stack.len() == 16
    &&& s.keys.len() == 16
    &&& s.ram.len() == 4096
    &&& s.screen.len() == 2048
}

/// After `6XNN`, register VX reads back `NN`; no other register changes.
pub proof fn lemma_load_immediate(s: MachineState, rng: u8)
    requires
        well_formed(s),
        nibbles_of(s.op).0 == 6,
    ensures
        spec_execute(s, rng) is Ok,
        spec_execute(s, rng)->Ok_0.v[op_x(s.op) as int] == op_nn(s.op),
        forall|r: int|
            0 <= r < 16 && r != op_x(s.op) ==> #[trigger] spec_execute(s, rng)->Ok_0.v[r] == s.v[r],
{
}

/// `8XY4` with VX = a and VY = b leaves (a + b) mod 256 in VX and sets VF to 1 exactly
/// when a + b exceeds 255, to 0 otherwise. (With X = F the flag overwrites the sum.)
pub proof fn lemma_add_carry(s: MachineState, rng: u8)
    requires
        well_formed(s),
        nibbles_of(s.op).0 == 8,
        nibbles_of(s.op).3 == 4,
        op_x(s.op) != 15,
    ensures
        spec_execute(s, rng) is Ok,
        spec_execute(s, rng)->Ok_0.v[op_x(s.op) as int] == (vx(s) + vy(s)) % 256,
        spec_execute(s, rng)->Ok_0.v[15] == 1 <==> vx(s) + vy(s) > 255,
        spec_execute(s, rng)->Ok_0.v[15] == 0 <==> vx(s) + vy(s) <= 255,
{
}

/// `8XY5` with VX = a and VY = b sets VF to 1 exactly when a >= b (no borrow) and to 0
/// exactly when a < b.
pub proof fn lemma_sub_borrow(s: MachineState, rng: u8)
    requires
        well_formed(s),
        nibbles_of(s.op).0 == 8,
        nibbles_of(s.op).3 == 5,
    ensures
        spec_execute(s, rng) is Ok,
        spec_execute(s, rng)->Ok_0.v[15] == 1 <==> vx(s) >= vy(s),
        spec_execute(s, rng)->Ok_0.v[15] == 0 <==> vx(s) < vy(s),
{
}

/// `FX33` stores three decimal digits at I, I+1, I+2 that read back as VX.
pub proof fn lemma_bcd_round_trip(s: MachineState, rng: u8)
    requires
        well_formed(s),
        nibbles_of(s.op) == (0xFu8, op_x(s.op), 3u8, 3u8),
        s.i + 3 <= 4096,
    ensures
        spec_execute(s, rng) is Ok,
        ({
            let m = spec_execute(s, rng)->Ok_0.ram;
            &&& m[s.i as int] < 10
            &&& m[s.i + 1] < 10
            &&& m[s.i + 2] < 10
            &&& m[s.i as int] * 100 + m[s.i + 1] * 10 + m[s.i + 2] == vx(s)
        }),
{
}

/// `FX55` from state `s`, then `FX65` with the same X from a state `u` whose I is back
/// at its value before the dump and whose memory is what the dump left, restores V0 to
/// VX to their values before the dump. Each of the two moves I to I + X + 1.
pub proof fn lemma_dump_load_round_trip(s: MachineState, u: MachineState, rng: u8)
    requires
        well_formed(s),
        well_formed(u),
        nibbles_of(s.op) == (0xFu8, op_x(s.op), 5u8, 5u8),
        nibbles_of(u.op) == (0xFu8, op_x(s.op), 6u8, 5u8),
        s.i + op_x(s.op) + 1 <= 4096,
        spec_execute(s, rng) is Ok,
        u.ram == spec_execute(s, rng)->Ok_0.ram,
        u.i == s.i,
    ensures
        spec_execute(s, rng)->Ok_0.i == s.i + op_x(s.op) + 1,
        spec_execute(u, rng) is Ok,
        spec_execute(u, rng)->Ok_0.i == s.i + op_x(s.op) + 1,
        forall|r: int|
            0 <= r <= op_x(s.op) ==> #[trigger] spec_execute(u, rng)->Ok_0.v[r] == s.v[r],
{
    assert(op_x(u.op) == op_x(s.op));
}

/// Drawing the same sprite at the same place twice restores the screen; the second draw
/// reports a collision exactly when the sprite has a set bit over a pixel that was unset
/// before the first; so on a region that was blank, exactly when the sprite has a set bit
/// on screen. X and Y must not name VF, which the first draw overwrites.
pub proof fn lemma_draw_twice(s: MachineState, rng: u8)
    requires
        well_formed(s),
        nibbles_of(s.op).0 == 0xD,
        op_x(s.op) != 15,
        op_y(s.op) != 15,
        s.i + op_n(s.op) <= 4096,
    ensures
        spec_execute(s, rng) is Ok,
        spec_execute(spec_execute(s, rng)->Ok_0, rng) is Ok,
        ({
            let w = spec_execute(spec_execute(s, rng)->Ok_0, rng)->Ok_0;
            &&& w.screen == s.screen
            &&& w.v[15] == 1 <==> exists|p: int|
                0 <= p < 2048 && !s.screen[p] && #[trigger] sprite_pixel(
                    s.ram,
                    s.i as int,
                    vx(s) as int,
                    vy(s) as int,
                    op_n(s.op) as int,
                    p,
                )
            &&& (forall|p: int|
                0 <= p < 2048 && sprite_covers(vx(s) as int, vy(s) as int, op_n(s.op) as int, p)
                    ==> !#[trigger] s.screen[p]) ==> (w.v[15] == 1 <==> exists|p: int|
                0 <= p < 2048 && #[trigger] sprite_pixel(
                    s.ram,
                    s.i as int,
                    vx(s) as int,
                    vy(s) as int,
                    op_n(s.op) as int,
                    p,
                ))
        }),
{
    let t = spec_execute(s, rng)->Ok_0;
    let w = spec_execute(t, rng)->Ok_0;
    assert(vx(t) == vx(s) && vy(t) == vy(s));
    assert(w.screen =~= s.screen);
    let (gi, gx, gy, gn) = (s.i as int, vx(s) as int, vy(s) as int, op_n(s.op) as int);
    if forall|p: int|
        0 <= p < 2048 && sprite_covers(gx, gy, gn, p) ==> !#[trigger] s.screen[p] {
        if exists|p: int| 0 <= p < 2048 && #[trigger] sprite_pixel(s.ram, gi, gx, gy, gn, p) {
            let p = choose|p: int| 0 <= p < 2048 && #[trigger] sprite_pixel(s.ram, gi, gx, gy, gn, p);
            assert(!s.screen[p]);
        }
    }
}

} // verus!
