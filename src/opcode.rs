//! The 16-bit instruction word and its nibble fields.
use vstd::prelude::*;

verus! {

/// First nibble: the instruction class.
pub open spec fn op_class(op: u16) -> u8 {
    (op / 4096) as u8
}

/// Second nibble: register index X.
pub open spec fn op_x(op: u16) -> u8 {
    ((op / 256) % 16) as u8
}

/// Third nibble: register index Y.
pub open spec fn op_y(op: u16) -> u8 {
    ((op / 16) % 16) as u8
}

/// Fourth nibble: a literal `N`.
pub open spec fn op_n(op: u16) -> u8 {
    (op % 16) as u8
}

/// Low byte: the immediate `NN`.
pub open spec fn op_nn(op: u16) -> u8 {
    (op % 256) as u8
}

/// Low twelve bits: the address `NNN`.
pub open spec fn op_nnn(op: u16) -> u16 {
    (op % 4096) as u16
}

/// The four nibbles, most significant first.
pub open spec fn nibbles_of(op: u16) -> (u8, u8, u8, u8) {
    (op_class(op), op_x(op), op_y(op), op_n(op))
}

/// A CHIP-8 instruction word.
#[derive(Debug, Copy, Clone, PartialEq, Eq)]
pub struct OpCode(pub u16);

/// Splitting a value into its four 4-bit fields.
pub trait Nibbles {
    spec fn spec_nibbles(&self) -> (u8, u8, u8, u8);

    fn into_tuple(&self) -> (r: (u8, u8, u8, u8))
        ensures
            r == self.spec_nibbles(),
    ;
}

impl Nibbles for OpCode {
    open spec fn spec_nibbles(&self) -> (u8, u8, u8, u8) {
        nibbles_of(self.0)
    }

    fn into_tuple(&self) -> (r: (u8, u8, u8, u8)) {
        let op = self.0;
        let a = (0xF000 & op) >> 12;
        let b = (0x0F00 & op) >> 8;
        let c = (0x00F0 & op) >> 4;
        let d = 0x000F & op;
        assert(a == op / 4096 && a < 16) by (bit_vector)
            requires
                a == (0xF000 & op) >> 12,
        ;
        assert(b == (op / 256) % 16 && b < 16) by (bit_vector)
            requires
                b == (0x0F00 & op) >> 8,
        ;
        assert(c == (op / 16) % 16 && c < 16) by (bit_vector)
            requires
                c == (0x00F0 & op) >> 4,
        ;
        assert(d == op % 16 && d < 16) by (bit_vector)
            requires
                d == 0x000F & op,
        ;
        (a as u8, b as u8, c as u8, d as u8)
    }
}

impl OpCode {
    /// The immediate byte `NN`.
    pub fn nn(&self) -> (r: u8)
        ensures
            r == op_nn(self.0),
    {
        (self.0 % 256) as u8
    }

    /// The address `NNN`.
    pub fn nnn(&self) -> (r: u16)
        ensures
            r == op_nnn(self.0),
    {
        self.0 % 4096
    }
}

} // verus!
