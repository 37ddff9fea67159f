use vstd::prelude::*;
use crate::constants::{ADD, SUBT, NEG, NICHT, UND, ODER, BEQ, BNEQ, BLT};

verus! {

/// The inputs on which the arithmetic unit computes without overflow.
pub open spec fn alu_ok(opcode: i8, a: i32, b: i32) -> bool {
    &&& opcode == ADD ==> i32::MIN <= a + b <= i32::MAX
    &&& opcode == SUBT ==> i32::MIN <= a - b <= i32::MAX
    &&& opcode == NEG ==> a != i32::MIN
}

/// What the arithmetic unit yields for an opcode and its two operands:
/// the result and whether a branch is taken.
pub open spec fn alu_result(opcode: i8, a: i32, b: i32) -> (i32, bool) {
    if opcode == ADD {
        ((a + b) as i32, false)
    } else if opcode == SUBT {
        ((a - b) as i32, false)
    } else if opcode == NEG {
        ((-a) as i32, false)
    } else if opcode == NICHT {
        (!a, false)
    } else if opcode == UND {
        (a ^ b, false)
    } else if opcode == ODER {
        (a | b, false)
    } else if opcode == BEQ {
        (0, a == b)
    } else if opcode == BNEQ {
        (0, a != b)
    } else if opcode == BLT {
        (0, a < b)
    } else {
        (0, false)
    }
}

/// The arithmetic and branch unit of the execute stage.
pub struct Alu;

impl Alu {
    /// Computes the result and the branch decision of `opcode` on `a` and `b`.
    /// The immediate and the program counter are handed in but take no part.
    pub fn op(opcode: i8, a: i32, b: i32, imm: i16, pc: i32) -> (res: (i32, bool))
        requires
            alu_ok(opcode, a, b),
        ensures
            res == alu_result(opcode, a, b),
    {
        match opcode {
            ADD => (a + b, false),
            SUBT => (a - b, false),
            NEG => (-a, false),
            NICHT => (!a, false),
            UND => (a ^ b, false),
            ODER => (a | b, false),
            BEQ => {
                if a == b {
                    (0, true)
                } else {
                    (0, false)
                }
            },
            BNEQ => {
                if a != b {
                    (0, true)
                } else {
                    (0, false)
                }
            },
            BLT => {
                if a < b {
                    (0, true)
                } else {
                    (0, false)
                }
            },
            _ => (0, false),
        }
    }

    /// Whether `op` can be called on these operands: exactly `alu_ok`.
    pub fn op_ok(opcode: i8, a: i32, b: i32) -> (ok: bool)
        ensures
            ok == alu_ok(opcode, a, b),
    {
        if opcode == ADD {
            let s: i64 = a as i64 + b as i64;
            s >= i32::MIN as i64 && s <= i32::MAX as i64
        } else if opcode == SUBT {
            let s: i64 = a as i64 - b as i64;
            s >= i32::MIN as i64 && s <= i32::MAX as i64
        } else if opcode == NEG {
            a != i32::MIN
        } else {
            true
        }
    }
}

} // verus!
