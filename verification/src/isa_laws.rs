//! What each instruction does, stated over all operands.

use vstd::prelude::*;
use crate::constants::{
    NOP, ADD, SUBT, NEG, NICHT, UND, ODER, BEQ, BNEQ, BLT, JMP, LDW, STW, LDI, HALT,
};
use crate::alu::{alu_ok, alu_result};
use crate::stages::{writes_register, execute_next, memory_next, write_back_next, fetch_next, FetchPhase};
use crate::processor::ProcessorState;

verus! {

/// The arithmetic and logic opcodes compute what they name (UND combines by
/// exclusive or), never branch, and do not overflow where `alu_ok` holds.
pub proof fn lemma_alu_arithmetic(a: i32, b: i32)
    ensures
        alu_ok(ADD, a, b) ==> alu_result(ADD, a, b).0 as int == a as int + b as int,
        alu_ok(SUBT, a, b) ==> alu_result(SUBT, a, b).0 as int == a as int - b as int,
        alu_ok(NEG, a, b) ==> alu_result(NEG, a, b).0 as int == -(a as int),
        alu_result(NICHT, a, b).0 as int == -(a as int) - 1,
        alu_result(UND, a, b).0 == a ^ b,
        alu_result(ODER, a, b).0 == a | b,
        !alu_result(ADD, a, b).1,
        !alu_result(SUBT, a, b).1,
        !alu_result(NEG, a, b).1,
        !alu_result(NICHT, a, b).1,
        !alu_result(UND, a, b).1,
        !alu_result(ODER, a, b).1,
{
    assert(!a == -a - 1) by (bit_vector);
}

/// The branch opcodes decide on signed comparison of their operands: BEQ
/// branches exactly on equal operands, BNEQ exactly on unequal ones (so
/// exactly when BEQ does not), and BLT exactly when `a < b` (so never on
/// equal operands, and of BLT(a, b), BLT(b, a) and BEQ(a, b) exactly one
/// branches). Their result word is 0.
pub proof fn lemma_alu_branches(a: i32, b: i32)
    ensures
        alu_result(BEQ, a, b).1 <==> a == b,
        alu_result(BNEQ, a, b).1 <==> a != b,
        alu_result(BLT, a, b).1 <==> a < b,
        alu_result(BNEQ, a, b).1 == !alu_result(BEQ, a, b).1,
        a == b ==> !alu_result(BLT, a, b).1,
        (alu_result(BLT, a, b).1 as int) + (alu_result(BLT, b, a).1 as int) + (alu_result(
            BEQ,
            a,
            b,
        ).1 as int) == 1,
        alu_result(BEQ, a, b).0 == 0,
        alu_result(BNEQ, a, b).0 == 0,
        alu_result(BLT, a, b).0 == 0,
{
}

/// Every other opcode leaves the unit idle: result 0, no branch.
pub proof fn lemma_alu_idle(opcode: i8, a: i32, b: i32)
    requires
        opcode == NOP || opcode == JMP || opcode == LDW || opcode == STW || opcode == LDI
            || opcode == HALT,
    ensures
        alu_result(opcode, a, b) == (0i32, false),
{
}

/// Exactly the arithmetic and logic opcodes and the two loads write a
/// register; branches, jumps, stores, NOP and HALT do not.
pub proof fn lemma_register_writers()
    ensures
        writes_register(ADD),
        writes_register(SUBT),
        writes_register(NEG),
        writes_register(NICHT),
        writes_register(UND),
        writes_register(ODER),
        writes_register(LDW),
        writes_register(LDI),
        !writes_register(NOP),
        !writes_register(BEQ),
        !writes_register(BNEQ),
        !writes_register(BLT),
        !writes_register(JMP),
        !writes_register(STW),
        !writes_register(HALT),
{
}

/// The execute stage routes results: an arithmetic or logic instruction's
/// result goes to its `r3` field; a load goes to its `r2` field, LDI carrying
/// its immediate sign-extended; the second operand passes on as the address.
pub proof fn lemma_execute_destination(
    opcode: i8,
    r2: i8,
    imm: i16,
    long_imm: i32,
    r3: i8,
    r4: i8,
    r5: i8,
    a: i32,
    b: i32,
    pc: i32,
)
    ensures
        ({
            let e = execute_next(opcode, r2, imm, long_imm, r3, r4, r5, a, b, pc);
            &&& (opcode == ADD || opcode == SUBT || opcode == NEG || opcode == NICHT || opcode
                == UND || opcode == ODER) ==> e.r1 == r3 && e.a == alu_result(opcode, a, b).0
            &&& (opcode == LDW || opcode == STW) ==> e.r1 == r2 && e.a == a
            &&& opcode == LDI ==> e.r1 == r2 && e.a as int == imm as int
            &&& e.b == b
            &&& e.pc == pc
            &&& e.br_flag == alu_result(opcode, a, b).1
        }),
{
}

/// The memory stage resolves control flow: a taken branch goes to its pc
/// plus its immediate taken as a signed 16-bit number (negative immediates
/// go backwards), a jump goes to its 26-bit target, and otherwise the pc
/// passes on unchanged.
pub proof fn lemma_memory_branch_target(
    opcode: i8,
    r1: i8,
    imm: i16,
    long_imm: i32,
    data: i32,
    addr: i32,
    pc: i32,
    br_flag: bool,
    ram: Seq<i32>,
)
    requires
        br_flag ==> i32::MIN <= pc + imm <= i32::MAX,
    ensures
        ({
            let m = memory_next(opcode, r1, imm, long_imm, data, addr, pc, br_flag, ram);
            &&& opcode != JMP && br_flag ==> m.pc as int == pc as int + imm as int && m.br_flag
            &&& opcode != JMP && br_flag && imm < 0 ==> m.pc < pc
            &&& opcode != JMP && !br_flag ==> m.pc == pc && !m.br_flag
            &&& opcode == JMP ==> m.pc == long_imm && m.br_flag
        }),
{
}

/// Without a branch, fetch latches the addressed ROM word and moves to the
/// next address, unless that word is a HALT, which holds the address.
pub proof fn lemma_fetch_sequential(f: FetchPhase, rom: Seq<i32>, target: i32)
    requires
        0 <= f.pc < rom.len(),
        f.pc < i32::MAX,
    ensures
        fetch_next(f, rom, f.pc, target, false).ir == rom[f.pc as int],
        crate::isa::opcode_of(rom[f.pc as int]) != HALT ==> fetch_next(f, rom, f.pc, target, false).pc
            as int == f.pc as int + 1,
        crate::isa::opcode_of(rom[f.pc as int]) == HALT ==> fetch_next(f, rom, f.pc, target, false).pc
            == f.pc,
{
}

/// A branch or jump resolved in the memory stage redirects fetch to its target.
pub proof fn lemma_fetch_follows_branch(f: FetchPhase, rom: Seq<i32>, pc: i32, target: i32)
    ensures
        fetch_next(f, rom, pc, target, true).pc == target,
{
}

/// An arithmetic or logic instruction in the decode stage, with operands `a`
/// and `b`, puts its result into the register its `r3` field names: after
/// three clock cycles the write-back stage holds that register, the result
/// and an enabled write, and the fourth cycle writes it into the register bank.
pub proof fn lemma_alu_result_reaches_r3(s: ProcessorState)
    requires
        s.wf(),
        NOP < s.decode.opcode < BEQ,
    ensures
        ({
            let t3 = s.clock_step().clock_step().clock_step();
            let t4 = t3.clock_step();
            let r = alu_result(s.decode.opcode, s.decode.a, s.decode.b).0;
            &&& t3.write_back.r1 == s.decode.r3
            &&& t3.write_back.data == r
            &&& t3.write_back.write_en
            &&& t4.decode.reg_bank[s.decode.r3 as int] == r
        }),
{
    let t1 = s.clock_step();
    let t2 = t1.clock_step();
    let t3 = t2.clock_step();
    assert(t1.execute.r1 == s.decode.r3);
    assert(t2.memory.r1 == s.decode.r3);
    assert(t2.memory.opcode == s.decode.opcode);
    assert(t3.write_back.write_en);
    assert(t1.decode.reg_bank.len() == 32);
    assert(t2.decode.reg_bank.len() == 32);
    assert(t3.decode.reg_bank.len() == 32);
}

} // verus!
