//! The five pipeline stages. Each stage latches its inputs on the rising
//! edge of the clock; the falling edge does nothing.

use vstd::prelude::*;
use crate::constants::{NOP, BEQ, JMP, LDW, STW, LDI, HALT};
use crate::isa::{opcode_of, reg_of, imm_of, long_imm_of, lemma_fields_in_range};
use crate::alu::{Alu, alu_ok, alu_result};

verus! {

// ------------------------------------------------------------------------
// Fetch
// ------------------------------------------------------------------------

/// Instruction fetch: the program counter and the instruction register.
#[derive(Clone, Copy)]
pub struct FetchPhase {
    pub pc: i32,
    pub ir: i32,
}

/// The fetch stage can latch: its program counter addresses a ROM word, and
/// the increment of `pc` (done unless the fetched word is a HALT) fits.
pub open spec fn fetch_ok(f: FetchPhase, rom: Seq<i32>, pc: i32) -> bool {
    &&& 0 <= f.pc < rom.len()
    &&& opcode_of(rom[f.pc as int]) != HALT ==> pc < i32::MAX
}

/// The fetch stage after a rising edge: the addressed ROM word is latched
/// into the instruction register; the program counter becomes `pc_alt` when a
/// branch is taken, else `pc + 1`, else (on HALT) stays where it was.
pub open spec fn fetch_next(f: FetchPhase, rom: Seq<i32>, pc: i32, pc_alt: i32, branch_flag: bool) -> FetchPhase {
    let ir = rom[f.pc as int];
    FetchPhase {
        ir,
        pc: if branch_flag {
            pc_alt
        } else if opcode_of(ir) != HALT {
            (pc + 1) as i32
        } else {
            f.pc
        },
    }
}

impl FetchPhase {
    pub fn rising_edge(&mut self, rom: &Vec<i32>, pc: i32, pc_alt: i32, branch_flag: bool)
        requires
            fetch_ok(*old(self), rom@, pc),
        ensures
            *final(self) == fetch_next(*old(self), rom@, pc, pc_alt, branch_flag),
    {
        self.ir = rom[self.pc as usize];
        proof {
            lemma_fields_in_range(self.ir);
        }
        let opcode = (self.ir >> 26) as i8;
        if !(opcode == HALT) {
            self.pc = pc + 1;
        }
        if branch_flag {
            self.pc = pc_alt;
        }
    }

    pub fn falling_edge(&self) {
    }

    pub fn get_ir(&self) -> (r: i32)
        ensures
            r == self.ir,
    {
        self.ir
    }

    pub fn get_pc(&self) -> (r: i32)
        ensures
            r == self.pc,
    {
        self.pc
    }
}

// ------------------------------------------------------------------------
// Decode
// ------------------------------------------------------------------------

/// Instruction decode and the register bank.
pub struct DecodePhase {
    pub opcode: i8,
    pub r1: i8,
    pub r2: i8,
    pub r3: i8,
    pub r4: i8,
    pub r5: i8,
    pub imm: i16,
    pub long_imm: i32,
    pub ir: i32,
    pub reg_bank: Vec<i32>,
    pub a: i32,
    pub b: i32,
    pub wb: i32,
    pub wb_addr: i32,
    pub write_en: bool,
    pub pc: i32,
}

/// The decode stage with its register bank taken as a sequence.
pub struct DecodeState {
    pub opcode: i8,
    pub r1: i8,
    pub r2: i8,
    pub r3: i8,
    pub r4: i8,
    pub r5: i8,
    pub imm: i16,
    pub long_imm: i32,
    pub ir: i32,
    pub reg_bank: Seq<i32>,
    pub a: i32,
    pub b: i32,
    pub wb: i32,
    pub wb_addr: i32,
    pub write_en: bool,
    pub pc: i32,
}

impl View for DecodePhase {
    type V = DecodeState;

    open spec fn view(&self) -> DecodeState {
        DecodeState {
            opcode: self.opcode,
            r1: self.r1,
            r2: self.r2,
            r3: self.r3,
            r4: self.r4,
            r5: self.r5,
            imm: self.imm,
            long_imm: self.long_imm,
            ir: self.ir,
            reg_bank: self.reg_bank@,
            a: self.a,
            b: self.b,
            wb: self.wb,
            wb_addr: self.wb_addr,
            write_en: self.write_en,
            pc: self.pc,
        }
    }
}

/// The decode stage can latch: the register bank has its 32 registers and a
/// write-back, if enabled, addresses one of them.
pub open spec fn decode_ok(d: DecodeState, wb_addr: i32, write_en: bool) -> bool {
    &&& d.reg_bank.len() == 32
    &&& write_en ==> 0 <= wb_addr < 32
}

/// The decode stage after a rising edge: the instruction word is split into
/// its fields, the operands `a` and `b` are read from the registers named by
/// `r1` and `r2` as they were before this edge, and then the write-back value
/// (if enabled) is written into the register bank.
pub open spec fn decode_next(d: DecodeState, ir: i32, wb: i32, wb_addr: i32, write_en: bool, pc: i32) -> DecodeState {
    DecodeState {
        opcode: opcode_of(ir),
        r1: reg_of(ir, 21),
        r2: reg_of(ir, 16),
        r3: reg_of(ir, 11),
        r4: reg_of(ir, 6),
        r5: reg_of(ir, 0),
        imm: imm_of(ir),
        long_imm: long_imm_of(ir),
        ir,
        reg_bank: if write_en {
            d.reg_bank.update(wb_addr as int, wb)
        } else {
            d.reg_bank
        },
        a: d.reg_bank[reg_of(ir, 21) as int],
        b: d.reg_bank[reg_of(ir, 16) as int],
        wb,
        wb_addr,
        write_en,
        pc,
    }
}

impl DecodePhase {
    pub fn rising_edge(&mut self, ir: i32, wb: i32, wb_addr: i32, write_en: bool, pc: i32)
        requires
            decode_ok(old(self)@, wb_addr, write_en),
        ensures
            final(self)@ == decode_next(old(self)@, ir, wb, wb_addr, write_en, pc),
            final(self).reg_bank@.len() == 32,
    {
        proof {
            lemma_fields_in_range(ir);
        }
        self.ir = ir;

        self.opcode = (self.ir >> 26) as i8;
        self.r1 = ((self.ir >> 21) & 0b11111) as i8;
        self.r2 = ((self.ir >> 16) & 0b11111) as i8;
        self.imm = (self.ir & 0xFFFF) as i16;
        self.long_imm = self.ir & 0x3FFFFFF;
        self.r3 = ((self.ir >> 11) & 0b11111) as i8;
        self.r4 = ((self.ir >> 6) & 0b11111) as i8;
        self.r5 = (self.ir & 0b11111) as i8;
        self.a = self.reg_bank[self.r1 as usize];
        self.b = self.reg_bank[self.r2 as usize];
        self.wb = wb;
        self.wb_addr = wb_addr;
        self.write_en = write_en;
        self.pc = pc;
        if write_en {
            self.reg_bank.set(wb_addr as usize, wb);
        }
    }

    pub fn falling_edge(&self) {
    }

    pub fn get_opcode(&self) -> (r: i8)
        ensures
            r == self.opcode,
    {
        self.opcode
    }

    pub fn get_r1(&self) -> (r: i8)
        ensures
            r == self.r1,
    {
        self.r1
    }

    pub fn get_r2(&self) -> (r: i8)
        ensures
            r == self.r2,
    {
        self.r2
    }

    pub fn get_imm(&self) -> (r: i16)
        ensures
            r == self.imm,
    {
        self.imm
    }

    pub fn get_long_imm(&self) -> (r: i32)
        ensures
            r == self.long_imm,
    {
        self.long_imm
    }

    pub fn get_r3(&self) -> (r: i8)
        ensures
            r == self.r3,
    {
        self.r3
    }

    pub fn get_r4(&self) -> (r: i8)
        ensures
            r == self.r4,
    {
        self.r4
    }

    pub fn get_r5(&self) -> (r: i8)
        ensures
            r == self.r5,
    {
        self.r5
    }

    pub fn get_a(&self) -> (r: i32)
        ensures
            r == self.a,
    {
        self.a
    }

    pub fn get_b(&self) -> (r: i32)
        ensures
            r == self.b,
    {
        self.b
    }

    pub fn get_pc(&self) -> (r: i32)
        ensures
            r == self.pc,
    {
        self.pc
    }
}

// ------------------------------------------------------------------------
// Execute
// ------------------------------------------------------------------------

/// Execute: runs the arithmetic unit and decides branches.
#[derive(Clone, Copy)]
pub struct ExecutePhase {
    pub opcode: i8,
    pub r1: i8,
    pub r2: i8,
    pub r3: i8,
    pub r4: i8,
    pub r5: i8,
    pub imm: i16,
    pub long_imm: i32,
    pub a: i32,
    pub b: i32,
    pub pc: i32,
    pub br_flag: bool,
}

/// The execute stage after a rising edge. For an arithmetic or logic opcode
/// (below BEQ) the result goes to `a` and the destination register `r1` is
/// `r3`; otherwise `a` passes through and `r1` is `r2`. LDI puts the
/// sign-extended immediate into `a`. The branch flag is the unit's decision.
pub open spec fn execute_next(
    opcode: i8,
    r2: i8,
    imm: i16,
    long_imm: i32,
    r3: i8,
    r4: i8,
    r5: i8,
    a: i32,
    b: i32,
    pc: i32,
) -> ExecutePhase {
    let (alu_out, br_flag) = alu_result(opcode, a, b);
    ExecutePhase {
        opcode,
        r1: if opcode < BEQ {
            r3
        } else {
            r2
        },
        r2,
        r3,
        r4,
        r5,
        imm,
        long_imm,
        a: if opcode == LDI {
            imm as i32
        } else if opcode < BEQ {
            alu_out
        } else {
            a
        },
        b,
        pc,
        br_flag,
    }
}

impl ExecutePhase {
    pub fn rising_edge(
        &mut self,
        opcode: i8,
        r1: i8,
        r2: i8,
        imm: i16,
        long_imm: i32,
        r3: i8,
        r4: i8,
        r5: i8,
        a: i32,
        b: i32,
        pc: i32,
    )
        requires
            alu_ok(opcode, a, b),
        ensures
            *final(self) == execute_next(opcode, r2, imm, long_imm, r3, r4, r5, a, b, pc),
    {
        self.opcode = opcode;
        self.r1 = r2;
        self.r2 = r2;
        self.imm = imm;
        self.long_imm = long_imm;
        self.r3 = r3;
        self.r4 = r4;
        self.r5 = r5;
        self.b = b;
        self.pc = pc;

        let (alu_out, br_flag) = Alu::op(opcode, a, b, imm, pc);
        self.br_flag = br_flag;
        if opcode < BEQ {
            self.a = alu_out;
            self.r1 = r3;
        } else {
            self.r1 = r2;
            self.a = a;
        }
        if opcode == LDI {
            self.a = imm as i32;
        }
    }

    pub fn falling_edge(&self) {
    }

    pub fn get_opcode(&self) -> (r: i8)
        ensures
            r == self.opcode,
    {
        self.opcode
    }

    pub fn get_r1(&self) -> (r: i8)
        ensures
            r == self.r1,
    {
        self.r1
    }

    pub fn get_r2(&self) -> (r: i8)
        ensures
            r == self.r2,
    {
        self.r2
    }

    pub fn get_imm(&self) -> (r: i16)
        ensures
            r == self.imm,
    {
        self.imm
    }

    pub fn get_long_imm(&self) -> (r: i32)
        ensures
            r == self.long_imm,
    {
        self.long_imm
    }

    pub fn get_a(&self) -> (r: i32)
        ensures
            r == self.a,
    {
        self.a
    }

    pub fn get_b(&self) -> (r: i32)
        ensures
            r == self.b,
    {
        self.b
    }

    pub fn get_pc(&self) -> (r: i32)
        ensures
            r == self.pc,
    {
        self.pc
    }

    pub fn get_br_flag(&self) -> (r: bool)
        ensures
            r == self.br_flag,
    {
        self.br_flag
    }
}

// ------------------------------------------------------------------------
// Memory
// ------------------------------------------------------------------------

/// Memory access: loads from and stores to RAM, and resolves the branch target.
#[derive(Clone, Copy)]
pub struct MemoryPhase {
    pub opcode: i8,
    pub r1: i8,
    pub imm: i16,
    pub long_imm: i32,
    pub data: i32,
    pub addr: i32,
    pub nwe: bool,
    pub data_out: i32,
    pub pc: i32,
    pub br_flag: bool,
}

/// The remainder of Rust's `%` on integers: it takes the sign of `x`.
pub open spec fn trunc_rem(x: int, m: int) -> int {
    if x >= 0 {
        x % m
    } else {
        -((-x) % m)
    }
}

/// The RAM cell an address names, for loads and stores alike: the low 16
/// bits of the address's bit pattern, read as an unsigned number.
pub open spec fn ram_index(addr: i32) -> int {
    (addr as int) % 65536
}

/// The RAM cell that the memory stage reads for any opcode but STW: the cell
/// the address names, or cell 0 where the RAM does not reach that cell.
pub open spec fn load_cell(addr: i32, ram_len: int) -> int {
    if ram_index(addr) < ram_len {
        ram_index(addr)
    } else {
        0
    }
}

/// The address the memory stage latches: the address reduced by `%` (so
/// with the sign of the address); for any opcode but STW it is 0 where that
/// is negative or beyond the RAM.
pub open spec fn latched_addr(opcode: i8, addr: i32, ram_len: int) -> i32 {
    let a = trunc_rem(addr as int, 65536);
    if opcode != STW && (a < 0 || a >= ram_len) {
        0
    } else {
        a as i32
    }
}

/// The memory stage can latch: a store's cell lies in the RAM, any other
/// opcode has a RAM to read from, and a taken branch's target `pc + imm` fits.
pub open spec fn memory_ok(opcode: i8, imm: i16, addr: i32, pc: i32, br_flag: bool, ram_len: int) -> bool {
    &&& opcode == STW ==> ram_index(addr) < ram_len
    &&& opcode != STW ==> ram_len > 0
    &&& br_flag ==> i32::MIN <= pc + imm <= i32::MAX
}

/// The memory stage after a rising edge.
pub open spec fn memory_next(
    opcode: i8,
    r1: i8,
    imm: i16,
    long_imm: i32,
    data: i32,
    addr: i32,
    pc: i32,
    br_flag: bool,
    ram: Seq<i32>,
) -> MemoryPhase {
    let store = opcode == STW;
    MemoryPhase {
        opcode,
        r1,
        imm,
        long_imm,
        data,
        addr: latched_addr(opcode, addr, ram.len() as int),
        nwe: !store,
        data_out: if opcode == LDW {
            ram[load_cell(addr, ram.len() as int)]
        } else {
            data
        },
        pc: if opcode == JMP {
            long_imm
        } else if br_flag {
            (pc + imm) as i32
        } else {
            pc
        },
        br_flag: br_flag || opcode == JMP,
    }
}

/// The RAM after the memory stage: a STW writes `data` to its cell.
pub open spec fn memory_ram_next(opcode: i8, data: i32, addr: i32, ram: Seq<i32>) -> Seq<i32> {
    if opcode == STW {
        ram.update(ram_index(addr), data)
    } else {
        ram
    }
}

/// The changed-cell report after the memory stage: the written cell and
/// value for a STW, `(-1, -1)` otherwise.
pub open spec fn memory_change_next(opcode: i8, data: i32, addr: i32) -> (i32, i32) {
    if opcode == STW {
        (ram_index(addr) as i32, data)
    } else {
        (-1i32, -1i32)
    }
}

impl MemoryPhase {
    pub fn rising_edge(
        &mut self,
        opcode: i8,
        r1: i8,
        imm: i16,
        long_imm: i32,
        data: i32,
        addr: i32,
        pc: i32,
        br_flag: bool,
        ram: &mut Vec<i32>,
        changed_ramfield: &mut (i32, i32),
    )
        requires
            memory_ok(opcode, imm, addr, pc, br_flag, old(ram)@.len() as int),
        ensures
            *final(self) == memory_next(opcode, r1, imm, long_imm, data, addr, pc, br_flag, old(ram)@),
            final(ram)@ == memory_ram_next(opcode, data, addr, old(ram)@),
            *final(changed_ramfield) == memory_change_next(opcode, data, addr),
    {
        let addr = addr % 65536;
        self.opcode = opcode;
        self.r1 = r1;
        self.imm = imm;
        self.long_imm = long_imm;
        self.data = data;
        self.addr = addr % 65536;
        self.pc = pc;
        self.br_flag = br_flag;

        if self.opcode == STW {
            self.nwe = false;
        } else {
            self.nwe = true;
        }
        // the cell is given by the low 16 bits of the address's bit pattern,
        // read as an unsigned number
        let cell = ((addr as u32) & 0xFFFF) as usize;
        proof {
            assert((addr as u32) & 0xFFFF == ((addr as int) % 65536) as u32) by (bit_vector)
                requires
                    -65536 < addr < 65536,
            ;
        }
        let mut load_cell = cell;
        if self.nwe {
            if self.addr < 0 || self.addr as usize >= ram.len() {
                self.addr = 0;
            }
            if load_cell >= ram.len() {
                load_cell = 0;
            }
            self.data_out = ram[load_cell];
            *changed_ramfield = (-1, -1);
        } else {
            ram.set(cell, self.data);
            *changed_ramfield = (cell as i32, self.data);
        }

        if self.opcode == LDW {
            self.data_out = ram[load_cell];
        } else if self.opcode == LDI {
            self.data_out = self.data;
        } else {
            self.data_out = data;
        }

        if self.br_flag {
            self.pc += self.imm as i32;
        }
        if self.opcode == JMP {
            self.pc = self.long_imm;
            self.br_flag = true;
        }
    }

    pub fn falling_edge(&self) {
    }

    pub fn get_pc(&self) -> (r: i32)
        ensures
            r == self.pc,
    {
        self.pc
    }

    pub fn get_opcode(&self) -> (r: i8)
        ensures
            r == self.opcode,
    {
        self.opcode
    }

    pub fn get_r1(&self) -> (r: i8)
        ensures
            r == self.r1,
    {
        self.r1
    }

    /// Returns the latched destination register (`r1`): this stage keeps no `r2`.
    pub fn get_r2(&self) -> (r: i8)
        ensures
            r == self.r1,
    {
        self.r1
    }

    pub fn get_data_out(&self) -> (r: i32)
        ensures
            r == self.data_out,
    {
        self.data_out
    }

    pub fn get_br_flag(&self) -> (r: bool)
        ensures
            r == self.br_flag,
    {
        self.br_flag
    }
}

// ------------------------------------------------------------------------
// Write back
// ------------------------------------------------------------------------

/// Write back: decides whether the result goes into the register bank.
#[derive(Clone, Copy)]
pub struct WriteBackPhase {
    pub opcode: i8,
    pub r1: i8,
    pub data: i32,
    pub write_en: bool,
}

/// Whether an opcode writes a register: LDW, LDI and the arithmetic and
/// logic opcodes (strictly between NOP and BEQ).
pub open spec fn writes_register(opcode: i8) -> bool {
    opcode == LDW || opcode == LDI || (NOP < opcode && opcode < BEQ)
}

pub open spec fn write_back_next(opcode: i8, r1: i8, data: i32) -> WriteBackPhase {
    WriteBackPhase { opcode, r1, data, write_en: writes_register(opcode) }
}

impl WriteBackPhase {
    pub fn rising_edge(&mut self, opcode: i8, r1: i8, data: i32)
        ensures
            *final(self) == write_back_next(opcode, r1, data),
    {
        self.opcode = opcode;
        self.r1 = r1;
        self.data = data;
        if opcode == LDW || opcode == LDI || (opcode < BEQ && opcode > NOP) {
            self.write_en = true;
        } else {
            self.write_en = false;
        }
    }

    pub fn falling_edge(&self) {
    }

    pub fn get_wb(&self) -> (r: i32)
        ensures
            r == self.data,
    {
        self.data
    }

    pub fn get_wb_addr(&self) -> (r: i32)
        ensures
            r == self.r1 as i32,
    {
        self.r1 as i32
    }

    pub fn get_write_en(&self) -> (r: bool)
        ensures
            r == self.write_en,
    {
        self.write_en
    }
}

} // verus!
