//! The processor: ROM, RAM and the five pipeline stages, clocked together.

use vstd::prelude::*;
use crate::constants::{HALT, RAM_SIZE, REG_COUNT, ROM_SIZE};
use crate::rom_reader::{DataReader, RomError, RomErrorKind, rom_from_contents};
use crate::alu::{Alu, alu_ok};
use crate::stages::{
    FetchPhase, DecodePhase, DecodeState, ExecutePhase, MemoryPhase, WriteBackPhase,
    fetch_ok, fetch_next, decode_next, execute_next, memory_next, memory_ram_next,
    memory_change_next, write_back_next,
};

verus! {

/// The simulated machine.
pub struct Processor {
    pub rom: Vec<i32>,
    pub ram: Vec<i32>,
    /// The RAM cell written by the last clock and its new value, or `(-1, -1)`.
    pub changed_ramfield: (i32, i32),
    pub fetch: FetchPhase,
    pub decode: DecodePhase,
    pub execute: ExecutePhase,
    pub memory: MemoryPhase,
    pub write_back: WriteBackPhase,
    /// How numbers are rendered: "hex", "dec", "bin", or anything else for raw.
    pub num_representation: String,
    /// Where the ROM image was loaded from.
    pub file_path: String,
}

/// The machine state as mathematical values.
pub struct ProcessorState {
    pub rom: Seq<i32>,
    pub ram: Seq<i32>,
    pub changed_ramfield: (i32, i32),
    pub fetch: FetchPhase,
    pub decode: DecodeState,
    pub execute: ExecutePhase,
    pub memory: MemoryPhase,
    pub write_back: WriteBackPhase,
    pub num_representation: Seq<char>,
    pub file_path: Seq<char>,
}

impl View for Processor {
    type V = ProcessorState;

    open spec fn view(&self) -> ProcessorState {
        ProcessorState {
            rom: self.rom@,
            ram: self.ram@,
            changed_ramfield: self.changed_ramfield,
            fetch: self.fetch,
            decode: self.decode@,
            execute: self.execute,
            memory: self.memory,
            write_back: self.write_back,
            num_representation: self.num_representation@,
            file_path: self.file_path@,
        }
    }
}

/// Stage latches as they are before the first clock: all zero.
pub open spec fn zero_fetch() -> FetchPhase {
    FetchPhase { pc: 0, ir: 0 }
}

pub open spec fn zero_decode() -> DecodeState {
    DecodeState {
        opcode: 0,
        r1: 0,
        r2: 0,
        r3: 0,
        r4: 0,
        r5: 0,
        imm: 0,
        long_imm: 0,
        ir: 0,
        reg_bank: Seq::new(32, |i: int| 0i32),
        a: 0,
        b: 0,
        wb: 0,
        wb_addr: 0,
        write_en: false,
        pc: 0,
    }
}

pub open spec fn zero_execute() -> ExecutePhase {
    ExecutePhase {
        opcode: 0,
        r1: 0,
        r2: 0,
        r3: 0,
        r4: 0,
        r5: 0,
        imm: 0,
        long_imm: 0,
        a: 0,
        b: 0,
        pc: 0,
        br_flag: false,
    }
}

pub open spec fn zero_memory() -> MemoryPhase {
    MemoryPhase {
        opcode: 0,
        r1: 0,
        imm: 0,
        long_imm: 0,
        data: 0,
        addr: 0,
        nwe: false,
        data_out: 0,
        pc: 0,
        br_flag: false,
    }
}

pub open spec fn zero_write_back() -> WriteBackPhase {
    WriteBackPhase { opcode: 0, r1: 0, data: 0, write_en: false }
}

/// A freshly started machine: the given ROM, zeroed RAM and registers, all
/// stage latches zero, and no changed RAM cell recorded.
pub open spec fn initial_state(rom: Seq<i32>, num_representation: Seq<char>, file_path: Seq<char>) -> ProcessorState {
    ProcessorState {
        rom,
        ram: Seq::new(65536, |i: int| 0i32),
        changed_ramfield: (0, 0),
        fetch: zero_fetch(),
        decode: zero_decode(),
        execute: zero_execute(),
        memory: zero_memory(),
        write_back: zero_write_back(),
        num_representation,
        file_path,
    }
}

impl ProcessorState {
    /// The shape that every machine built by this library keeps: 65536 RAM
    /// words, 32 registers, and register numbers in flight below 32.
    pub open spec fn wf(self) -> bool {
        &&& self.ram.len() == 65536
        &&& self.decode.reg_bank.len() == 32
        &&& 0 <= self.decode.r2 < 32
        &&& 0 <= self.decode.r3 < 32
        &&& 0 <= self.execute.r1 < 32
        &&& 0 <= self.memory.r1 < 32
        &&& 0 <= self.write_back.r1 < 32
    }

    /// The states on which a clock cycle runs to its end: the program counter
    /// addresses a ROM word whose successor fits (unless it is a HALT), the
    /// arithmetic unit does not overflow, and a taken branch's target fits.
    pub open spec fn clock_ok(self) -> bool {
        &&& fetch_ok(self.fetch, self.rom, self.fetch.pc)
        &&& alu_ok(self.decode.opcode, self.decode.a, self.decode.b)
        &&& self.execute.br_flag ==> i32::MIN <= self.execute.pc + self.execute.imm <= i32::MAX
    }

    /// One clock cycle: every stage latches, at once, what the stage before
    /// it held; the fetch stage takes its branch target from the memory
    /// stage and the decode stage its write-back from the write-back stage.
    pub open spec fn clock_step(self) -> ProcessorState {
        let s = self;
        ProcessorState {
            rom: s.rom,
            ram: memory_ram_next(s.execute.opcode, s.execute.a, s.execute.b, s.ram),
            changed_ramfield: memory_change_next(s.execute.opcode, s.execute.a, s.execute.b),
            fetch: fetch_next(s.fetch, s.rom, s.fetch.pc, s.memory.pc, s.memory.br_flag),
            decode: decode_next(
                s.decode,
                s.fetch.ir,
                s.write_back.data,
                s.write_back.r1 as i32,
                s.write_back.write_en,
                s.fetch.pc,
            ),
            execute: execute_next(
                s.decode.opcode,
                s.decode.r2,
                s.decode.imm,
                s.decode.long_imm,
                s.decode.r3,
                s.decode.r4,
                s.decode.r5,
                s.decode.a,
                s.decode.b,
                s.decode.pc,
            ),
            memory: memory_next(
                s.execute.opcode,
                s.execute.r1,
                s.execute.imm,
                s.execute.long_imm,
                s.execute.a,
                s.execute.b,
                s.execute.pc,
                s.execute.br_flag,
                s.ram,
            ),
            write_back: write_back_next(s.memory.opcode, s.memory.r1, s.memory.data_out),
            num_representation: s.num_representation,
            file_path: s.file_path,
        }
    }
}

/// Whether `res` is the machine built around the ROM that `rom` describes,
/// with the given representation and file, or the error that `rom` names.
pub open spec fn loaded(
    res: Result<Processor, RomError>,
    rom: Result<Seq<i32>, (int, RomErrorKind)>,
    num_representation: Seq<char>,
    file_path: Seq<char>,
) -> bool {
    match rom {
        Ok(r) => res matches Ok(p) && p@ == initial_state(r, num_representation, file_path)
            && p@.wf(),
        Err((line, kind)) => res matches Err(e) && e.line == line && e.kind == kind,
    }
}

/// A RAM of 65536 zero words.
fn zero_ram() -> (v: Vec<i32>)
    ensures
        v@ == Seq::new(65536, |i: int| 0i32),
{
    let v = vec![0i32; RAM_SIZE];
    assert(v@ =~= Seq::new(65536, |i: int| 0i32));
    v
}

/// A register bank of 32 zero registers.
fn zero_registers() -> (v: Vec<i32>)
    ensures
        v@ == Seq::new(32, |i: int| 0i32),
{
    let v = vec![0i32; REG_COUNT];
    assert(v@ =~= Seq::new(32, |i: int| 0i32));
    v
}

impl Processor {
    /// A machine around `rom`, with zeroed RAM, registers and latches.
    fn assemble(rom: Vec<i32>, num_representation: String, file_path: String) -> (p: Processor)
        ensures
            p@ == initial_state(rom@, num_representation@, file_path@),
            p@.wf(),
    {
        let ram = zero_ram();
        let fetch = FetchPhase { pc: 0, ir: 0 };
        let decode = DecodePhase {
            reg_bank: zero_registers(),
            ir: 0,
            opcode: 0,
            r1: 0,
            r2: 0,
            imm: 0,
            long_imm: 0,
            r3: 0,
            r4: 0,
            r5: 0,
            a: 0,
            b: 0,
            wb: 0,
            wb_addr: 0,
            write_en: false,
            pc: 0,
        };
        let execute = ExecutePhase {
            opcode: 0,
            r1: 0,
            r2: 0,
            imm: 0,
            long_imm: 0,
            r3: 0,
            r4: 0,
            r5: 0,
            a: 0,
            b: 0,
            pc: 0,
            br_flag: false,
        };
        let memory = MemoryPhase {
            opcode: 0,
            r1: 0,
            imm: 0,
            long_imm: 0,
            data: 0,
            addr: 0,
            nwe: false,
            data_out: 0,
            pc: 0,
            br_flag: false,
        };
        let write_back = WriteBackPhase { opcode: 0, r1: 0, data: 0, write_en: false };
        let p = Processor {
            rom,
            ram,
            fetch,
            decode,
            execute,
            memory,
            write_back,
            changed_ramfield: (0, 0),
            num_representation,
            file_path,
        };
        assert(p@.decode == zero_decode());
        p
    }

    /// A machine around `rom` loaded from `rom_path`, showing numbers in hex.
    pub fn new_with_rom(rom: Vec<i32>, rom_path: &String) -> (p: Processor)
        ensures
            p@ == initial_state(rom@, "hex"@, rom_path@),
            p@.wf(),
    {
        Processor::assemble(rom, "hex".to_string(), rom_path.clone())
    }

    /// A machine with a ROM of 65536 zero words and no file behind it.
    pub fn new_empty_rom() -> (p: Processor)
        ensures
            p@ == initial_state(Seq::new(65536, |i: int| 0i32), "hex"@, Seq::empty()),
            p@.wf(),
    {
        let rom = vec![0i32; RAM_SIZE];
        assert(rom@ =~= Seq::new(65536, |i: int| 0i32));
        Processor::assemble(rom, "hex".to_string(), String::new())
    }

    /// A machine around the ROM image in `contents`, the text of the file at
    /// `path` (`None` where there is no such file: the ROM is then all zero).
    /// A malformed image gives the `RomError` of its first bad line (its
    /// number and the reason) instead of a machine.
    pub fn new(path: String, contents: Option<&str>, num_representation: String) -> (res: Result<Processor, RomError>)
        ensures
            loaded(res, rom_from_contents(contents, 65536), num_representation@, path@),
    {
        match DataReader::read_rom_from_file(contents, ROM_SIZE) {
            Ok(rom) => Ok(Processor::assemble(rom, num_representation, path)),
            Err(e) => Err(e),
        }
    }

    /// A fresh machine around the ROM image read from `path` (whose text is
    /// `contents`), keeping this machine's number representation; a
    /// malformed image gives its `RomError`, as for `new`.
    pub fn load_program(&self, path: String, contents: Option<&str>) -> (res: Result<Processor, RomError>)
        ensures
            loaded(res, rom_from_contents(contents, 65536), self.num_representation@, path@),
    {
        match DataReader::read_rom_from_file(contents, ROM_SIZE) {
            Ok(rom) => {
                let mut new_proc = Processor::new_with_rom(rom, &path);
                new_proc.set_num_rep(self.num_representation.clone());
                Ok(new_proc)
            },
            Err(e) => Err(e),
        }
    }

    /// A fresh machine around the ROM image read again from this machine's
    /// file (whose text is now `contents`); this machine is left as it is. A
    /// malformed image gives its `RomError`, as for `new`.
    pub fn reload_program(&mut self, contents: Option<&str>) -> (res: Result<Processor, RomError>)
        ensures
            *final(self) == *old(self),
            loaded(res, rom_from_contents(contents, 65536), old(self).num_representation@, old(self).file_path@),
    {
        self.load_program(self.file_path.clone(), contents)
    }

    /// The same program restarted: ROM, file and number representation kept,
    /// everything else back to its initial value.
    pub fn reset(&self) -> (p: Processor)
        ensures
            p@ == initial_state(self.rom@, self.num_representation@, self.file_path@),
            p@.wf(),
    {
        let rom = self.rom.clone();
        assert(rom@ =~= self.rom@);
        let rom_path = self.file_path.clone();
        let mut new_proc = Processor::new_with_rom(rom, &rom_path);
        new_proc.set_num_rep(self.num_representation.clone());
        new_proc
    }

    /// Chooses how numbers are rendered.
    pub fn set_num_rep(&mut self, representation: String)
        ensures
            final(self)@ == (ProcessorState { num_representation: representation@, ..old(self)@ }),
    {
        self.num_representation = representation;
    }

    /// The file the ROM image was loaded from.
    pub fn get_rom_path(&self) -> (path: &String)
        ensures
            path == &self.file_path,
    {
        &self.file_path
    }

    /// Whether `clock` can run on this machine: exactly `clock_ok`.
    pub fn can_clock(&self) -> (ok: bool)
        ensures
            ok == self@.clock_ok(),
    {
        let pc = self.fetch.pc;
        if pc < 0 || pc as usize >= self.rom.len() {
            return false;
        }
        let ir = self.rom[pc as usize];
        proof {
            crate::isa::lemma_fields_in_range(ir);
        }
        let opcode = (ir >> 26) as i8;
        if opcode != HALT && pc == i32::MAX {
            return false;
        }
        if !Alu::op_ok(self.decode.opcode, self.decode.a, self.decode.b) {
            return false;
        }
        if self.execute.br_flag {
            let target: i64 = self.execute.pc as i64 + self.execute.imm as i64;
            if target < i32::MIN as i64 || target > i32::MAX as i64 {
                return false;
            }
        }
        true
    }

    /// One clock cycle: the rising edge of every stage, each fed with what
    /// the stages held before the edge, then the falling edge of every stage.
    pub fn clock(&mut self)
        requires
            old(self)@.wf(),
            old(self)@.clock_ok(),
        ensures
            final(self)@ == old(self)@.clock_step(),
            final(self)@.wf(),
    {
        let ghost s = self@;
        // what every stage holds before the edge
        let fetch_clone = self.fetch.clone();
        let execute_clone = self.execute.clone();
        let memory_clone = self.memory.clone();
        let d_opcode = self.decode.get_opcode();
        let d_r1 = self.decode.get_r1();
        let d_r2 = self.decode.get_r2();
        let d_imm = self.decode.get_imm();
        let d_long_imm = self.decode.get_long_imm();
        let d_r3 = self.decode.get_r3();
        let d_r4 = self.decode.get_r4();
        let d_r5 = self.decode.get_r5();
        let d_a = self.decode.get_a();
        let d_b = self.decode.get_b();
        let d_pc = self.decode.get_pc();

        let new_pc = fetch_clone.get_pc();
        let new_pc_alt = memory_clone.get_pc();
        let branch_flag = memory_clone.get_br_flag();

        self.fetch.rising_edge(&self.rom, new_pc, new_pc_alt, branch_flag);

        self.decode.rising_edge(
            fetch_clone.get_ir(),
            self.write_back.get_wb(),
            self.write_back.get_wb_addr(),
            self.write_back.get_write_en(),
            fetch_clone.get_pc(),
        );

        self.execute.rising_edge(
            d_opcode,
            d_r1,
            d_r2,
            d_imm,
            d_long_imm,
            d_r3,
            d_r4,
            d_r5,
            d_a,
            d_b,
            d_pc,
        );

        self.memory.rising_edge(
            execute_clone.get_opcode(),
            execute_clone.get_r1(),
            execute_clone.get_imm(),
            execute_clone.get_long_imm(),
            execute_clone.get_a(),
            execute_clone.get_b(),
            execute_clone.get_pc(),
            execute_clone.get_br_flag(),
            &mut self.ram,
            &mut self.changed_ramfield,
        );

        self.write_back.rising_edge(
            memory_clone.get_opcode(),
            memory_clone.get_r1(),
            memory_clone.get_data_out(),
        );

        self.fetch.falling_edge();
        self.decode.falling_edge();
        self.execute.falling_edge();
        self.memory.falling_edge();
        self.write_back.falling_edge();

        proof {
            crate::isa::lemma_fields_in_range(s.fetch.ir);
            assert(self@.decode == s.clock_step().decode);
        }
    }
}

} // verus!
