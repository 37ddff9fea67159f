//! The machine state as text, every number rendered in one radix.

use vstd::prelude::*;
use crate::processor::{Processor, ProcessorState};
use crate::text::{
    Radix, word_text, half_text, byte_text, flag_text, format_word, format_half, format_byte,
    format_flag, format_words,
};

verus! {

pub struct FetchPhaseText {
    pub pc: String,
    pub ir: String,
}

pub struct DecodePhaseText {
    pub opcode: String,
    pub r1: String,
    pub r2: String,
    pub r3: String,
    pub r4: String,
    pub r5: String,
    pub imm: String,
    pub long_imm: String,
    pub ir: String,
    pub reg_bank: Vec<String>,
    pub a: String,
    pub b: String,
    pub wb: String,
    pub wb_addr: String,
    pub write_en: String,
    pub pc: String,
}

pub struct ExecutePhaseText {
    pub opcode: String,
    pub r1: String,
    pub r2: String,
    pub r3: String,
    pub r4: String,
    pub r5: String,
    pub imm: String,
    pub long_imm: String,
    pub a: String,
    pub b: String,
    pub pc: String,
    pub br_flag: String,
}

pub struct MemoryPhaseText {
    pub opcode: String,
    pub r1: String,
    pub imm: String,
    pub long_imm: String,
    pub data: String,
    pub addr: String,
    pub nwe: String,
    pub data_out: String,
    pub pc: String,
    pub br_flag: String,
}

pub struct WriteBackPhaseText {
    pub opcode: String,
    pub r1: String,
    pub data: String,
    pub write_en: String,
}

/// The machine state with every number rendered as text.
pub struct ProcessorText {
    pub rom: Vec<String>,
    pub ram: Vec<String>,
    pub fetch: FetchPhaseText,
    pub decode: DecodePhaseText,
    pub execute: ExecutePhaseText,
    pub memory: MemoryPhaseText,
    pub write_back: WriteBackPhaseText,
    pub num_representation: String,
    pub file_path: String,
    pub changed_ramfield: (String, String),
}

/// `out` renders the words `v`, one for one.
pub open spec fn words_text(out: Seq<String>, v: Seq<i32>, r: Radix) -> bool {
    &&& out.len() == v.len()
    &&& forall|i: int| 0 <= i < v.len() ==> (#[trigger] out[i])@ == word_text(v[i], r)
}

/// `t` renders the state `s` in the radix `r`: words (32-bit numbers), half
/// words (immediates), bytes (opcodes and register numbers) and flags each
/// by their own width; the representation and the file name as they are.
pub open spec fn text_of(t: ProcessorText, s: ProcessorState, r: Radix) -> bool {
    &&& words_text(t.rom@, s.rom, r)
    &&& words_text(t.ram@, s.ram, r)
    &&& t.fetch.pc@ == word_text(s.fetch.pc, r)
    &&& t.fetch.ir@ == word_text(s.fetch.ir, r)
    &&& t.decode.opcode@ == byte_text(s.decode.opcode, r)
    &&& t.decode.r1@ == byte_text(s.decode.r1, r)
    &&& t.decode.r2@ == byte_text(s.decode.r2, r)
    &&& t.decode.r3@ == byte_text(s.decode.r3, r)
    &&& t.decode.r4@ == byte_text(s.decode.r4, r)
    &&& t.decode.r5@ == byte_text(s.decode.r5, r)
    &&& t.decode.imm@ == half_text(s.decode.imm, r)
    &&& t.decode.long_imm@ == word_text(s.decode.long_imm, r)
    &&& t.decode.ir@ == word_text(s.decode.ir, r)
    &&& words_text(t.decode.reg_bank@, s.decode.reg_bank, r)
    &&& t.decode.a@ == word_text(s.decode.a, r)
    &&& t.decode.b@ == word_text(s.decode.b, r)
    &&& t.decode.wb@ == word_text(s.decode.wb, r)
    &&& t.decode.wb_addr@ == word_text(s.decode.wb_addr, r)
    &&& t.decode.write_en@ == flag_text(s.decode.write_en, r)
    &&& t.decode.pc@ == word_text(s.decode.pc, r)
    &&& t.execute.opcode@ == byte_text(s.execute.opcode, r)
    &&& t.execute.r1@ == byte_text(s.execute.r1, r)
    &&& t.execute.r2@ == byte_text(s.execute.r2, r)
    &&& t.execute.r3@ == byte_text(s.execute.r3, r)
    &&& t.execute.r4@ == byte_text(s.execute.r4, r)
    &&& t.execute.r5@ == byte_text(s.execute.r5, r)
    &&& t.execute.imm@ == half_text(s.execute.imm, r)
    &&& t.execute.long_imm@ == word_text(s.execute.long_imm, r)
    &&& t.execute.a@ == word_text(s.execute.a, r)
    &&& t.execute.b@ == word_text(s.execute.b, r)
    &&& t.execute.pc@ == word_text(s.execute.pc, r)
    &&& t.execute.br_flag@ == flag_text(s.execute.br_flag, r)
    &&& t.memory.opcode@ == byte_text(s.memory.opcode, r)
    &&& t.memory.r1@ == byte_text(s.memory.r1, r)
    &&& t.memory.imm@ == half_text(s.memory.imm, r)
    &&& t.memory.long_imm@ == word_text(s.memory.long_imm, r)
    &&& t.memory.data@ == word_text(s.memory.data, r)
    &&& t.memory.addr@ == word_text(s.memory.addr, r)
    &&& t.memory.nwe@ == flag_text(s.memory.nwe, r)
    &&& t.memory.data_out@ == word_text(s.memory.data_out, r)
    &&& t.memory.pc@ == word_text(s.memory.pc, r)
    &&& t.memory.br_flag@ == flag_text(s.memory.br_flag, r)
    &&& t.write_back.opcode@ == byte_text(s.write_back.opcode, r)
    &&& t.write_back.r1@ == byte_text(s.write_back.r1, r)
    &&& t.write_back.data@ == word_text(s.write_back.data, r)
    &&& t.write_back.write_en@ == flag_text(s.write_back.write_en, r)
    &&& t.num_representation@ == s.num_representation
    &&& t.file_path@ == s.file_path
    &&& t.changed_ramfield.0@ == word_text(s.changed_ramfield.0, r)
    &&& t.changed_ramfield.1@ == word_text(s.changed_ramfield.1, r)
}

/// Which rendering a machine shows: `Some(radix)` for "hex", "dec" and "bin",
/// `None` (the raw state) for any other representation.
pub open spec fn shown_radix(num_representation: Seq<char>) -> Option<Radix> {
    if num_representation == "hex"@ {
        Some(Radix::Hex)
    } else if num_representation == "dec"@ {
        Some(Radix::Dec)
    } else if num_representation == "bin"@ {
        Some(Radix::Bin)
    } else {
        None
    }
}

impl Processor {
    /// The state with every number rendered in the radix.
    pub fn to_text(&self, r: Radix) -> (t: ProcessorText)
        ensures
            text_of(t, self@, r),
    {
        let fetch = FetchPhaseText { pc: format_word(self.fetch.pc, r), ir: format_word(self.fetch.ir, r) };
        let d = &self.decode;
        let decode = DecodePhaseText {
            opcode: format_byte(d.opcode, r),
            r1: format_byte(d.r1, r),
            r2: format_byte(d.r2, r),
            r3: format_byte(d.r3, r),
            r4: format_byte(d.r4, r),
            r5: format_byte(d.r5, r),
            imm: format_half(d.imm, r),
            long_imm: format_word(d.long_imm, r),
            ir: format_word(d.ir, r),
            reg_bank: format_words(&d.reg_bank, r),
            a: format_word(d.a, r),
            b: format_word(d.b, r),
            wb: format_word(d.wb, r),
            wb_addr: format_word(d.wb_addr, r),
            write_en: format_flag(d.write_en, r),
            pc: format_word(d.pc, r),
        };
        let e = &self.execute;
        let execute = ExecutePhaseText {
            opcode: format_byte(e.opcode, r),
            r1: format_byte(e.r1, r),
            r2: format_byte(e.r2, r),
            r3: format_byte(e.r3, r),
            r4: format_byte(e.r4, r),
            r5: format_byte(e.r5, r),
            imm: format_half(e.imm, r),
            long_imm: format_word(e.long_imm, r),
            a: format_word(e.a, r),
            b: format_word(e.b, r),
            pc: format_word(e.pc, r),
            br_flag: format_flag(e.br_flag, r),
        };
        let m = &self.memory;
        let memory = MemoryPhaseText {
            opcode: format_byte(m.opcode, r),
            r1: format_byte(m.r1, r),
            imm: format_half(m.imm, r),
            long_imm: format_word(m.long_imm, r),
            data: format_word(m.data, r),
            addr: format_word(m.addr, r),
            nwe: format_flag(m.nwe, r),
            data_out: format_word(m.data_out, r),
            pc: format_word(m.pc, r),
            br_flag: format_flag(m.br_flag, r),
        };
        let w = &self.write_back;
        let write_back = WriteBackPhaseText {
            opcode: format_byte(w.opcode, r),
            r1: format_byte(w.r1, r),
            data: format_word(w.data, r),
            write_en: format_flag(w.write_en, r),
        };
        ProcessorText {
            rom: format_words(&self.rom, r),
            ram: format_words(&self.ram, r),
            fetch,
            decode,
            execute,
            memory,
            write_back,
            num_representation: self.num_representation.clone(),
            file_path: self.file_path.clone(),
            changed_ramfield: (
                format_word(self.changed_ramfield.0, r),
                format_word(self.changed_ramfield.1, r),
            ),
        }
    }

    /// The state rendered in hexadecimal.
    pub fn to_hex(&self) -> (t: ProcessorText)
        ensures
            text_of(t, self@, Radix::Hex),
    {
        self.to_text(Radix::Hex)
    }

    /// The state rendered in decimal.
    pub fn to_dec(&self) -> (t: ProcessorText)
        ensures
            text_of(t, self@, Radix::Dec),
    {
        self.to_text(Radix::Dec)
    }

    /// The state rendered in binary.
    pub fn to_bin(&self) -> (t: ProcessorText)
        ensures
            text_of(t, self@, Radix::Bin),
    {
        self.to_text(Radix::Bin)
    }

    /// The state as this machine's representation shows it: rendered text for
    /// "hex", "dec" and "bin", `None` where the raw state is shown.
    pub fn state_text(&self) -> (t: Option<ProcessorText>)
        ensures
            match shown_radix(self.num_representation@) {
                Some(r) => t matches Some(text) && text_of(text, self@, r),
                None => t is None,
            },
    {
        let hex = "hex".to_string();
        let dec = "dec".to_string();
        let bin = "bin".to_string();
        if self.num_representation == hex {
            Some(self.to_hex())
        } else if self.num_representation == dec {
            Some(self.to_dec())
        } else if self.num_representation == bin {
            Some(self.to_bin())
        } else {
            None
        }
    }
}

} // verus!
