//! Properties of the machine that hold across its operations.

use vstd::prelude::*;
use crate::constants::{HALT, LDW, STW};
use crate::isa::opcode_of;
use crate::stages::{writes_register, memory_next, memory_ram_next};
use crate::processor::{ProcessorState, initial_state};
use crate::text::{Radix, word_text, digit_char, fixed_digits, dec_digits, pad_zeros, dec_string};
use crate::scan::{digits_value, digit_of, is_digit, all_digits, parse_i32_bin, parse_u32_dec};

verus! {

/// A clock cycle never changes the program: the ROM, the number
/// representation and the file name stay as they are.
pub proof fn lemma_clock_keeps_program(s: ProcessorState)
    ensures
        s.clock_step().rom == s.rom,
        s.clock_step().num_representation == s.num_representation,
        s.clock_step().file_path == s.file_path,
{
}

/// A clock cycle writes at most one RAM cell, and the changed-cell report
/// names it: `(-1, -1)` when RAM is unchanged, else the cell and its new value.
pub proof fn lemma_clock_reports_ram_change(s: ProcessorState)
    requires
        s.wf(),
    ensures
        ({
            let t = s.clock_step();
            if t.changed_ramfield == (-1i32, -1i32) {
                t.ram == s.ram
            } else {
                &&& 0 <= t.changed_ramfield.0 < 65536
                &&& t.ram == s.ram.update(t.changed_ramfield.0 as int, t.changed_ramfield.1)
            }
        }),
{
}

/// A clock cycle changes the register bank at most in the register that the
/// write-back stage names, and only when that stage's opcode writes a register.
pub proof fn lemma_clock_writes_one_register(s: ProcessorState)
    requires
        s.wf(),
    ensures
        ({
            let t = s.clock_step();
            &&& t.decode.reg_bank.len() == 32
            &&& forall|i: int|
                0 <= i < 32 && i != s.write_back.r1 ==> #[trigger] t.decode.reg_bank[i]
                    == s.decode.reg_bank[i]
            &&& !s.write_back.write_en ==> t.decode.reg_bank == s.decode.reg_bank
            &&& s.write_back.write_en ==> t.decode.reg_bank[s.write_back.r1 as int]
                == s.write_back.data
            &&& t.write_back.write_en == writes_register(s.memory.opcode)
        }),
{
}

/// A load from the address of a store reads the stored word; the store
/// leaves every other cell as it was.
pub proof fn lemma_load_reads_store(
    ram: Seq<i32>,
    addr: i32,
    value: i32,
    r1: i8,
    imm: i16,
    long_imm: i32,
    data: i32,
    pc: i32,
    br_flag: bool,
)
    requires
        ram.len() == 65536,
    ensures
        ({
            let stored = memory_ram_next(STW, value, addr, ram);
            &&& memory_next(LDW, r1, imm, long_imm, data, addr, pc, br_flag, stored).data_out == value
            &&& forall|i: int|
                0 <= i < 65536 && i != addr as int % 65536 ==> #[trigger] stored[i] == ram[i]
        }),
{
}

/// In the pipeline: when a STW is in the execute stage and a LDW of the same
/// address right behind it in the decode stage, two clock cycles later the
/// LDW's memory stage holds the stored word.
pub proof fn lemma_pipeline_load_after_store(s: ProcessorState)
    requires
        s.wf(),
        s.execute.opcode == STW,
        s.decode.opcode == LDW,
        s.decode.b == s.execute.b,
    ensures
        s.clock_step().clock_step().memory.data_out == s.execute.a,
{
    let t = s.clock_step();
    assert(t.ram.len() == 65536);
    assert(t.execute.opcode == LDW);
    assert(t.execute.b == s.execute.b);
    lemma_load_reads_store(
        s.ram,
        s.execute.b,
        s.execute.a,
        t.execute.r1,
        t.execute.imm,
        t.execute.long_imm,
        t.execute.a,
        t.execute.pc,
        t.execute.br_flag,
    );
}

/// On a HALT with no branch pending, the program counter stays where it is.
pub proof fn lemma_halt_holds_pc(s: ProcessorState)
    requires
        0 <= s.fetch.pc < s.rom.len(),
        opcode_of(s.rom[s.fetch.pc as int]) == HALT,
        !s.memory.br_flag,
    ensures
        s.clock_step().fetch.pc == s.fetch.pc,
{
}

/// A machine just started is well formed and starts fetching at address 0.
pub proof fn lemma_initial_state(rom: Seq<i32>, num_representation: Seq<char>, file_path: Seq<char>)
    ensures
        initial_state(rom, num_representation, file_path).wf(),
        initial_state(rom, num_representation, file_path).fetch.pc == 0,
{
}

/// Resetting is idempotent, and a reset after any clock cycle gives the same
/// machine as a reset before it.
pub proof fn lemma_reset(s: ProcessorState)
    ensures
        ({
            let r = initial_state(s.rom, s.num_representation, s.file_path);
            initial_state(r.rom, r.num_representation, r.file_path) == r
        }),
        ({
            let t = s.clock_step();
            initial_state(t.rom, t.num_representation, t.file_path) == initial_state(
                s.rom,
                s.num_representation,
                s.file_path,
            )
        }),
{
}

/// `b` to the power `e`.
pub open spec fn power(b: nat, e: nat) -> nat
    decreases e,
{
    if e == 0 {
        1
    } else {
        b * power(b, (e - 1) as nat)
    }
}

/// The digit characters of radixes up to ten read back as their digits.
pub proof fn lemma_digit_char(d: nat, radix: nat)
    requires
        d < radix <= 10,
    ensures
        is_digit(digit_char(d), radix),
        digit_of(digit_char(d)) == d,
{
}

/// A fixed-width rendering has its width, consists of digits, and reads back
/// as the number modulo the radix to the width.
pub proof fn lemma_fixed_digits(v: nat, radix: nat, w: nat)
    requires
        2 <= radix <= 10,
    ensures
        fixed_digits(v, radix, w).len() == w,
        all_digits(fixed_digits(v, radix, w), radix),
        digits_value(fixed_digits(v, radix, w), radix) == v % power(radix, w),
    decreases w,
{
    if w > 0 {
        lemma_fixed_digits(v / radix, radix, (w - 1) as nat);
        lemma_digit_char(v % radix, radix);
        let s = fixed_digits(v, radix, w);
        let p = fixed_digits(v / radix, radix, (w - 1) as nat);
        assert(s.drop_last() =~= p);
        assert forall|i: int| 0 <= i < s.len() implies is_digit(#[trigger] s[i], radix) by {
            if i < s.len() - 1 {
                assert(s[i] == p[i]);
            }
        }
        let z = power(radix, (w - 1) as nat);
        assert(z > 0) by {
            lemma_power_positive(radix, (w - 1) as nat);
        }
        vstd::arithmetic::div_mod::lemma_breakdown(v as int, radix as int, z as int);
        assert(((v / radix) % z) * radix == radix * ((v / radix) % z)) by (nonlinear_arith);
    }
}

pub proof fn lemma_power_positive(b: nat, e: nat)
    requires
        b >= 1,
    ensures
        power(b, e) >= 1,
    decreases e,
{
    if e > 0 {
        lemma_power_positive(b, (e - 1) as nat);
        assert(b * power(b, (e - 1) as nat) >= 1) by (nonlinear_arith)
            requires
                b >= 1,
                power(b, (e - 1) as nat) >= 1,
        ;
    }
}

/// The decimal digits of `n` read back as `n`.
pub proof fn lemma_dec_digits(n: nat)
    ensures
        dec_digits(n).len() >= 1,
        all_digits(dec_digits(n), 10),
        digits_value(dec_digits(n), 10) == n,
    decreases n,
{
    if n < 10 {
        lemma_digit_char(n, 10);
        assert(dec_digits(n).drop_last() =~= Seq::<char>::empty());
        assert(dec_digits(n).last() == digit_char(n));
        assert(digits_value(Seq::<char>::empty(), 10) == 0);
    } else {
        lemma_dec_digits(n / 10);
        lemma_digit_char(n % 10, 10);
        let s = dec_digits(n);
        let p = dec_digits(n / 10);
        assert(s.drop_last() =~= p);
        assert(s.last() == digit_char(n % 10));
        assert(n == (n / 10) * 10 + n % 10) by (nonlinear_arith);
        assert forall|i: int| 0 <= i < s.len() implies is_digit(#[trigger] s[i], 10) by {
            if i < s.len() - 1 {
                assert(s[i] == p[i]);
            }
        }
    }
}

/// Leading zeros add nothing to the value of digits.
pub proof fn lemma_leading_zeros(k: nat, s: Seq<char>, radix: nat)
    requires
        all_digits(s, radix),
        2 <= radix <= 10,
    ensures
        digits_value(Seq::new(k, |i: int| '0') + s, radix) == digits_value(s, radix),
        all_digits(Seq::new(k, |i: int| '0') + s, radix),
    decreases s.len(),
{
    let z = Seq::new(k, |i: int| '0');
    lemma_digit_char(0, radix);
    assert(digit_char(0) == '0');
    if s.len() == 0 {
        assert(z + s =~= z);
        lemma_zeros_value(k, radix);
    } else {
        assert(all_digits(s.drop_last(), radix)) by {
            assert forall|i: int| 0 <= i < s.drop_last().len() implies is_digit(
                #[trigger] s.drop_last()[i],
                radix,
            ) by {
                assert(s.drop_last()[i] == s[i]);
            }
        }
        lemma_leading_zeros(k, s.drop_last(), radix);
        assert((z + s).drop_last() =~= z + s.drop_last());
        assert((z + s).last() == s.last());
    }
    assert forall|i: int| 0 <= i < (z + s).len() implies is_digit(#[trigger] (z + s)[i], radix) by {
        if i >= k {
            assert((z + s)[i] == s[i - k]);
        }
    }
}

pub proof fn lemma_zeros_value(k: nat, radix: nat)
    requires
        2 <= radix <= 10,
    ensures
        digits_value(Seq::new(k, |i: int| '0'), radix) == 0,
    decreases k,
{
    lemma_digit_char(0, radix);
    assert(digit_char(0) == '0');
    if k > 0 {
        let z = Seq::new(k, |i: int| '0');
        assert(z.drop_last() =~= Seq::new((k - 1) as nat, |i: int| '0'));
        assert(z.last() == '0');
        lemma_zeros_value((k - 1) as nat, radix);
        assert(digits_value(z.drop_last(), radix) * radix == 0);
    }
}

/// A non-negative word rendered in binary reads back, through the ROM
/// image's word syntax, as the same word.
pub proof fn lemma_binary_word_reads_back(x: i32)
    requires
        x >= 0,
    ensures
        parse_i32_bin(word_text(x, Radix::Bin)) == Some(x),
{
    let t = word_text(x, Radix::Bin);
    assert(power(2, 32) == 0x1_0000_0000) by {
        reveal_with_fuel(power, 33);
    }
    lemma_fixed_digits(x as nat, 2, 32);
    assert(is_digit(t[0], 2));
}

/// A non-negative word rendered in decimal reads back, through the ROM
/// image's address syntax, as the same number.
pub proof fn lemma_decimal_word_reads_back(x: i32)
    requires
        x >= 0,
    ensures
        parse_u32_dec(word_text(x, Radix::Dec)) == Some(x as u32),
{
    let d = dec_digits(x as nat);
    lemma_dec_digits(x as nat);
    let t = word_text(x, Radix::Dec);
    if d.len() < 10 {
        lemma_leading_zeros((10 - d.len()) as nat, d, 10);
    }
    assert(is_digit(t[0], 10));
}

} // verus!
