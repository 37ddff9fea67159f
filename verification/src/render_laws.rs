//! Every rendered number reads back as the number it renders.

use vstd::prelude::*;
use crate::text::{
    Radix, word_text, half_text, byte_text, flag_text, digit_char, fixed_digits, dec_digits,
    pad_zeros, dec_string,
};
use crate::scan::{digits_value, all_digits};
use crate::laws::{power, lemma_power_positive, lemma_dec_digits, lemma_leading_zeros};
use crate::render::{ProcessorText, text_of};
use crate::processor::ProcessorState;

verus! {

/// The value of a lower-case digit character ('0'..'9', 'a'..'f'); 16 for
/// any other character.
pub open spec fn char_value(c: char) -> nat {
    let u = c as u32;
    if 48 <= u <= 57 {
        (u - 48) as nat
    } else if 97 <= u <= 102 {
        (u - 87) as nat
    } else {
        16
    }
}

/// Whether every character of `t` is a lower-case digit of the radix.
pub open spec fn is_radix_text(t: Seq<char>, radix: nat) -> bool {
    forall|i: int| 0 <= i < t.len() ==> char_value(#[trigger] t[i]) < radix
}

/// The number that the digit text `t` denotes in the radix.
pub open spec fn text_value(t: Seq<char>, radix: nat) -> nat
    decreases t.len(),
{
    if t.len() == 0 {
        0
    } else {
        text_value(t.drop_last(), radix) * radix + char_value(t.last())
    }
}

/// A bit pattern below `modulus` read as a two's complement number.
pub open spec fn signed_of(v: int, modulus: int) -> int {
    if v >= modulus / 2 {
        v - modulus
    } else {
        v
    }
}

/// The number that a decimal text with an optional leading '-' denotes.
pub open spec fn dec_value(t: Seq<char>) -> int {
    if t.len() > 0 && t[0] == '-' {
        -(text_value(t.drop_first(), 10) as int)
    } else {
        text_value(t, 10) as int
    }
}

/// The length of `x` rendered by `{:0w}`: the width, or more where the
/// sign and the digits need more.
pub open spec fn dec_width(x: int, w: int) -> int {
    let n = (if x < 0 {
        1int
    } else {
        0int
    }) + dec_digits((if x < 0 {
        -x
    } else {
        x
    }) as nat).len();
    if n < w {
        w
    } else {
        n
    }
}

/// `t` is a faithful rendering of the `bits`-bit number `x` in the radix:
/// hex and binary texts have all the digits of the width and read back, as
/// two's complement, to `x`; decimal texts read back to `x` and are `w` wide
/// (or wider, where `x` needs more).
pub open spec fn reads_back(t: Seq<char>, x: int, r: Radix, hex_digits: nat, bits: nat, w: int, modulus: int) -> bool {
    match r {
        Radix::Hex => {
            &&& t.len() == hex_digits
            &&& is_radix_text(t, 16)
            &&& signed_of(text_value(t, 16) as int, modulus) == x
        },
        Radix::Bin => {
            &&& t.len() == bits
            &&& is_radix_text(t, 2)
            &&& signed_of(text_value(t, 2) as int, modulus) == x
        },
        Radix::Dec => {
            &&& dec_value(t) == x
            &&& t.len() == dec_width(x, w)
        },
    }
}

pub open spec fn word_reads_back(t: Seq<char>, x: i32, r: Radix) -> bool {
    reads_back(t, x as int, r, 8, 32, 10, 0x1_0000_0000)
}

pub open spec fn half_reads_back(t: Seq<char>, x: i16, r: Radix) -> bool {
    reads_back(t, x as int, r, 4, 16, 5, 0x1_0000)
}

pub open spec fn byte_reads_back(t: Seq<char>, x: i8, r: Radix) -> bool {
    reads_back(t, x as int, r, 2, 8, 3, 0x100)
}

pub proof fn lemma_char_value(d: nat)
    requires
        d < 16,
    ensures
        char_value(digit_char(d)) == d,
{
}

/// A fixed-width rendering has its width, consists of digits of the radix,
/// and reads back as the number modulo the radix to the width.
pub proof fn lemma_fixed_text(v: nat, radix: nat, w: nat)
    requires
        2 <= radix <= 16,
    ensures
        fixed_digits(v, radix, w).len() == w,
        is_radix_text(fixed_digits(v, radix, w), radix),
        text_value(fixed_digits(v, radix, w), radix) == v % power(radix, w),
    decreases w,
{
    if w > 0 {
        lemma_fixed_text(v / radix, radix, (w - 1) as nat);
        lemma_char_value(v % radix);
        let s = fixed_digits(v, radix, w);
        let p = fixed_digits(v / radix, radix, (w - 1) as nat);
        assert(s.drop_last() =~= p);
        assert forall|i: int| 0 <= i < s.len() implies char_value(#[trigger] s[i]) < radix by {
            if i < s.len() - 1 {
                assert(s[i] == p[i]);
            }
        }
        let z = power(radix, (w - 1) as nat);
        lemma_power_positive(radix, (w - 1) as nat);
        vstd::arithmetic::div_mod::lemma_breakdown(v as int, radix as int, z as int);
        assert(((v / radix) % z) * radix == radix * ((v / radix) % z)) by (nonlinear_arith);
    }
}

/// Decimal digit texts have the same value under both readings.
pub proof fn lemma_decimal_text(s: Seq<char>)
    requires
        all_digits(s, 10),
    ensures
        is_radix_text(s, 10),
        text_value(s, 10) == digits_value(s, 10),
    decreases s.len(),
{
    if s.len() > 0 {
        assert(all_digits(s.drop_last(), 10)) by {
            assert forall|i: int| 0 <= i < s.drop_last().len() implies crate::scan::is_digit(
                #[trigger] s.drop_last()[i],
                10,
            ) by {
                assert(s.drop_last()[i] == s[i]);
            }
        }
        lemma_decimal_text(s.drop_last());
        assert(crate::scan::is_digit(s[s.len() - 1], 10));
    }
    assert forall|i: int| 0 <= i < s.len() implies char_value(#[trigger] s[i]) < 10 by {
        assert(crate::scan::is_digit(s[i], 10));
    }
}

/// `{:0w}` reads back: its text denotes `x` and is `dec_width(x, w)` long.
pub proof fn lemma_dec_string(x: int, w: int)
    ensures
        dec_value(dec_string(x, w)) == x,
        dec_string(x, w).len() == dec_width(x, w),
{
    let n: nat = (if x < 0 {
        -x
    } else {
        x
    }) as nat;
    let d = dec_digits(n);
    lemma_dec_digits(n);
    let width = if x < 0 {
        w - 1
    } else {
        w
    };
    let p = pad_zeros(d, width);
    assert(all_digits(p, 10) && digits_value(p, 10) == n) by {
        if d.len() < width {
            lemma_leading_zeros((width - d.len()) as nat, d, 10);
        }
    }
    lemma_decimal_text(p);
    assert(p.len() >= 1);
    assert(crate::scan::is_digit(p[0], 10));
    if x < 0 {
        assert((seq!['-'] + p).drop_first() =~= p);
    }
}

/// Every word renders faithfully in every radix.
pub broadcast proof fn lemma_word_reads_back(x: i32, r: Radix)
    ensures
        #[trigger] word_reads_back(word_text(x, r), x, r),
{
    let v = (x as int % 0x1_0000_0000) as nat;
    match r {
        Radix::Hex => {
            assert(power(16, 8) == 0x1_0000_0000) by {
                reveal_with_fuel(power, 9);
            }
            lemma_fixed_text(v, 16, 8);
        },
        Radix::Bin => {
            assert(power(2, 32) == 0x1_0000_0000) by {
                reveal_with_fuel(power, 33);
            }
            lemma_fixed_text(v, 2, 32);
        },
        Radix::Dec => {
            lemma_dec_string(x as int, 10);
        },
    }
}

/// Every half word renders faithfully in every radix.
pub broadcast proof fn lemma_half_reads_back(x: i16, r: Radix)
    ensures
        #[trigger] half_reads_back(half_text(x, r), x, r),
{
    let v = (x as int % 0x1_0000) as nat;
    match r {
        Radix::Hex => {
            assert(power(16, 4) == 0x1_0000) by {
                reveal_with_fuel(power, 5);
            }
            lemma_fixed_text(v, 16, 4);
        },
        Radix::Bin => {
            assert(power(2, 16) == 0x1_0000) by {
                reveal_with_fuel(power, 17);
            }
            lemma_fixed_text(v, 2, 16);
        },
        Radix::Dec => {
            lemma_dec_string(x as int, 5);
        },
    }
}

/// Every byte renders faithfully in every radix.
pub broadcast proof fn lemma_byte_reads_back(x: i8, r: Radix)
    ensures
        #[trigger] byte_reads_back(byte_text(x, r), x, r),
{
    let v = (x as int % 0x100) as nat;
    match r {
        Radix::Hex => {
            assert(power(16, 2) == 0x100) by {
                reveal_with_fuel(power, 3);
            }
            lemma_fixed_text(v, 16, 2);
        },
        Radix::Bin => {
            assert(power(2, 8) == 0x100) by {
                reveal_with_fuel(power, 9);
            }
            lemma_fixed_text(v, 2, 8);
        },
        Radix::Dec => {
            lemma_dec_string(x as int, 3);
        },
    }
}

/// A flag renders as "1" or "0" in every radix.
pub broadcast proof fn lemma_flag_text(b: bool, r: Radix)
    ensures
        #[trigger] flag_text(b, r) == seq![
            if b {
                '1'
            } else {
                '0'
            },
        ],
{
    let v: nat = if b {
        1
    } else {
        0
    };
    lemma_char_value(v);
    assert(fixed_digits(v / 16, 16, 0) == Seq::<char>::empty());
    assert(fixed_digits(v / 2, 2, 0) == Seq::<char>::empty());
    assert(v % 16 == v && v % 2 == v);
    assert(fixed_digits(v, 16, 1) =~= seq![digit_char(v)]);
    assert(fixed_digits(v, 2, 1) =~= seq![digit_char(v)]);
    assert(digit_char(1) == '1' && digit_char(0) == '0');
    assert(dec_digits(v) =~= seq![digit_char(v)]);
    assert(pad_zeros(dec_digits(v), 1) == dec_digits(v));
}

/// A rendered machine state reads back, field by field and element by
/// element, as the state it renders (see `reads_back`).
pub proof fn lemma_state_text_reads_back(t: ProcessorText, s: ProcessorState, r: Radix)
    requires
        text_of(t, s, r),
    ensures
        t.rom@.len() == s.rom.len(),
        forall|i: int| 0 <= i < s.rom.len() ==> word_reads_back(#[trigger] t.rom@[i]@, s.rom[i], r),
        t.ram@.len() == s.ram.len(),
        forall|i: int| 0 <= i < s.ram.len() ==> word_reads_back(#[trigger] t.ram@[i]@, s.ram[i], r),
        t.decode.reg_bank@.len() == s.decode.reg_bank.len(),
        forall|i: int|
            0 <= i < s.decode.reg_bank.len() ==> word_reads_back(
                #[trigger] t.decode.reg_bank@[i]@,
                s.decode.reg_bank[i],
                r,
            ),
        word_reads_back(t.fetch.pc@, s.fetch.pc, r),
        word_reads_back(t.fetch.ir@, s.fetch.ir, r),
        word_reads_back(t.decode.long_imm@, s.decode.long_imm, r),
        word_reads_back(t.decode.ir@, s.decode.ir, r),
        word_reads_back(t.decode.a@, s.decode.a, r),
        word_reads_back(t.decode.b@, s.decode.b, r),
        word_reads_back(t.decode.wb@, s.decode.wb, r),
        word_reads_back(t.decode.wb_addr@, s.decode.wb_addr, r),
        word_reads_back(t.decode.pc@, s.decode.pc, r),
        word_reads_back(t.execute.long_imm@, s.execute.long_imm, r),
        word_reads_back(t.execute.a@, s.execute.a, r),
        word_reads_back(t.execute.b@, s.execute.b, r),
        word_reads_back(t.execute.pc@, s.execute.pc, r),
        word_reads_back(t.memory.long_imm@, s.memory.long_imm, r),
        word_reads_back(t.memory.data@, s.memory.data, r),
        word_reads_back(t.memory.addr@, s.memory.addr, r),
        word_reads_back(t.memory.data_out@, s.memory.data_out, r),
        word_reads_back(t.memory.pc@, s.memory.pc, r),
        word_reads_back(t.write_back.data@, s.write_back.data, r),
        half_reads_back(t.decode.imm@, s.decode.imm, r),
        half_reads_back(t.execute.imm@, s.execute.imm, r),
        half_reads_back(t.memory.imm@, s.memory.imm, r),
        byte_reads_back(t.decode.opcode@, s.decode.opcode, r),
        byte_reads_back(t.decode.r1@, s.decode.r1, r),
        byte_reads_back(t.decode.r2@, s.decode.r2, r),
        byte_reads_back(t.decode.r3@, s.decode.r3, r),
        byte_reads_back(t.decode.r4@, s.decode.r4, r),
        byte_reads_back(t.decode.r5@, s.decode.r5, r),
        byte_reads_back(t.execute.opcode@, s.execute.opcode, r),
        byte_reads_back(t.execute.r1@, s.execute.r1, r),
        byte_reads_back(t.execute.r2@, s.execute.r2, r),
        byte_reads_back(t.execute.r3@, s.execute.r3, r),
        byte_reads_back(t.execute.r4@, s.execute.r4, r),
        byte_reads_back(t.execute.r5@, s.execute.r5, r),
        byte_reads_back(t.memory.opcode@, s.memory.opcode, r),
        byte_reads_back(t.memory.r1@, s.memory.r1, r),
        byte_reads_back(t.write_back.opcode@, s.write_back.opcode, r),
        byte_reads_back(t.write_back.r1@, s.write_back.r1, r),
        t.decode.write_en@ == seq![if s.decode.write_en { '1' } else { '0' }],
        t.execute.br_flag@ == seq![if s.execute.br_flag { '1' } else { '0' }],
        t.memory.nwe@ == seq![if s.memory.nwe { '1' } else { '0' }],
        t.memory.br_flag@ == seq![if s.memory.br_flag { '1' } else { '0' }],
        t.write_back.write_en@ == seq![if s.write_back.write_en { '1' } else { '0' }],
        word_reads_back(t.changed_ramfield.0@, s.changed_ramfield.0, r),
        word_reads_back(t.changed_ramfield.1@, s.changed_ramfield.1, r),
{
    broadcast use lemma_word_reads_back, lemma_half_reads_back, lemma_byte_reads_back, lemma_flag_text;

    assert forall|i: int| 0 <= i < s.rom.len() implies word_reads_back(#[trigger] t.rom@[i]@, s.rom[i], r) by {
        assert(t.rom@[i]@ == word_text(s.rom[i], r));
    }
    assert forall|i: int| 0 <= i < s.ram.len() implies word_reads_back(#[trigger] t.ram@[i]@, s.ram[i], r) by {
        assert(t.ram@[i]@ == word_text(s.ram[i], r));
    }
    assert forall|i: int|
        0 <= i < s.decode.reg_bank.len() implies word_reads_back(
        #[trigger] t.decode.reg_bank@[i]@,
        s.decode.reg_bank[i],
        r,
    ) by {
        assert(t.decode.reg_bank@[i]@ == word_text(s.decode.reg_bank[i], r));
    }
}

} // verus!
