//! Rendering numbers as text, the way the `format!` specifications
//! `{:0Nx}`, `{:0Nb}` and `{:0N}` do.

use vstd::prelude::*;

verus! {

/// The character for a digit below 16 (lower-case letters above 9).
pub open spec fn digit_char(d: nat) -> char {
    if d < 10 {
        (48 + d) as char
    } else {
        (87 + d) as char
    }
}

/// The last `w` digits of `v` in the given radix, most significant first,
/// with leading zeros.
pub open spec fn fixed_digits(v: nat, radix: nat, w: nat) -> Seq<char>
    decreases w,
{
    if w == 0 {
        Seq::empty()
    } else {
        fixed_digits(v / radix, radix, (w - 1) as nat).push(digit_char(v % radix))
    }
}

/// Calls `String::push`, which appends one character to the string.
#[verifier::external_body]
fn push_char(s: &mut String, c: char)
    ensures
        final(s)@ == old(s)@.push(c),
{
    s.push(c);
}

fn digit_char_exec(d: u64) -> (c: char)
    requires
        d < 16,
    ensures
        c == digit_char(d as nat),
{
    if d < 10 {
        ((48 + d) as u8) as char
    } else {
        ((87 + d) as u8) as char
    }
}

fn push_fixed_digits(out: &mut String, v: u64, radix: u64, w: usize)
    requires
        2 <= radix <= 16,
    ensures
        final(out)@ == old(out)@ + fixed_digits(v as nat, radix as nat, w as nat),
    decreases w,
{
    if w > 0 {
        push_fixed_digits(out, v / radix, radix, w - 1);
        push_char(out, digit_char_exec(v % radix));
    }
}

/// The decimal digits of `n`, without leading zeros ("0" for zero).
pub open spec fn dec_digits(n: nat) -> Seq<char>
    decreases n,
{
    if n < 10 {
        seq![digit_char(n)]
    } else {
        dec_digits(n / 10).push(digit_char(n % 10))
    }
}

/// `s` with zeros put in front of it up to the width `w`.
pub open spec fn pad_zeros(s: Seq<char>, w: int) -> Seq<char> {
    if s.len() < w {
        Seq::new((w - s.len()) as nat, |i: int| '0') + s
    } else {
        s
    }
}

/// `x` in decimal at least `w` characters wide, zeros after the sign: `{:0w}`.
pub open spec fn dec_string(x: int, w: int) -> Seq<char> {
    if x < 0 {
        seq!['-'] + pad_zeros(dec_digits((-x) as nat), w - 1)
    } else {
        pad_zeros(dec_digits(x as nat), w)
    }
}

/// How numbers are rendered.
#[derive(Clone, Copy, Debug, PartialEq, Eq, Structural)]
pub enum Radix {
    /// Lower-case hexadecimal of the bit pattern, all digits of the type.
    Hex,
    /// Signed decimal, zero-padded to the widest value of the type.
    Dec,
    /// Binary of the bit pattern, all digits of the type.
    Bin,
}

/// A 32-bit word as text: `{:08x}`, `{:010}` or `{:032b}`.
pub open spec fn word_text(x: i32, r: Radix) -> Seq<char> {
    match r {
        Radix::Hex => fixed_digits((x as int % 0x1_0000_0000) as nat, 16, 8),
        Radix::Dec => dec_string(x as int, 10),
        Radix::Bin => fixed_digits((x as int % 0x1_0000_0000) as nat, 2, 32),
    }
}

/// A 16-bit number as text: `{:04x}`, `{:05}` or `{:016b}`.
pub open spec fn half_text(x: i16, r: Radix) -> Seq<char> {
    match r {
        Radix::Hex => fixed_digits((x as int % 0x1_0000) as nat, 16, 4),
        Radix::Dec => dec_string(x as int, 5),
        Radix::Bin => fixed_digits((x as int % 0x1_0000) as nat, 2, 16),
    }
}

/// An 8-bit number as text: `{:02x}`, `{:03}` or `{:08b}`.
pub open spec fn byte_text(x: i8, r: Radix) -> Seq<char> {
    match r {
        Radix::Hex => fixed_digits((x as int % 0x100) as nat, 16, 2),
        Radix::Dec => dec_string(x as int, 3),
        Radix::Bin => fixed_digits((x as int % 0x100) as nat, 2, 8),
    }
}

/// A flag, taken as the number 0 or 1, as text: `{:01x}`, `{:01}` or `{:01b}`.
pub open spec fn flag_text(b: bool, r: Radix) -> Seq<char> {
    let v: nat = if b {
        1
    } else {
        0
    };
    match r {
        Radix::Hex => fixed_digits(v, 16, 1),
        Radix::Dec => dec_string(v as int, 1),
        Radix::Bin => fixed_digits(v, 2, 1),
    }
}

fn push_dec_digits(out: &mut Vec<char>, n: u64)
    ensures
        final(out)@ == old(out)@ + dec_digits(n as nat),
    decreases n,
{
    if n < 10 {
        out.push(digit_char_exec(n));
        assert(seq![digit_char(n as nat)] =~= Seq::<char>::empty().push(digit_char(n as nat)));
    } else {
        push_dec_digits(out, n / 10);
        out.push(digit_char_exec(n % 10));
    }
}

/// `x` rendered by `{:0w}`: exactly `dec_string`.
fn dec_text(x: i64, w: usize) -> (s: String)
    requires
        x > i64::MIN,
        w >= 1,
    ensures
        s@ == dec_string(x as int, w as int),
{
    let negative = x < 0;
    let n: u64 = if negative {
        (-x) as u64
    } else {
        x as u64
    };
    let mut digits: Vec<char> = Vec::new();
    push_dec_digits(&mut digits, n);
    assert(digits@ =~= dec_digits(n as nat));
    let width = if negative {
        w - 1
    } else {
        w
    };
    let mut s = String::new();
    if negative {
        push_char(&mut s, '-');
    }
    let ghost start = s@;
    let mut k: usize = digits.len();
    while k < width
        invariant
            digits.len() <= k,
            k <= width || k == digits.len(),
            s@ == start + Seq::new((k - digits.len()) as nat, |i: int| '0'),
        decreases width - k,
    {
        push_char(&mut s, '0');
        assert(s@ =~= start + Seq::new((k + 1 - digits.len()) as nat, |i: int| '0'));
        k = k + 1;
    }
    let ghost padded = s@;
    let mut i: usize = 0;
    while i < digits.len()
        invariant
            i <= digits.len(),
            s@ == padded + digits@.subrange(0, i as int),
        decreases digits.len() - i,
    {
        push_char(&mut s, digits[i]);
        assert(s@ =~= padded + digits@.subrange(0, i + 1));
        i = i + 1;
    }
    proof {
        assert(digits@.subrange(0, digits.len() as int) =~= digits@);
        let d = dec_digits(n as nat);
        if negative {
            assert((-(x as int)) as nat == n as nat);
            assert(Seq::new(0, |i: int| '0') =~= Seq::<char>::empty());
            assert(s@ =~= seq!['-'] + pad_zeros(d, w - 1));
        } else {
            assert(s@ =~= pad_zeros(d, w as int));
        }
    }
    s
}

/// The last `w` digits of `v` as a string.
fn fixed_text(v: u64, radix: u64, w: usize) -> (s: String)
    requires
        2 <= radix <= 16,
    ensures
        s@ == fixed_digits(v as nat, radix as nat, w as nat),
{
    let mut s = String::new();
    push_fixed_digits(&mut s, v, radix, w);
    assert(s@ =~= fixed_digits(v as nat, radix as nat, w as nat));
    s
}

/// A 32-bit word rendered in the radix: exactly `word_text`.
pub fn format_word(x: i32, r: Radix) -> (s: String)
    ensures
        s@ == word_text(x, r),
{
    let bits: u64 = (x as u32) as u64;
    assert((x as u32) as int == (x as int) % 0x1_0000_0000) by (bit_vector);
    match r {
        Radix::Hex => fixed_text(bits, 16, 8),
        Radix::Dec => dec_text(x as i64, 10),
        Radix::Bin => fixed_text(bits, 2, 32),
    }
}

/// A 16-bit number rendered in the radix: exactly `half_text`.
pub fn format_half(x: i16, r: Radix) -> (s: String)
    ensures
        s@ == half_text(x, r),
{
    let bits: u64 = (x as u16) as u64;
    assert((x as u16) as int == (x as int) % 0x1_0000) by (bit_vector);
    match r {
        Radix::Hex => fixed_text(bits, 16, 4),
        Radix::Dec => dec_text(x as i64, 5),
        Radix::Bin => fixed_text(bits, 2, 16),
    }
}

/// An 8-bit number rendered in the radix: exactly `byte_text`.
pub fn format_byte(x: i8, r: Radix) -> (s: String)
    ensures
        s@ == byte_text(x, r),
{
    let bits: u64 = (x as u8) as u64;
    assert((x as u8) as int == (x as int) % 0x100) by (bit_vector);
    match r {
        Radix::Hex => fixed_text(bits, 16, 2),
        Radix::Dec => dec_text(x as i64, 3),
        Radix::Bin => fixed_text(bits, 2, 8),
    }
}

/// A flag rendered in the radix: exactly `flag_text`.
pub fn format_flag(b: bool, r: Radix) -> (s: String)
    ensures
        s@ == flag_text(b, r),
{
    let v: u64 = if b {
        1
    } else {
        0
    };
    match r {
        Radix::Hex => fixed_text(v, 16, 1),
        Radix::Dec => dec_text(v as i64, 1),
        Radix::Bin => fixed_text(v, 2, 1),
    }
}

/// Every word of `v` rendered in the radix.
pub fn format_words(v: &Vec<i32>, r: Radix) -> (out: Vec<String>)
    ensures
        out.len() == v.len(),
        forall|i: int| 0 <= i < v.len() ==> (#[trigger] out@[i])@ == word_text(v@[i], r),
{
    let mut out: Vec<String> = Vec::new();
    let mut i: usize = 0;
    while i < v.len()
        invariant
            i <= v.len(),
            out.len() == i,
            forall|j: int| 0 <= j < i ==> (#[trigger] out@[j])@ == word_text(v@[j], r),
        decreases v.len() - i,
    {
        out.push(format_word(v[i], r));
        i = i + 1;
    }
    out
}

} // verus!
