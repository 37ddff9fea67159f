//! Scanning character sequences: searching, trimming and reading numbers,
//! with the meaning that Rust's `str` methods give these operations.

use vstd::prelude::*;

verus! {

/// Index of the first `c` in `s`, or `s.len()` where there is none.
pub open spec fn find_char(s: Seq<char>, c: char) -> int
    decreases s.len(),
{
    if s.len() == 0 {
        0
    } else if s[0] == c {
        0
    } else {
        1 + find_char(s.drop_first(), c)
    }
}

/// Index of the first `"//"` in `s`, or `s.len()` where there is none.
pub open spec fn find_comment(s: Seq<char>) -> int
    decreases s.len(),
{
    if s.len() < 2 {
        s.len() as int
    } else if s[0] == '/' && s[1] == '/' {
        0
    } else {
        1 + find_comment(s.drop_first())
    }
}

/// White space as `char::is_whitespace` knows it (the Unicode White_Space
/// property).
pub open spec fn is_whitespace(c: char) -> bool {
    let u = c as u32;
    ||| 9 <= u <= 13
    ||| u == 32
    ||| u == 0x85
    ||| u == 0xA0
    ||| u == 0x1680
    ||| 0x2000 <= u <= 0x200A
    ||| u == 0x2028
    ||| u == 0x2029
    ||| u == 0x202F
    ||| u == 0x205F
    ||| u == 0x3000
}

/// `s` without its leading white space.
pub open spec fn trim_start(s: Seq<char>) -> Seq<char>
    decreases s.len(),
{
    if s.len() > 0 && is_whitespace(s[0]) {
        trim_start(s.drop_first())
    } else {
        s
    }
}

/// `s` without its trailing white space.
pub open spec fn trim_end(s: Seq<char>) -> Seq<char>
    decreases s.len(),
{
    if s.len() > 0 && is_whitespace(s.last()) {
        trim_end(s.drop_last())
    } else {
        s
    }
}

/// `s` without leading and trailing white space, as `str::trim` gives it.
pub open spec fn trim(s: Seq<char>) -> Seq<char> {
    trim_end(trim_start(s))
}

/// Whether `c` is an ASCII digit of the given radix (at most 10).
pub open spec fn is_digit(c: char, radix: nat) -> bool {
    48 <= (c as u32) < 48 + radix
}

pub open spec fn digit_of(c: char) -> nat {
    ((c as u32) - 48) as nat
}

pub open spec fn all_digits(s: Seq<char>, radix: nat) -> bool {
    forall|i: int| 0 <= i < s.len() ==> is_digit(#[trigger] s[i], radix)
}

/// The number that the digits `s` denote in the given radix.
pub open spec fn digits_value(s: Seq<char>, radix: nat) -> nat
    decreases s.len(),
{
    if s.len() == 0 {
        0
    } else {
        digits_value(s.drop_last(), radix) * radix + digit_of(s.last())
    }
}

/// What `s.parse::<u32>()` gives: an optional `+`, then at least one decimal
/// digit, denoting at most `u32::MAX`.
pub open spec fn parse_u32_dec(s: Seq<char>) -> Option<u32> {
    let body = if s.len() > 0 && s[0] == '+' {
        s.drop_first()
    } else {
        s
    };
    if body.len() > 0 && all_digits(body, 10) && digits_value(body, 10) <= u32::MAX {
        Some(digits_value(body, 10) as u32)
    } else {
        None
    }
}

/// What `i32::from_str_radix(s, 2)` gives: an optional sign, then at least one
/// binary digit, denoting a number in the range of `i32`.
pub open spec fn parse_i32_bin(s: Seq<char>) -> Option<i32> {
    let signed = s.len() > 0 && (s[0] == '+' || s[0] == '-');
    let negative = s.len() > 0 && s[0] == '-';
    let body = if signed {
        s.drop_first()
    } else {
        s
    };
    let v = digits_value(body, 2);
    if body.len() == 0 || !all_digits(body, 2) {
        None
    } else if negative {
        if v <= 0x8000_0000 {
            Some((-v) as i32)
        } else {
            None
        }
    } else {
        if v <= 0x7FFF_FFFF {
            Some(v as i32)
        } else {
            None
        }
    }
}

pub proof fn lemma_find_char(s: Seq<char>, c: char)
    ensures
        0 <= find_char(s, c) <= s.len(),
        find_char(s, c) < s.len() ==> s[find_char(s, c)] == c,
        forall|j: int| 0 <= j < find_char(s, c) ==> s[j] != c,
    decreases s.len(),
{
    if s.len() > 0 && s[0] != c {
        lemma_find_char(s.drop_first(), c);
        assert forall|j: int| 0 <= j < find_char(s, c) implies s[j] != c by {
            if j > 0 {
                assert(s[j] == s.drop_first()[j - 1]);
            }
        }
    }
}

pub proof fn lemma_find_comment(s: Seq<char>)
    ensures
        0 <= find_comment(s) <= s.len(),
        find_comment(s) < s.len() ==> find_comment(s) + 1 < s.len() && s[find_comment(s)] == '/'
            && s[find_comment(s) + 1] == '/',
    decreases s.len(),
{
    if s.len() >= 2 && !(s[0] == '/' && s[1] == '/') {
        lemma_find_comment(s.drop_first());
    }
}

/// A prefix of digits denotes no more than the whole.
pub proof fn lemma_digits_prefix(s: Seq<char>, j: int, radix: nat)
    requires
        0 <= j <= s.len(),
        radix >= 1,
    ensures
        digits_value(s.subrange(0, j), radix) <= digits_value(s, radix),
    decreases s.len() - j,
{
    if j < s.len() {
        lemma_digits_prefix(s.drop_last(), j, radix);
        assert(s.drop_last().subrange(0, j) =~= s.subrange(0, j));
        let v = digits_value(s.drop_last(), radix);
        assert(v * radix >= v) by (nonlinear_arith)
            requires
                radix >= 1,
        ;
    } else {
        assert(s.subrange(0, j) =~= s);
    }
}

/// Whether `c` is white space: exactly `is_whitespace`.
pub fn char_is_whitespace(c: char) -> (b: bool)
    ensures
        b == is_whitespace(c),
{
    let u = c as u32;
    (9 <= u && u <= 13) || u == 32 || u == 0x85 || u == 0xA0 || u == 0x1680 || (0x2000 <= u && u
        <= 0x200A) || u == 0x2028 || u == 0x2029 || u == 0x202F || u == 0x205F || u == 0x3000
}

/// The position of the first `c` in `s[lo..hi]`, or `hi`.
pub fn find_char_in(s: &Vec<char>, lo: usize, hi: usize, c: char) -> (k: usize)
    requires
        lo <= hi <= s.len(),
    ensures
        k == lo + find_char(s@.subrange(lo as int, hi as int), c),
        lo <= k <= hi,
{
    let mut i = lo;
    while i < hi
        invariant
            lo <= i <= hi <= s.len(),
            find_char(s@.subrange(lo as int, hi as int), c) == (i - lo) + find_char(
                s@.subrange(i as int, hi as int),
                c,
            ),
        decreases hi - i,
    {
        if s[i] == c {
            return i;
        }
        assert(s@.subrange(i as int, hi as int).drop_first() =~= s@.subrange(i + 1, hi as int));
        i = i + 1;
    }
    i
}

/// The position of the first `"//"` in `s[lo..hi]`, or `hi`.
pub fn find_comment_in(s: &Vec<char>, lo: usize, hi: usize) -> (k: usize)
    requires
        lo <= hi <= s.len(),
    ensures
        k == lo + find_comment(s@.subrange(lo as int, hi as int)),
        lo <= k <= hi,
{
    let mut i = lo;
    while hi - i >= 2
        invariant
            lo <= i <= hi <= s.len(),
            find_comment(s@.subrange(lo as int, hi as int)) == (i - lo) + find_comment(
                s@.subrange(i as int, hi as int),
            ),
        decreases hi - i,
    {
        if s[i] == '/' && s[i + 1] == '/' {
            return i;
        }
        assert(s@.subrange(i as int, hi as int).drop_first() =~= s@.subrange(i + 1, hi as int));
        i = i + 1;
    }
    hi
}

/// The bounds of `s[lo..hi]` trimmed of white space.
pub fn trim_in(s: &Vec<char>, lo: usize, hi: usize) -> (r: (usize, usize))
    requires
        lo <= hi <= s.len(),
    ensures
        lo <= r.0 <= r.1 <= hi,
        s@.subrange(r.0 as int, r.1 as int) == trim(s@.subrange(lo as int, hi as int)),
{
    let mut a = lo;
    while a < hi && char_is_whitespace(s[a])
        invariant
            lo <= a <= hi <= s.len(),
            trim_start(s@.subrange(lo as int, hi as int)) == trim_start(
                s@.subrange(a as int, hi as int),
            ),
        decreases hi - a,
    {
        assert(s@.subrange(a as int, hi as int).drop_first() =~= s@.subrange(a + 1, hi as int));
        a = a + 1;
    }
    let mut b = hi;
    while b > a && char_is_whitespace(s[b - 1])
        invariant
            lo <= a <= b <= hi <= s.len(),
            trim_start(s@.subrange(lo as int, hi as int)) == s@.subrange(a as int, hi as int),
            trim(s@.subrange(lo as int, hi as int)) == trim_end(s@.subrange(a as int, b as int)),
        decreases b - a,
    {
        assert(s@.subrange(a as int, b as int).drop_last() =~= s@.subrange(a as int, b - 1));
        b = b - 1;
    }
    (a, b)
}

/// Whether every character of `s[lo..hi]` is a digit of the radix.
pub fn all_digits_in(s: &Vec<char>, lo: usize, hi: usize, radix: u32) -> (b: bool)
    requires
        lo <= hi <= s.len(),
        radix <= 10,
    ensures
        b == all_digits(s@.subrange(lo as int, hi as int), radix as nat),
{
    let mut i = lo;
    while i < hi
        invariant
            lo <= i <= hi <= s.len(),
            radix <= 10,
            forall|j: int| lo <= j < i ==> is_digit(#[trigger] s@[j], radix as nat),
        decreases hi - i,
    {
        let u = s[i] as u32;
        if !(48 <= u && u < 48 + radix) {
            assert(s@.subrange(lo as int, hi as int)[i - lo] == s@[i as int]);
            return false;
        }
        i = i + 1;
    }
    assert forall|j: int| 0 <= j < hi - lo implies is_digit(
        #[trigger] s@.subrange(lo as int, hi as int)[j],
        radix as nat,
    ) by {
        assert(s@.subrange(lo as int, hi as int)[j] == s@[lo + j]);
    }
    true
}

/// The number denoted by the digits `s[lo..hi]`, if it is at most `limit`.
pub fn digits_value_in(s: &Vec<char>, lo: usize, hi: usize, radix: u64, limit: u64) -> (r: Option<u64>)
    requires
        lo <= hi <= s.len(),
        2 <= radix <= 10,
        limit <= 0x1_0000_0000,
        all_digits(s@.subrange(lo as int, hi as int), radix as nat),
    ensures
        r matches Some(v) ==> v == digits_value(s@.subrange(lo as int, hi as int), radix as nat)
            && v <= limit,
        r is None ==> digits_value(s@.subrange(lo as int, hi as int), radix as nat) > limit,
{
    let ghost whole = s@.subrange(lo as int, hi as int);
    let mut acc: u64 = 0;
    let mut i = lo;
    assert(s@.subrange(lo as int, lo as int) =~= Seq::<char>::empty());
    while i < hi
        invariant
            lo <= i <= hi <= s.len(),
            2 <= radix <= 10,
            limit <= 0x1_0000_0000,
            whole == s@.subrange(lo as int, hi as int),
            all_digits(whole, radix as nat),
            acc == digits_value(s@.subrange(lo as int, i as int), radix as nat),
            acc <= limit,
        decreases hi - i,
    {
        assert(whole[i - lo] == s@[i as int]);
        let d = (s[i] as u32 - 48) as u64;
        assert(acc * radix <= 0x1_0000_0000 * 10) by (nonlinear_arith)
            requires
                acc <= 0x1_0000_0000,
                radix <= 10,
        ;
        let next = acc * radix + d;
        proof {
            assert(s@.subrange(lo as int, i + 1).drop_last() =~= s@.subrange(lo as int, i as int));
            assert(s@.subrange(lo as int, i + 1).last() == s@[i as int]);
        }
        if next > limit {
            proof {
                assert(whole.subrange(0, i + 1 - lo) =~= s@.subrange(lo as int, i + 1));
                lemma_digits_prefix(whole, i + 1 - lo, radix as nat);
            }
            return None;
        }
        acc = next;
        i = i + 1;
    }
    Some(acc)
}

/// `s[lo..hi].parse::<u32>()`: exactly `parse_u32_dec`.
pub fn parse_u32_dec_in(s: &Vec<char>, lo: usize, hi: usize) -> (r: Option<u32>)
    requires
        lo <= hi <= s.len(),
    ensures
        r == parse_u32_dec(s@.subrange(lo as int, hi as int)),
{
    let ghost t = s@.subrange(lo as int, hi as int);
    let mut b = lo;
    if hi > lo && s[lo] == '+' {
        b = lo + 1;
        assert(t.drop_first() =~= s@.subrange(b as int, hi as int));
    } else {
        assert(t =~= s@.subrange(b as int, hi as int));
    }
    if b == hi {
        return None;
    }
    if !all_digits_in(s, b, hi, 10) {
        return None;
    }
    match digits_value_in(s, b, hi, 10, 0xFFFF_FFFF) {
        Some(v) => Some(v as u32),
        None => None,
    }
}

/// `i32::from_str_radix(s[lo..hi], 2)`: exactly `parse_i32_bin`.
pub fn parse_i32_bin_in(s: &Vec<char>, lo: usize, hi: usize) -> (r: Option<i32>)
    requires
        lo <= hi <= s.len(),
    ensures
        r == parse_i32_bin(s@.subrange(lo as int, hi as int)),
{
    let ghost t = s@.subrange(lo as int, hi as int);
    let mut b = lo;
    let mut negative = false;
    if hi > lo && (s[lo] == '+' || s[lo] == '-') {
        negative = s[lo] == '-';
        b = lo + 1;
        assert(t.drop_first() =~= s@.subrange(b as int, hi as int));
    } else {
        assert(t =~= s@.subrange(b as int, hi as int));
    }
    if b == hi {
        return None;
    }
    if !all_digits_in(s, b, hi, 2) {
        return None;
    }
    if negative {
        match digits_value_in(s, b, hi, 2, 0x8000_0000) {
            Some(v) => {
                let w: i64 = -(v as i64);
                Some(w as i32)
            },
            None => None,
        }
    } else {
        match digits_value_in(s, b, hi, 2, 0x7FFF_FFFF) {
            Some(v) => Some(v as i32),
            None => None,
        }
    }
}

} // verus!
