//! Reading a ROM image from its text.
//!
//! A ROM image is a text of lines `N WORD`, optionally followed by a comment
//! after `//`: `N` is a decimal word address and `WORD` the instruction word
//! in binary. Each line stores its word at its address; a line whose word is
//! empty (only a comment) stores nothing.

use vstd::prelude::*;
use crate::scan::{
    find_char, find_comment, trim, parse_u32_dec, parse_i32_bin, lemma_find_char,
    find_char_in, find_comment_in, trim_in, parse_u32_dec_in, parse_i32_bin_in,
};

verus! {

/// Why a ROM image could not be read.
#[derive(Clone, Copy, Debug, PartialEq, Eq, Structural)]
pub enum RomErrorKind {
    /// The text before the first space is not a decimal `u32`.
    BadLineNumber,
    /// The line holds no space, so there is no word.
    MissingWord,
    /// The word is not a binary number in the range of `i32`.
    BadWord,
    /// The address lies beyond the ROM.
    LineNumberOutOfRange,
}

/// The first line (counted from 0) of a ROM image that could not be read, and why.
#[derive(Clone, Copy, Debug, PartialEq, Eq, Structural)]
pub struct RomError {
    pub line: usize,
    pub kind: RomErrorKind,
}

/// `l` without one trailing carriage return.
pub open spec fn strip_cr(l: Seq<char>) -> Seq<char> {
    if l.len() > 0 && l.last() == '\r' {
        l.drop_last()
    } else {
        l
    }
}

/// The lines of a text as `BufRead::lines` yields them: split at each `'\n'`,
/// a `'\r'` before the `'\n'` removed, and no empty line after a final `'\n'`.
pub open spec fn lines_of(t: Seq<char>) -> Seq<Seq<char>>
    decreases t.len(),
{
    if t.len() == 0 {
        Seq::empty()
    } else {
        let k = find_char(t, '\n');
        if k < t.len() {
            proof {
                lemma_find_char(t, '\n');
            }
            seq![strip_cr(t.subrange(0, k))] + lines_of(t.subrange(k + 1, t.len() as int))
        } else {
            seq![t]
        }
    }
}

/// The text of a line before its first space: the address.
pub open spec fn first_field(l: Seq<char>) -> Seq<char> {
    l.subrange(0, find_char(l, ' '))
}

/// Whether a line holds a space, and so a second field.
pub open spec fn has_second_field(l: Seq<char>) -> bool {
    find_char(l, ' ') < l.len()
}

/// The text of a line between its first and second space (or its end).
pub open spec fn second_field(l: Seq<char>) -> Seq<char> {
    let rest = l.subrange(find_char(l, ' ') + 1, l.len() as int);
    rest.subrange(0, find_char(rest, ' '))
}

/// The word of a line: its second field before any `"//"`, trimmed.
pub open spec fn line_word(l: Seq<char>) -> Seq<char> {
    let f = second_field(l);
    trim(f.subrange(0, find_comment(f)))
}

/// What a line says: an address and a word, nothing (an empty word), or why
/// it cannot be read.
pub open spec fn parse_line(l: Seq<char>) -> Result<Option<(u32, i32)>, RomErrorKind> {
    match parse_u32_dec(first_field(l)) {
        None => Err(RomErrorKind::BadLineNumber),
        Some(n) => if !has_second_field(l) {
            Err(RomErrorKind::MissingWord)
        } else if line_word(l).len() == 0 {
            Ok(None)
        } else {
            match parse_i32_bin(line_word(l)) {
                None => Err(RomErrorKind::BadWord),
                Some(v) => Ok(Some((n, v))),
            }
        },
    }
}

/// The ROM after the lines are applied in order to `rom`, where `index` is the
/// number of the first of them; or the first line that fails, with its reason.
pub open spec fn apply_lines(lines: Seq<Seq<char>>, rom: Seq<i32>, index: int) -> Result<
    Seq<i32>,
    (int, RomErrorKind),
>
    decreases lines.len(),
{
    if lines.len() == 0 {
        Ok(rom)
    } else {
        match parse_line(lines[0]) {
            Err(kind) => Err((index, kind)),
            Ok(None) => apply_lines(lines.drop_first(), rom, index + 1),
            Ok(Some((n, v))) => if n >= rom.len() {
                Err((index, RomErrorKind::LineNumberOutOfRange))
            } else {
                apply_lines(lines.drop_first(), rom.update(n as int, v), index + 1)
            },
        }
    }
}

/// The ROM of `rom_size` words that a text describes: zero where no line
/// stores a word, and the word of the last line that names an address.
pub open spec fn rom_from_text(t: Seq<char>, rom_size: nat) -> Result<Seq<i32>, (int, RomErrorKind)> {
    apply_lines(lines_of(t), Seq::new(rom_size, |i: int| 0i32), 0)
}

/// Whether an exec result is the one that `spec` describes.
pub open spec fn rom_result_is(res: Result<Vec<i32>, RomError>, spec: Result<Seq<i32>, (int, RomErrorKind)>) -> bool {
    match spec {
        Ok(rom) => res matches Ok(v) && v@ == rom,
        Err((line, kind)) => res matches Err(e) && e.line == line && e.kind == kind,
    }
}

/// The characters of a text.
fn chars_of(text: &str) -> (v: Vec<char>)
    ensures
        v@ == text@,
{
    let mut v: Vec<char> = Vec::new();
    for c in it: text.chars()
        invariant
            v@ == it.seq().take(it.index()),
    {
        v.push(c);
    }
    assert(v@ =~= text@);
    v
}

/// A copy of `s[lo..hi]`.
fn copy_range(s: &Vec<char>, lo: usize, hi: usize) -> (v: Vec<char>)
    requires
        lo <= hi <= s.len(),
    ensures
        v@ == s@.subrange(lo as int, hi as int),
{
    let mut v: Vec<char> = Vec::new();
    let mut i = lo;
    while i < hi
        invariant
            lo <= i <= hi <= s.len(),
            v@ == s@.subrange(lo as int, i as int),
        decreases hi - i,
    {
        v.push(s[i]);
        assert(v@ =~= s@.subrange(lo as int, i + 1));
        i = i + 1;
    }
    v
}

/// Splits a text into its lines: exactly `lines_of`.
pub fn split_lines(t: &Vec<char>) -> (lines: Vec<Vec<char>>)
    ensures
        lines@.len() == lines_of(t@).len(),
        forall|i: int| 0 <= i < lines@.len() ==> (#[trigger] lines@[i])@ == lines_of(t@)[i],
{
    let mut lines: Vec<Vec<char>> = Vec::new();
    let ghost mut done: Seq<Seq<char>> = Seq::empty();
    let mut pos: usize = 0;
    let n = t.len();
    proof {
        assert(t@.subrange(0, n as int) =~= t@);
        assert(done + lines_of(t@) =~= lines_of(t@));
    }
    while pos < n
        invariant
            pos <= n == t.len(),
            lines@.len() == done.len(),
            forall|i: int| 0 <= i < lines@.len() ==> (#[trigger] lines@[i])@ == done[i],
            lines_of(t@) == done + lines_of(t@.subrange(pos as int, n as int)),
        decreases n - pos,
    {
        let ghost rest = t@.subrange(pos as int, n as int);
        let k = find_char_in(t, pos, n, '\n');
        proof {
            lemma_find_char(rest, '\n');
        }
        if k < n {
            let mut end = k;
            if end > pos && t[end - 1] == '\r' {
                end = end - 1;
            }
            let line = copy_range(t, pos, end);
            proof {
                assert(rest.subrange(0, k - pos) =~= t@.subrange(pos as int, k as int));
                assert(rest.subrange(k - pos + 1, rest.len() as int) =~= t@.subrange(k + 1, n as int));
                if k > pos && t@[k - 1] == '\r' {
                    assert(t@.subrange(pos as int, k as int).drop_last() =~= t@.subrange(pos as int, end as int));
                }
                done = done.push(line@);
                assert(lines_of(t@) == done + lines_of(t@.subrange(k + 1, n as int)));
            }
            lines.push(line);
            pos = k + 1;
        } else {
            let line = copy_range(t, pos, n);
            proof {
                done = done.push(line@);
                assert(t@.subrange(n as int, n as int) =~= Seq::<char>::empty());
                assert(lines_of(t@) == done + lines_of(t@.subrange(n as int, n as int)));
            }
            lines.push(line);
            pos = n;
        }
    }
    proof {
        assert(t@.subrange(n as int, n as int) =~= Seq::<char>::empty());
        assert(done + Seq::<Seq<char>>::empty() =~= done);
    }
    lines
}

/// Reads one line: exactly `parse_line`.
pub fn read_line(l: &Vec<char>) -> (r: Result<Option<(u32, i32)>, RomErrorKind>)
    ensures
        r == parse_line(l@),
{
    let len = l.len();
    let k1 = find_char_in(l, 0, len, ' ');
    assert(l@.subrange(0, len as int) =~= l@);
    let line_nr = match parse_u32_dec_in(l, 0, k1) {
        None => {
            return Err(RomErrorKind::BadLineNumber);
        },
        Some(n) => n,
    };
    if k1 == len {
        return Err(RomErrorKind::MissingWord);
    }
    let k2 = find_char_in(l, k1 + 1, len, ' ');
    let c = find_comment_in(l, k1 + 1, k2);
    let (a, b) = trim_in(l, k1 + 1, c);
    proof {
        let rest = l@.subrange(k1 + 1, len as int);
        let f = second_field(l@);
        assert(f =~= l@.subrange(k1 + 1, k2 as int));
        assert(f.subrange(0, find_comment(f)) =~= l@.subrange(k1 + 1, c as int));
    }
    if a == b {
        return Ok(None);
    }
    match parse_i32_bin_in(l, a, b) {
        None => Err(RomErrorKind::BadWord),
        Some(v) => Ok(Some((line_nr, v))),
    }
}

/// Reads a ROM image.
pub struct DataReader {}

impl DataReader {
    /// The ROM of `rom_size` words that the text `text` describes, or the first
    /// line that cannot be read. A malformed image (a line without a decimal
    /// address or without a word, a word that is not a binary `i32`, an address
    /// beyond the ROM) is answered with a `RomError` naming the line and the
    /// reason; no text makes this function panic.
    pub fn read_rom_from_text(text: &str, rom_size: u32) -> (res: Result<Vec<i32>, RomError>)
        ensures
            rom_result_is(res, rom_from_text(text@, rom_size as nat)),
    {
        let chars = chars_of(text);
        let lines = split_lines(&chars);
        let mut rom = vec![0i32; rom_size as usize];
        assert(rom@ =~= Seq::new(rom_size as nat, |i: int| 0i32));
        let ghost all = lines_of(chars@);
        let n = lines.len();
        let mut i: usize = 0;
        assert(all.subrange(0, n as int) =~= all);
        while i < n
            invariant
                n == lines@.len() == all.len(),
                i <= n,
                forall|j: int| 0 <= j < lines@.len() ==> (#[trigger] lines@[j])@ == all[j],
                rom_from_text(text@, rom_size as nat) == apply_lines(
                    all.subrange(i as int, n as int),
                    rom@,
                    i as int,
                ),
            decreases n - i,
        {
            let ghost rest = all.subrange(i as int, n as int);
            assert(rest[0] == all[i as int]);
            assert(rest.drop_first() =~= all.subrange(i + 1, n as int));
            match read_line(&lines[i]) {
                Err(kind) => {
                    return Err(RomError { line: i, kind });
                },
                Ok(None) => {},
                Ok(Some((line_nr, value))) => {
                    if line_nr as usize >= rom.len() {
                        return Err(RomError { line: i, kind: RomErrorKind::LineNumberOutOfRange });
                    }
                    rom.set(line_nr as usize, value);
                },
            }
            i = i + 1;
        }
        Ok(rom)
    }

    /// The ROM of `rom_size` words that a file's text describes, or all zero where
    /// there is no file (`None`). A malformed image is answered with a
    /// `RomError` naming its first bad line and the reason (see
    /// `read_rom_from_text`).
    pub fn read_rom_from_file(contents: Option<&str>, rom_size: u32) -> (res: Result<Vec<i32>, RomError>)
        ensures
            rom_result_is(res, rom_from_contents(contents, rom_size as nat)),
    {
        match contents {
            None => {
                let rom = vec![0i32; rom_size as usize];
                assert(rom@ =~= Seq::new(rom_size as nat, |i: int| 0i32));
                Ok(rom)
            },
            Some(text) => DataReader::read_rom_from_text(text, rom_size),
        }
    }
}

/// The ROM that a file's text describes, or all zero where there is no file.
pub open spec fn rom_from_contents(contents: Option<&str>, rom_size: nat) -> Result<Seq<i32>, (int, RomErrorKind)> {
    match contents {
        None => Ok(Seq::new(rom_size, |i: int| 0i32)),
        Some(text) => rom_from_text(text@, rom_size),
    }
}

} // verus!
