//! Character classes and counts the detector scores with: the Cyrillic
//! Unicode block and a fixed set of accented Latin letters.

use vstd::prelude::*;
use vstd::string::StrSliceExecFns;

verus! {

/// A character of the Cyrillic Unicode block (U+0400 through U+04FF).
pub open spec fn spec_is_cyrillic(c: char) -> bool {
    0x400 <= c as u32 <= 0x4FF
}

/// The fixed set of accented Latin letters whose presence in a candidate
/// string counts against the mojibake hypothesis.
pub open spec fn spec_is_latin_diacritic(c: char) -> bool {
    ||| c == '\u{00E4}' || c == '\u{00F6}' || c == '\u{00FC}' || c == '\u{00DF}'
    ||| c == '\u{00C4}' || c == '\u{00D6}' || c == '\u{00DC}'
    ||| c == '\u{00E9}' || c == '\u{00E8}' || c == '\u{00EA}' || c == '\u{00EB}'
    ||| c == '\u{00E1}' || c == '\u{00E0}' || c == '\u{00E2}' || c == '\u{00E5}'
    ||| c == '\u{00ED}' || c == '\u{00EC}' || c == '\u{00EE}'
    ||| c == '\u{00F3}' || c == '\u{00F2}' || c == '\u{00F4}'
    ||| c == '\u{00FA}' || c == '\u{00F9}' || c == '\u{00FB}'
}

/// How many characters of `s` lie in the Cyrillic block.
pub open spec fn cyr_count(s: Seq<char>) -> nat
    decreases s.len(),
{
    if s.len() == 0 {
        0
    } else {
        cyr_count(s.drop_last()) + if spec_is_cyrillic(s.last()) {
            1nat
        } else {
            0nat
        }
    }
}

/// How many characters of `s` are accented Latin letters of the fixed set.
pub open spec fn dia_count(s: Seq<char>) -> nat
    decreases s.len(),
{
    if s.len() == 0 {
        0
    } else {
        dia_count(s.drop_last()) + if spec_is_latin_diacritic(s.last()) {
            1nat
        } else {
            0nat
        }
    }
}

pub fn is_cyrillic(c: char) -> (r: bool)
    ensures
        r == spec_is_cyrillic(c),
{
    let u = c as u32;
    0x400 <= u && u <= 0x4FF
}

pub fn is_latin_diacritic(c: char) -> (r: bool)
    ensures
        r == spec_is_latin_diacritic(c),
{
    c == '\u{00E4}' || c == '\u{00F6}' || c == '\u{00FC}' || c == '\u{00DF}'
        || c == '\u{00C4}' || c == '\u{00D6}' || c == '\u{00DC}'
        || c == '\u{00E9}' || c == '\u{00E8}' || c == '\u{00EA}' || c == '\u{00EB}'
        || c == '\u{00E1}' || c == '\u{00E0}' || c == '\u{00E2}' || c == '\u{00E5}'
        || c == '\u{00ED}' || c == '\u{00EC}' || c == '\u{00EE}'
        || c == '\u{00F3}' || c == '\u{00F2}' || c == '\u{00F4}'
        || c == '\u{00FA}' || c == '\u{00F9}' || c == '\u{00FB}'
}

/// Counts the Cyrillic-block characters of `s`.
pub fn cyrillic_count(s: &str) -> (n: usize)
    ensures
        n == cyr_count(s@),
{
    let len = s.unicode_len();
    let mut n: usize = 0;
    let mut i: usize = 0;
    while i < len
        invariant
            len == s@.len(),
            i <= len,
            n <= i,
            n == cyr_count(s@.take(i as int)),
        decreases len - i,
    {
        let c = s.get_char(i);
        if is_cyrillic(c) {
            n = n + 1;
        }
        i = i + 1;
        proof {
            assert(s@.take(i as int).drop_last() =~= s@.take(i as int - 1));
            assert(s@.take(i as int).last() == s@[i as int - 1]);
        }
    }
    proof {
        assert(s@.take(len as int) =~= s@);
    }
    n
}

/// Counts the characters of `s` that are accented Latin letters of the
/// fixed set.
pub fn latin_diacritics_count(s: &str) -> (n: usize)
    ensures
        n == dia_count(s@),
{
    let len = s.unicode_len();
    let mut n: usize = 0;
    let mut i: usize = 0;
    while i < len
        invariant
            len == s@.len(),
            i <= len,
            n <= i,
            n == dia_count(s@.take(i as int)),
        decreases len - i,
    {
        let c = s.get_char(i);
        if is_latin_diacritic(c) {
            n = n + 1;
        }
        i = i + 1;
        proof {
            assert(s@.take(i as int).drop_last() =~= s@.take(i as int - 1));
            assert(s@.take(i as int).last() == s@[i as int - 1]);
        }
    }
    proof {
        assert(s@.take(len as int) =~= s@);
    }
    n
}

} // verus!
