//! The mojibake detector and repairer.
//!
//! Given a candidate string, re-encode it into the legacy bytes it is
//! presumed to have been mis-decoded from, decode those bytes as the legacy
//! code page, trim the result, and score it: the fraction of the candidate
//! repair that is Cyrillic counts for it, the fraction of the original text
//! that is an accented Latin letter counts against it. Only a score above
//! the caller's threshold yields a repair, and text that already contains
//! Cyrillic is never touched.
//!
//! The threshold is given in thousandths, so a threshold of 200 stands for
//! a score of 0.2: with both ratios normalized by the candidate repair's
//! character count, the score exceeds the threshold exactly when
//! `1000 * cyrillic - 800 * diacritics > threshold_millis * length`.

use crate::chars::cyr_count;
use crate::chars::cyrillic_count;
use crate::chars::dia_count;
use crate::chars::latin_diacritics_count;
use crate::codec::cp1251_decode;
use crate::codec::decode_cp1251;
use crate::codec::encode_legacy;
use crate::codec::legacy_bytes_of;
use crate::trim::trim_spec;
use crate::trim::trimmed;
use vstd::prelude::*;
use vstd::string::StrSliceExecFns;

verus! {

/// The candidate repair for `text`: its legacy re-encoding decoded as the
/// legacy code page, trimmed of surrounding whitespace.
pub open spec fn repair_candidate(text: Seq<char>) -> Seq<char> {
    trim_spec(cp1251_decode(legacy_bytes_of(text)))
}

/// Whether the score of `candidate` against `original` exceeds the
/// threshold: Cyrillic content weighted 1.0, accented Latin letters in the
/// original weighted -0.8, both normalized by the candidate's length.
pub open spec fn score_exceeds(
    candidate: Seq<char>,
    original: Seq<char>,
    threshold_millis: int,
) -> bool {
    1000 * (cyr_count(candidate) as int) - 800 * (dia_count(original) as int) > threshold_millis
        * (candidate.len() as int)
}

/// The repair decision for `text` at a given threshold: `None` when `text`
/// already holds Cyrillic, when the candidate repair is empty, or when the
/// score does not exceed the threshold; otherwise the candidate repair.
pub open spec fn spec_fix_mojibake(text: Seq<char>, threshold_millis: int) -> Option<Seq<char>> {
    let candidate = repair_candidate(text);
    if cyr_count(text) > 0 {
        None
    } else if candidate.len() == 0 {
        None
    } else if score_exceeds(candidate, text, threshold_millis) {
        Some(candidate)
    } else {
        None
    }
}

/// Decides whether `text` is mojibake and, if so, returns the repaired
/// string; the threshold is in thousandths of a score point.
pub fn fix_mojibake(text: &str, threshold_millis: i64) -> (r: Option<String>)
    ensures
        match r {
            Some(fixed) => spec_fix_mojibake(text@, threshold_millis as int) == Some(fixed@),
            None => spec_fix_mojibake(text@, threshold_millis as int) is None,
        },
{
    if cyrillic_count(text) > 0 {
        return None;
    }
    let encoded = encode_legacy(text);
    let decoded = decode_cp1251(encoded.as_slice());
    let candidate = trimmed(decoded.0.as_str());
    let len = candidate.as_str().unicode_len();
    if len == 0 {
        return None;
    }
    let cyr = cyrillic_count(candidate.as_str());
    let dia = latin_diacritics_count(text);
    let lhs: i128 = 1000 * (cyr as i128) - 800 * (dia as i128);
    let t: i128 = threshold_millis as i128;
    let l: i128 = len as i128;
    proof {
        assert(t * l <= i128::MAX && i128::MIN <= t * l) by (nonlinear_arith)
            requires
                -0x8000_0000_0000_0000i128 <= t <= 0x7FFF_FFFF_FFFF_FFFFi128,
                0 <= l <= 0xFFFF_FFFF_FFFF_FFFFi128,
        ;
    }
    let rhs: i128 = t * l;
    if lhs > rhs {
        Some(candidate)
    } else {
        None
    }
}

/// Conservativeness: text that already contains a Cyrillic-block character
/// is never repaired, whatever the threshold.
pub proof fn lemma_conservative(text: Seq<char>, threshold_millis: int)
    requires
        cyr_count(text) > 0,
    ensures
        spec_fix_mojibake(text, threshold_millis) is None,
{
}

/// Idempotence: at a non-negative threshold, a repair always contains
/// Cyrillic, so repairing what a repair produced (or the unchanged text,
/// where nothing was repaired) yields nothing further.
pub proof fn lemma_idempotent(text: Seq<char>, threshold_millis: int)
    requires
        threshold_millis >= 0,
        cyr_count(text) == 0,
    ensures
        match spec_fix_mojibake(text, threshold_millis) {
            Some(fixed) => spec_fix_mojibake(fixed, threshold_millis) is None,
            None => spec_fix_mojibake(text, threshold_millis) is None,
        },
{
    match spec_fix_mojibake(text, threshold_millis) {
        Some(fixed) => {
            assert(threshold_millis * (fixed.len() as int) >= 0) by (nonlinear_arith)
                requires
                    threshold_millis >= 0,
                    fixed.len() >= 0,
            ;
            assert(cyr_count(fixed) > 0);
            lemma_conservative(fixed, threshold_millis);
        },
        None => {},
    }
}

/// Threshold monotonicity: lowering the threshold never removes a repair;
/// whatever is repaired at a threshold is repaired, to the same string, at
/// every lower one.
pub proof fn lemma_threshold_monotone(text: Seq<char>, higher: int, lower: int)
    requires
        lower <= higher,
    ensures
        spec_fix_mojibake(text, higher) is Some ==> spec_fix_mojibake(text, lower)
            == spec_fix_mojibake(text, higher),
{
    if spec_fix_mojibake(text, higher) is Some {
        let candidate = repair_candidate(text);
        assert(lower * (candidate.len() as int) <= higher * (candidate.len() as int))
            by (nonlinear_arith)
            requires
                lower <= higher,
                candidate.len() >= 0,
        ;
    }
}

} // verus!
