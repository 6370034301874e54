//! File classification by extension, case-insensitively: a fixed set of
//! audio container extensions, the cue-sheet extension, and everything
//! else, which is ignored.

use vstd::prelude::*;
use vstd::string::StrSliceExecFns;

verus! {

/// Where a file is routed, judged by its extension.
#[derive(Clone, Copy, PartialEq, Eq, Structural, Debug)]
pub enum FileKind {
    /// An audio container whose tag fields are inspected.
    Audio,
    /// A cue sheet whose whole content is inspected.
    Cue,
    /// Anything else, left alone.
    Other,
}

/// The code point of `c` with an ASCII capital letter folded to lower case.
pub open spec fn lower_code(c: char) -> int {
    if 0x41 <= c as u32 <= 0x5A {
        c as u32 + 0x20
    } else {
        c as u32 as int
    }
}

/// The case-folded code points of a character sequence.
pub open spec fn lower_codes(s: Seq<char>) -> Seq<int> {
    s.map_values(|c: char| lower_code(c))
}

/// Whether two extensions are the same up to ASCII case.
pub open spec fn matches_ext(s: Seq<char>, lit: Seq<char>) -> bool {
    lower_codes(s) == lower_codes(lit)
}

/// The fixed set of audio container extensions.
pub open spec fn is_audio_ext(e: Seq<char>) -> bool {
    ||| matches_ext(e, "mp3"@)
    ||| matches_ext(e, "flac"@)
    ||| matches_ext(e, "m4a"@)
    ||| matches_ext(e, "mp4"@)
    ||| matches_ext(e, "ogg"@)
    ||| matches_ext(e, "wav"@)
}

/// The cue-sheet extension.
pub open spec fn is_cue_ext(e: Seq<char>) -> bool {
    matches_ext(e, "cue"@)
}

/// The routing of an extension.
pub open spec fn spec_classify(e: Seq<char>) -> FileKind {
    if is_cue_ext(e) {
        FileKind::Cue
    } else if is_audio_ext(e) {
        FileKind::Audio
    } else {
        FileKind::Other
    }
}

fn ext_eq_ignore_case(s: &str, lit: &str) -> (r: bool)
    ensures
        r == matches_ext(s@, lit@),
{
    let n = s.unicode_len();
    if n != lit.unicode_len() {
        proof {
            assert(lower_codes(s@).len() != lower_codes(lit@).len());
        }
        return false;
    }
    let mut i: usize = 0;
    while i < n
        invariant
            n == s@.len(),
            n == lit@.len(),
            i <= n,
            forall|k: int| 0 <= k < i ==> lower_code(s@[k]) == lower_code(lit@[k]),
        decreases n - i,
    {
        let a = s.get_char(i) as u32;
        let b = lit.get_char(i) as u32;
        let la = if 0x41 <= a && a <= 0x5A {
            a + 0x20
        } else {
            a
        };
        let lb = if 0x41 <= b && b <= 0x5A {
            b + 0x20
        } else {
            b
        };
        if la != lb {
            proof {
                assert(lower_codes(s@)[i as int] != lower_codes(lit@)[i as int]);
            }
            return false;
        }
        i = i + 1;
    }
    proof {
        assert(lower_codes(s@) =~= lower_codes(lit@));
    }
    true
}

/// Routes a file by its extension, case-insensitively.
pub fn classify_extension(ext: &str) -> (r: FileKind)
    ensures
        r == spec_classify(ext@),
{
    if ext_eq_ignore_case(ext, "cue") {
        FileKind::Cue
    } else if ext_eq_ignore_case(ext, "mp3") || ext_eq_ignore_case(ext, "flac")
        || ext_eq_ignore_case(ext, "m4a") || ext_eq_ignore_case(ext, "mp4") || ext_eq_ignore_case(
        ext,
        "ogg",
    ) || ext_eq_ignore_case(ext, "wav") {
        FileKind::Audio
    } else {
        FileKind::Other
    }
}

} // verus!
