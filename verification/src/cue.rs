//! The cue-sheet content decision.
//!
//! A cue file has no structured fields: the whole file is one candidate,
//! and the policy is about which bytes to trust. Raw bytes that are already
//! valid UTF-8 are presumed correct and left alone; only bytes that are not
//! valid UTF-8 (or any bytes, when legacy decoding is forced) are decoded
//! as the legacy code page and become the new content.

use crate::codec::cp1251_decode;
use crate::codec::cp1251_decode_lossy;
use crate::codec::decode_cp1251;
use crate::codec::is_valid_utf8;
use vstd::prelude::*;
use vstd::utf8::valid_utf8;

verus! {

/// The content a cue file's bytes should be rewritten to, or `None` when
/// the file is to be left untouched.
pub open spec fn spec_cue_new_content(raw: Seq<u8>, force_legacy: bool) -> Option<Seq<char>> {
    if force_legacy {
        Some(cp1251_decode(raw))
    } else if valid_utf8(raw) {
        None
    } else {
        Some(cp1251_decode(raw))
    }
}

/// Decides what a cue file's bytes should become. Returns the new content
/// together with whether the legacy decoding was lossy (worth a warning
/// when legacy decoding was forced), or `None` when the file is already
/// valid UTF-8 text and is to be left untouched.
pub fn cue_new_content(raw: &[u8], force_legacy: bool) -> (r: Option<(String, bool)>)
    ensures
        match r {
            Some(p) => spec_cue_new_content(raw@, force_legacy) == Some(p.0@) && p.1
                == cp1251_decode_lossy(raw@),
            None => spec_cue_new_content(raw@, force_legacy) is None,
        },
{
    if !force_legacy && is_valid_utf8(raw) {
        return None;
    }
    let decoded = decode_cp1251(raw);
    Some(decoded)
}

/// A cue file whose raw bytes are valid UTF-8 is never rewritten when
/// legacy decoding is not forced, so it triggers no backup and no write.
pub proof fn lemma_cue_utf8_untouched(raw: Seq<u8>)
    requires
        valid_utf8(raw),
    ensures
        spec_cue_new_content(raw, false) is None,
{
}

} // verus!
