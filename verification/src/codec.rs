//! The legacy single-byte Cyrillic code page (cp1251).
//!
//! The encode direction models the mojibake hypothesis: a character whose
//! code point fits in one byte is taken to be that legacy byte, mis-decoded;
//! a character of the code page's own repertoire above U+00FF maps to its
//! legacy byte; anything else maps to a replacement byte. The decode
//! direction is the code page itself, provided by an outside codec.

use vstd::prelude::*;
use vstd::string::StrSliceExecFns;

verus! {

/// The legacy byte one character re-encodes to.
pub open spec fn spec_legacy_byte(c: char) -> u8 {
    let u = c as u32;
    if u <= 0xFF {
        u as u8
    } else if 0x410 <= u && u <= 0x44F {
        (u - 0x410 + 0xC0) as u8
    } else if u == 0x0402 {
        0x80
    } else if u == 0x0403 {
        0x81
    } else if u == 0x201A {
        0x82
    } else if u == 0x0453 {
        0x83
    } else if u == 0x201E {
        0x84
    } else if u == 0x2026 {
        0x85
    } else if u == 0x2020 {
        0x86
    } else if u == 0x2021 {
        0x87
    } else if u == 0x20AC {
        0x88
    } else if u == 0x2030 {
        0x89
    } else if u == 0x0409 {
        0x8A
    } else if u == 0x2039 {
        0x8B
    } else if u == 0x040A {
        0x8C
    } else if u == 0x040C {
        0x8D
    } else if u == 0x040B {
        0x8E
    } else if u == 0x040F {
        0x8F
    } else if u == 0x0452 {
        0x90
    } else if u == 0x2018 {
        0x91
    } else if u == 0x2019 {
        0x92
    } else if u == 0x201C {
        0x93
    } else if u == 0x201D {
        0x94
    } else if u == 0x2022 {
        0x95
    } else if u == 0x2013 {
        0x96
    } else if u == 0x2014 {
        0x97
    } else if u == 0x2122 {
        0x99
    } else if u == 0x0459 {
        0x9A
    } else if u == 0x203A {
        0x9B
    } else if u == 0x045A {
        0x9C
    } else if u == 0x045C {
        0x9D
    } else if u == 0x045B {
        0x9E
    } else if u == 0x045F {
        0x9F
    } else if u == 0x040E {
        0xA1
    } else if u == 0x045E {
        0xA2
    } else if u == 0x0408 {
        0xA3
    } else if u == 0x0490 {
        0xA5
    } else if u == 0x0401 {
        0xA8
    } else if u == 0x0404 {
        0xAA
    } else if u == 0x0407 {
        0xAF
    } else if u == 0x0406 {
        0xB2
    } else if u == 0x0456 {
        0xB3
    } else if u == 0x0491 {
        0xB4
    } else if u == 0x0451 {
        0xB8
    } else if u == 0x2116 {
        0xB9
    } else if u == 0x0454 {
        0xBA
    } else if u == 0x0458 {
        0xBC
    } else if u == 0x0405 {
        0xBD
    } else if u == 0x0455 {
        0xBE
    } else if u == 0x0457 {
        0xBF
    } else {
        0x3F
    }
}

/// The legacy bytes a whole character sequence re-encodes to.
pub open spec fn legacy_bytes_of(s: Seq<char>) -> Seq<u8> {
    s.map_values(|c: char| spec_legacy_byte(c))
}

pub fn legacy_byte(c: char) -> (r: u8)
    ensures
        r == spec_legacy_byte(c),
{
    let u = c as u32;
    if u <= 0xFF {
        #[verifier::truncate] (u as u8)
    } else if 0x410 <= u && u <= 0x44F {
        #[verifier::truncate] ((u - 0x410 + 0xC0) as u8)
    } else if u == 0x0402 {
        0x80
    } else if u == 0x0403 {
        0x81
    } else if u == 0x201A {
        0x82
    } else if u == 0x0453 {
        0x83
    } else if u == 0x201E {
        0x84
    } else if u == 0x2026 {
        0x85
    } else if u == 0x2020 {
        0x86
    } else if u == 0x2021 {
        0x87
    } else if u == 0x20AC {
        0x88
    } else if u == 0x2030 {
        0x89
    } else if u == 0x0409 {
        0x8A
    } else if u == 0x2039 {
        0x8B
    } else if u == 0x040A {
        0x8C
    } else if u == 0x040C {
        0x8D
    } else if u == 0x040B {
        0x8E
    } else if u == 0x040F {
        0x8F
    } else if u == 0x0452 {
        0x90
    } else if u == 0x2018 {
        0x91
    } else if u == 0x2019 {
        0x92
    } else if u == 0x201C {
        0x93
    } else if u == 0x201D {
        0x94
    } else if u == 0x2022 {
        0x95
    } else if u == 0x2013 {
        0x96
    } else if u == 0x2014 {
        0x97
    } else if u == 0x2122 {
        0x99
    } else if u == 0x0459 {
        0x9A
    } else if u == 0x203A {
        0x9B
    } else if u == 0x045A {
        0x9C
    } else if u == 0x045C {
        0x9D
    } else if u == 0x045B {
        0x9E
    } else if u == 0x045F {
        0x9F
    } else if u == 0x040E {
        0xA1
    } else if u == 0x045E {
        0xA2
    } else if u == 0x0408 {
        0xA3
    } else if u == 0x0490 {
        0xA5
    } else if u == 0x0401 {
        0xA8
    } else if u == 0x0404 {
        0xAA
    } else if u == 0x0407 {
        0xAF
    } else if u == 0x0406 {
        0xB2
    } else if u == 0x0456 {
        0xB3
    } else if u == 0x0491 {
        0xB4
    } else if u == 0x0451 {
        0xB8
    } else if u == 0x2116 {
        0xB9
    } else if u == 0x0454 {
        0xBA
    } else if u == 0x0458 {
        0xBC
    } else if u == 0x0405 {
        0xBD
    } else if u == 0x0455 {
        0xBE
    } else if u == 0x0457 {
        0xBF
    } else {
        0x3F
    }
}

/// Re-encodes `text` into the legacy bytes it is presumed to have been
/// mis-decoded from.
pub fn encode_legacy(text: &str) -> (r: Vec<u8>)
    ensures
        r@ == legacy_bytes_of(text@),
{
    let len = text.unicode_len();
    let mut out: Vec<u8> = Vec::new();
    let mut i: usize = 0;
    while i < len
        invariant
            len == text@.len(),
            i <= len,
            out@ == legacy_bytes_of(text@.take(i as int)),
        decreases len - i,
    {
        let c = text.get_char(i);
        out.push(legacy_byte(c));
        i = i + 1;
        proof {
            assert(legacy_bytes_of(text@.take(i as int)) =~= legacy_bytes_of(
                text@.take(i as int - 1),
            ).push(spec_legacy_byte(text@[i as int - 1])));
        }
    }
    proof {
        assert(text@.take(len as int) =~= text@);
    }
    out
}

/// What decoding a byte sequence as the legacy code page yields: the text,
/// and whether any byte sequence was malformed for the decoder.
pub uninterp spec fn cp1251_decoding(bytes: Seq<u8>) -> (Seq<char>, bool);

/// The text that the legacy code page decodes `bytes` to.
pub open spec fn cp1251_decode(bytes: Seq<u8>) -> Seq<char> {
    cp1251_decoding(bytes).0
}

/// Whether decoding `bytes` as the legacy code page was lossy.
pub open spec fn cp1251_decode_lossy(bytes: Seq<u8>) -> bool {
    cp1251_decoding(bytes).1
}

/// Relies on encoding_rs::Encoding::decode for the windows-1251 encoding:
/// it never fails, and the decoded text and the malformed-input flag depend
/// on the input bytes alone (byte-order-mark sniffing included).
#[verifier::external_body]
pub(crate) fn decode_cp1251(bytes: &[u8]) -> (r: (String, bool))
    ensures
        (r.0@, r.1) == cp1251_decoding(bytes@),
{
    let (decoded, _, had_errors) = encoding_rs::WINDOWS_1251.decode(bytes);
    (decoded.into_owned(), had_errors)
}

/// Relies on core::str::from_utf8: it returns Ok exactly when the input is
/// valid UTF-8.
#[verifier::external_body]
pub(crate) fn is_valid_utf8(bytes: &[u8]) -> (r: bool)
    ensures
        r == vstd::utf8::valid_utf8(bytes@),
{
    match core::str::from_utf8(bytes) {
        Ok(_) => true,
        Err(_) => false,
    }
}

} // verus!
