//! Text out of the fixed-size, zero-terminated byte fields of native records.

use std::string::FromUtf8Error;
use vstd::prelude::*;
use vstd::utf8::{decode_utf8, valid_utf8};

verus! {

/// The error of `String::from_utf8`; nothing is read out of it.
#[verifier::external_type_specification]
#[verifier::external_body]
pub struct ExFromUtf8Error(FromUtf8Error);

/// `String::from_utf8` succeeds exactly on well-formed UTF-8, and the string
/// it then returns holds the characters that the bytes encode.
pub assume_specification[ String::from_utf8 ](vec: Vec<u8>) -> (r: Result<String, FromUtf8Error>)
    ensures
        r is Ok <==> valid_utf8(vec@),
        r matches Ok(s) ==> s@ == decode_utf8(vec@),
;

/// The first position at or after `from` that holds a zero byte, or the
/// length of `bytes` where none does.
pub open spec fn scan_to_nul(bytes: Seq<u8>, from: int) -> int
    decreases bytes.len() - from,
{
    if from < 0 || from >= bytes.len() || bytes[from] == 0 {
        from
    } else {
        scan_to_nul(bytes, from + 1)
    }
}

/// Where the text of a zero-terminated field ends: at its first zero byte,
/// and at the end of the field where it has none.
pub open spec fn text_end(bytes: Seq<u8>) -> int {
    scan_to_nul(bytes, 0)
}

/// The bytes of the field that come before its terminator.
pub open spec fn text_bytes(bytes: Seq<u8>) -> Seq<u8> {
    bytes.subrange(0, text_end(bytes))
}

/// The text of the field, where its bytes are well-formed UTF-8.
pub open spec fn strict_text(bytes: Seq<u8>) -> Option<Seq<char>> {
    if valid_utf8(text_bytes(bytes)) {
        Some(decode_utf8(text_bytes(bytes)))
    } else {
        None
    }
}

/// The text of the field, and the empty text where its bytes are not
/// well-formed UTF-8.
pub open spec fn lossy_text(bytes: Seq<u8>) -> Seq<char> {
    match strict_text(bytes) {
        Some(text) => text,
        None => Seq::empty(),
    }
}

/// Whether a zero byte occurs anywhere in `bytes`.
pub open spec fn has_nul(bytes: Seq<u8>) -> bool {
    exists|i: int| 0 <= i < bytes.len() && bytes[i] == 0
}

/// The scan stays inside the field, passes no zero byte, and stops on a zero
/// byte unless it reaches the end.
pub proof fn lemma_scan_to_nul(bytes: Seq<u8>, from: int)
    requires
        0 <= from <= bytes.len(),
    ensures
        from <= scan_to_nul(bytes, from) <= bytes.len(),
        forall|i: int| from <= i < scan_to_nul(bytes, from) ==> bytes[i] != 0,
        scan_to_nul(bytes, from) < bytes.len() ==> bytes[scan_to_nul(bytes, from)] == 0,
    decreases bytes.len() - from,
{
    if from < bytes.len() && bytes[from] != 0 {
        lemma_scan_to_nul(bytes, from + 1);
    }
}

/// The text of a field never runs past the field, holds no zero byte, and
/// is the whole field exactly where the field holds no zero byte.
pub proof fn lemma_text_bytes(bytes: Seq<u8>)
    ensures
        0 <= text_end(bytes) <= bytes.len(),
        text_bytes(bytes).len() == text_end(bytes),
        !has_nul(text_bytes(bytes)),
        text_end(bytes) < bytes.len() ==> bytes[text_end(bytes)] == 0,
        has_nul(bytes) <==> text_end(bytes) < bytes.len(),
{
    lemma_scan_to_nul(bytes, 0);
    let n = text_end(bytes);
    if has_nul(bytes) {
        let i = choose|i: int| 0 <= i < bytes.len() && bytes[i] == 0;
        assert(n <= i);
    }
}

/// The length of the text in a zero-terminated field: the position of the
/// first zero byte, and the length of the field where it has none.
pub fn c_string_length(bytes: &[u8]) -> (n: usize)
    ensures
        n as int == text_end(bytes@),
        n <= bytes@.len(),
{
    let mut i: usize = 0;
    while i < bytes.len() && bytes[i] != 0
        invariant
            0 <= i <= bytes@.len(),
            scan_to_nul(bytes@, 0) == scan_to_nul(bytes@, i as int),
        decreases bytes@.len() - i,
    {
        i = i + 1;
    }
    i
}

/// Copies the text of a zero-terminated field, without the terminator and
/// whatever follows it.
pub fn c_string_bytes(bytes: &[u8]) -> (text: Vec<u8>)
    ensures
        text@ == text_bytes(bytes@),
{
    let n = c_string_length(bytes);
    let mut text: Vec<u8> = Vec::new();
    let mut i: usize = 0;
    while i < n
        invariant
            0 <= i <= n <= bytes@.len(),
            text@ == bytes@.subrange(0, i as int),
        decreases n - i,
    {
        text.push(bytes[i]);
        assert(text@ =~= bytes@.subrange(0, i + 1));
        i = i + 1;
    }
    text
}

/// Decodes the text of a zero-terminated field as UTF-8, or says that it is
/// not UTF-8.
pub fn c_string_to_text(bytes: &[u8]) -> (r: Option<String>)
    ensures
        r is Some <==> strict_text(bytes@) is Some,
        r matches Some(s) ==> Some(s@) == strict_text(bytes@),
{
    match String::from_utf8(c_string_bytes(bytes)) {
        Ok(s) => Some(s),
        Err(_) => None,
    }
}

/// Decodes the text of a zero-terminated field as UTF-8. A field whose bytes
/// are not UTF-8 reads as the empty string: one unreadable field does not
/// cost the record it stands in.
pub fn c_string_to_string(bytes: &[u8]) -> (s: String)
    ensures
        s@ == lossy_text(bytes@),
{
    match c_string_to_text(bytes) {
        Some(s) => s,
        None => String::new(),
    }
}

/// Whether a zero byte occurs in `bytes`.
pub fn contains_nul(bytes: &[u8]) -> (b: bool)
    ensures
        b == has_nul(bytes@),
{
    let n = c_string_length(bytes);
    proof {
        lemma_text_bytes(bytes@);
    }
    n < bytes.len()
}

} // verus!
