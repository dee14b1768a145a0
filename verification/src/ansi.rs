//! Log lines without their terminal escape sequences.

use crate::log_item::option_view;
use vstd::prelude::*;
use vstd::utf8::{decode_utf8, valid_utf8};

verus! {

/// The bytes that `strip_ansi_escapes::strip` leaves of a text, or nothing
/// where it reports a failure to write them out.
pub uninterp spec fn ansi_stripped(text: Seq<char>) -> Option<Seq<u8>>;

/// The view of bytes that may be missing.
pub open spec fn bytes_view(bytes: Option<Vec<u8>>) -> Option<Seq<u8>> {
    match bytes {
        Some(list) => Some(list@),
        None => None,
    }
}

/// Calls `strip_ansi_escapes::strip` on the bytes of a text.  Trusted: the
/// result is the one that [`ansi_stripped`] names for the text.
#[verifier::external_body]
fn strip_escapes(text: &str) -> (r: Option<Vec<u8>>)
    ensures
        bytes_view(r) == ansi_stripped(text@),
{
    strip_ansi_escapes::strip(text).ok()
}

/// Calls `String::from_utf8`.  Trusted: it succeeds on the bytes that are
/// UTF-8, and only on them, with the text that they encode.
#[verifier::external_body]
fn string_from_utf8(bytes: Vec<u8>) -> (r: Option<String>)
    ensures
        r is Some <==> valid_utf8(bytes@),
        r matches Some(text) ==> text@ == decode_utf8(bytes@),
{
    String::from_utf8(bytes).ok()
}

/// The text that stripped bytes encode, where there are bytes and they are
/// UTF-8.
pub open spec fn spec_clean(stripped: Option<Seq<u8>>) -> Option<Seq<char>> {
    match stripped {
        Some(bytes) => if valid_utf8(bytes) {
            Some(decode_utf8(bytes))
        } else {
            None
        },
        None => None,
    }
}

/// A log line without its escape sequences, or nothing where what is left
/// of the line is not text.
pub fn clean_log_line(line: &str) -> (r: Option<String>)
    ensures
        option_view(r) == spec_clean(ansi_stripped(line@)),
{
    match strip_escapes(line) {
        Some(bytes) => string_from_utf8(bytes),
        None => None,
    }
}

} // verus!
