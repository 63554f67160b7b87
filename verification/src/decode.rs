//! The fetcher's decoding step: choosing a decoder from the response's
//! declared character set and decoding the body strictly.

use encoding::Encoding;
use vstd::prelude::*;
use vstd::string::*;
use vstd::utf8::{valid_utf8, decode_utf8};
use crate::text::{lower_ascii, contains_seq, ascii_lowercase, contains_sub};
use crate::NoticeError;

verus! {

/// The declaration names UTF-8: its ASCII-lowercased form contains
/// `utf-8`. Checked before the legacy charset, as the fetcher does.
pub open spec fn declares_utf8(ct: Seq<char>) -> bool {
    contains_seq(lower_ascii(ct), "utf-8"@)
}

/// The declaration names the legacy Korean charset: its
/// ASCII-lowercased form contains `ms949`.
pub open spec fn declares_ms949(ct: Seq<char>) -> bool {
    contains_seq(lower_ascii(ct), "ms949"@)
}

/// What the legacy Korean (Windows code page 949) strict decoder
/// yields for a byte sequence: the decoded text, or nothing when some
/// byte sequence is not representable in that charset.
pub uninterp spec fn windows949_decoded(bytes: Seq<u8>) -> Option<Seq<char>>;

/// Relies on the encoding crate's `WINDOWS_949` with `DecoderTrap::Strict`:
/// the result is a function of the bytes alone, and any input the
/// charset cannot represent fails rather than being substituted.
#[verifier::external_body]
fn decode_windows949(body: &Vec<u8>) -> (r: Option<String>)
    ensures
        r is Some <==> windows949_decoded(body@) is Some,
        r matches Some(s) ==> windows949_decoded(body@) == Some(s@),
{
    encoding::all::WINDOWS_949.decode(body, encoding::DecoderTrap::Strict).ok()
}

/// Relies on `std::str::from_utf8`: it succeeds exactly on valid
/// UTF-8 and yields the decoded character sequence.
#[verifier::external_body]
fn decode_utf8_body(body: &Vec<u8>) -> (r: Option<String>)
    ensures
        r is Some <==> valid_utf8(body@),
        r matches Some(s) ==> s@ == decode_utf8(body@),
{
    std::str::from_utf8(body).ok().map(|s| s.to_string())
}

/// Exactly what decoding a body under a declared character set
/// yields: the decoded text, or the error naming what went wrong — an
/// absent declaration, an unrecognized one, or a body the chosen
/// strict decoder rejects. The UTF-8 declaration is checked first, as
/// the fetcher does.
pub open spec fn decoded_of(ct: Option<Seq<char>>, bytes: Seq<u8>) -> Result<
    Seq<char>,
    NoticeError,
> {
    match ct {
        None => Err(NoticeError::MissingContentType),
        Some(c) => if declares_utf8(c) {
            if valid_utf8(bytes) {
                Ok(decode_utf8(bytes))
            } else {
                Err(NoticeError::DecodeError)
            }
        } else if declares_ms949(c) {
            match windows949_decoded(bytes) {
                Some(t) => Ok(t),
                None => Err(NoticeError::DecodeError),
            }
        } else {
            Err(NoticeError::UnsupportedEncoding)
        },
    }
}

/// Decodes a fetched body according to the response's declared
/// character set: a UTF-8 declaration decodes as strict UTF-8, a
/// legacy Korean `ms949` declaration decodes with that charset's
/// strict decoder, and the declaration is matched case-insensitively.
/// An absent declaration fails with `MissingContentType`, an
/// unrecognized one with `UnsupportedEncoding`, and a body invalid
/// under the chosen charset with `DecodeError`.
pub fn decode_body(content_type: &Option<String>, body: &Vec<u8>) -> (r: Result<
    String,
    NoticeError,
>)
    ensures
        match decoded_of(content_type.deep_view(), body@) {
            Ok(t) => r matches Ok(s) && s@ == t,
            Err(e) => r matches Err(e2) && e2 == e,
        },
{
    match content_type {
        None => Err(NoticeError::MissingContentType),
        Some(ct) => {
            let lower = ascii_lowercase(ct.as_str());
            if contains_sub(lower.as_str(), "utf-8") {
                match decode_utf8_body(body) {
                    Some(s) => Ok(s),
                    None => Err(NoticeError::DecodeError),
                }
            } else if contains_sub(lower.as_str(), "ms949") {
                match decode_windows949(body) {
                    Some(s) => Ok(s),
                    None => Err(NoticeError::DecodeError),
                }
            } else {
                Err(NoticeError::UnsupportedEncoding)
            }
        },
    }
}

} // verus!
