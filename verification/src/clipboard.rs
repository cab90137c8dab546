//! The clipboard: what the host provides, and the texts that travel between
//! it and a program through OSC 52.

use vstd::prelude::*;
use vstd::utf8::{decode_utf8, encode_utf8, valid_utf8};
use vstd::string::StringSliceAdditionalSpecFns;
use crate::text::{push_char, push_text};

verus! {

/// The host's clipboard.
pub trait ClipboardHandler: Send {
    fn get_text(&mut self) -> Option<String>;

    fn set_text(&mut self, text: String);
}

/// The standard Base64 encoding of `bytes`, with `=` padding.
pub uninterp spec fn base64_encoded(bytes: Seq<u8>) -> Seq<char>;

/// The bytes that `text` stands for in standard Base64 with `=` padding;
/// `None` where `text` is no such encoding.
pub uninterp spec fn base64_decoded(text: Seq<char>) -> Option<Seq<u8>>;

#[verifier::external_type_specification]
#[verifier::external_body]
pub struct ExBase64Error(base64ct::Error);

/// Calls `base64ct::Encoding::encode_string` of `base64ct::Base64`.
///
/// Assumed, not proved: the result is a function of the bytes alone. The
/// call panics on more than `usize::MAX / 4` bytes, which `requires` leaves
/// out.
#[verifier::external_body]
fn base64_encode(input: &[u8]) -> (r: String)
    requires
        input@.len() <= usize::MAX / 4,
    ensures
        r@ == base64_encoded(input@),
{
    <base64ct::Base64 as base64ct::Encoding>::encode_string(input)
}

/// Calls `base64ct::Encoding::decode_vec` of `base64ct::Base64`.
///
/// Assumed, not proved: whether the call succeeds and what it gives are
/// functions of the text alone.
#[verifier::external_body]
fn base64_decode(input: &str) -> (r: Result<Vec<u8>, base64ct::Error>)
    ensures
        match r {
            Ok(bytes) => base64_decoded(input@) == Some(bytes@),
            Err(_) => base64_decoded(input@) is None,
        },
{
    <base64ct::Base64 as base64ct::Encoding>::decode_vec(input)
}

/// Calls `core::str::from_utf8`.
///
/// Assumed, not proved: the call succeeds exactly on valid UTF-8 and then
/// gives the characters that the bytes encode.
#[verifier::external_body]
fn utf8_str(bytes: &[u8]) -> (r: Option<&str>)
    ensures
        match r {
            Some(s) => valid_utf8(bytes@) && s@ == decode_utf8(bytes@),
            None => !valid_utf8(bytes@),
        },
{
    match core::str::from_utf8(bytes) {
        Ok(s) => Some(s),
        Err(_) => None,
    }
}

/// Calls `String::from_utf8`.
///
/// Assumed, not proved: the call succeeds exactly on valid UTF-8 and then
/// gives the characters that the bytes encode.
#[verifier::external_body]
fn utf8_string(bytes: Vec<u8>) -> (r: Option<String>)
    ensures
        match r {
            Some(s) => valid_utf8(bytes@) && s@ == decode_utf8(bytes@),
            None => !valid_utf8(bytes@),
        },
{
    match String::from_utf8(bytes) {
        Ok(s) => Some(s),
        Err(_) => None,
    }
}

/// The text that a clipboard store with the given payload carries: the
/// payload is Base64 text in UTF-8, and what it encodes is text in UTF-8
/// again. A payload that is not of this form carries nothing.
pub open spec fn stored_text(payload: Seq<u8>) -> Option<Seq<char>> {
    if !valid_utf8(payload) {
        None
    } else {
        match base64_decoded(decode_utf8(payload)) {
            Some(bytes) => if valid_utf8(bytes) {
                Some(decode_utf8(bytes))
            } else {
                None
            },
            None => None,
        }
    }
}

/// The text that a clipboard store with the payload `base64` carries, if
/// any.
pub fn clipboard_text(base64: &[u8]) -> (r: Option<String>)
    ensures
        match r {
            Some(text) => stored_text(base64@) == Some(text@),
            None => stored_text(base64@) is None,
        },
{
    match utf8_str(base64) {
        Some(encoded) => match base64_decode(encoded) {
            Ok(bytes) => utf8_string(bytes),
            Err(_) => None,
        },
        None => None,
    }
}

/// The end of an operating system command: BEL, or ESC `\`.
pub open spec fn terminator(bell_terminated: bool) -> Seq<char> {
    if bell_terminated {
        seq!['\x07']
    } else {
        seq!['\x1b', '\\']
    }
}

/// The report of the clipboard `clipboard` holding the bytes `content`:
/// `ESC ] 52 ; clipboard ; base64 of the content`, ended as the request was.
pub open spec fn clipboard_report(clipboard: u8, content: Seq<u8>, bell_terminated: bool) -> Seq<char> {
    seq!['\x1b', ']', '5', '2', ';', clipboard as char, ';'] + base64_encoded(content) + terminator(
        bell_terminated,
    )
}

/// The report of the clipboard `clipboard` holding `text`; `None` where
/// the text is too long to be encoded.
pub fn clipboard_reply(clipboard: u8, text: &str, bell_terminated: bool) -> (r: Option<String>)
    ensures
        match r {
            Some(report) => encode_utf8(text@).len() <= usize::MAX / 4 && report@
                == clipboard_report(clipboard, encode_utf8(text@), bell_terminated),
            None => encode_utf8(text@).len() > usize::MAX / 4,
        },
{
    let bytes = text.as_bytes();
    if bytes.len() > usize::MAX / 4 {
        return None;
    }
    let encoded = base64_encode(bytes);
    let mut report = String::new();
    push_char(&mut report, '\x1b');
    push_char(&mut report, ']');
    push_char(&mut report, '5');
    push_char(&mut report, '2');
    push_char(&mut report, ';');
    push_char(&mut report, clipboard as char);
    push_char(&mut report, ';');
    push_text(&mut report, encoded.as_str());
    if bell_terminated {
        push_char(&mut report, '\x07');
    } else {
        push_char(&mut report, '\x1b');
        push_char(&mut report, '\\');
    }
    assert(report@ =~= clipboard_report(clipboard, encode_utf8(text@), bell_terminated));
    Some(report)
}

/// `text` between the marks of a bracketed paste, `ESC [ 200 ~` and
/// `ESC [ 201 ~`.
pub open spec fn bracketed(text: Seq<char>) -> Seq<char> {
    seq!['\x1b', '[', '2', '0', '0', '~'] + text + seq!['\x1b', '[', '2', '0', '1', '~']
}

/// What pasting `text` sends to the program: the text itself, between the
/// marks of a bracketed paste where the program asked for them.
pub fn pasted(text: &str, bracketed_paste: bool) -> (r: String)
    ensures
        r@ == (if bracketed_paste {
            bracketed(text@)
        } else {
            text@
        }),
{
    let mut out = String::new();
    if bracketed_paste {
        push_char(&mut out, '\x1b');
        push_char(&mut out, '[');
        push_char(&mut out, '2');
        push_char(&mut out, '0');
        push_char(&mut out, '0');
        push_char(&mut out, '~');
        push_text(&mut out, text);
        push_char(&mut out, '\x1b');
        push_char(&mut out, '[');
        push_char(&mut out, '2');
        push_char(&mut out, '0');
        push_char(&mut out, '1');
        push_char(&mut out, '~');
        assert(out@ =~= bracketed(text@));
    } else {
        push_text(&mut out, text);
        assert(out@ =~= text@);
    }
    out
}

} // verus!
