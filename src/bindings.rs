//! The calls this library makes into outside crates. Each function here is taken on trust:
//! its contract restates what the crate documents, over a name for a result that would take
//! pages to write down.
use vstd::prelude::*;

verus! {

/// The text of capture group 1 in the leftmost-first match of the regular expression
/// `pattern` in `text`.
pub uninterp spec fn regex_first_group(pattern: Seq<char>, text: Seq<char>) -> Option<Seq<char>>;

/// For each successive non-overlapping match of `pattern` in `text`, the text of its capture
/// group 1, if that group took part in the match.
pub uninterp spec fn regex_group_per_match(pattern: Seq<char>, text: Seq<char>) -> Seq<
    Option<Seq<char>>,
>;

/// The WebAssembly text format that a binary module or component prints to.
pub uninterp spec fn wasm_text(wasm: Seq<u8>) -> Option<Seq<char>>;

/// The bytes that standard, padded base64 text decodes to.
pub uninterp spec fn base64_decoded(text: Seq<char>) -> Option<Seq<u8>>;

/// The UTF-8 text that a gzip stream inflates to.
pub uninterp spec fn gunzipped_text(stream: Seq<u8>) -> Option<Seq<char>>;

pub open spec fn optional_text(o: Option<String>) -> Option<Seq<char>> {
    match o {
        Some(s) => Some(s@),
        None => None,
    }
}

/// Relies on `regex::Regex::new`, `regex::Regex::captures` and `regex::Captures::get`:
/// group 1 of the first match; `None` when the pattern does not compile, nothing matches,
/// or group 1 took no part in the match.
#[verifier::external_body]
pub(crate) fn first_group(pattern: &str, text: &str) -> (r: Option<String>)
    ensures
        optional_text(r) == regex_first_group(pattern@, text@),
{
    let re = match regex::Regex::new(pattern) {
        Ok(re) => re,
        Err(_) => return None,
    };
    match re.captures(text) {
        Some(caps) => match caps.get(1) {
            Some(m) => Some(m.as_str().to_string()),
            None => None,
        },
        None => None,
    }
}

/// Relies on `regex::Regex::new`, `regex::Regex::captures_iter` and `regex::Captures::get`:
/// one entry per match, in order; no entry when the pattern does not compile.
#[verifier::external_body]
pub(crate) fn group_per_match(pattern: &str, text: &str) -> (r: Vec<Option<String>>)
    ensures
        r@.len() == regex_group_per_match(pattern@, text@).len(),
        forall|i: int|
            0 <= i < r@.len() ==> optional_text(#[trigger] r@[i]) == regex_group_per_match(
                pattern@,
                text@,
            )[i],
{
    let re = match regex::Regex::new(pattern) {
        Ok(re) => re,
        Err(_) => return Vec::new(),
    };
    let mut groups = Vec::new();
    for caps in re.captures_iter(text) {
        groups.push(match caps.get(1) {
            Some(m) => Some(m.as_str().to_string()),
            None => None,
        });
    }
    groups
}

/// Relies on `wasmprinter::print_bytes`: the text format of the module or component, or an
/// error when the bytes do not decode.
#[verifier::external_body]
pub(crate) fn print_wasm(wasm: &[u8]) -> (r: Option<String>)
    ensures
        optional_text(r) == wasm_text(wasm@),
{
    wasmprinter::print_bytes(wasm).ok()
}

/// Relies on `base64::Engine::decode` with `base64::engine::general_purpose::STANDARD`: the
/// decoded bytes, or an error when the text is not valid padded base64.
#[verifier::external_body]
pub(crate) fn decode_base64(text: &str) -> (r: Option<Vec<u8>>)
    ensures
        match r {
            Some(b) => base64_decoded(text@) == Some(b@),
            None => base64_decoded(text@) is None,
        },
{
    base64::Engine::decode(&base64::engine::general_purpose::STANDARD, text).ok()
}

/// Relies on `flate2::read::GzDecoder`, read through `std::io::Read::read_to_string`: the
/// inflated text, or an error when the stream is corrupt or does not inflate to UTF-8.
#[verifier::external_body]
pub(crate) fn gunzip_to_string(stream: &[u8]) -> (r: Option<String>)
    ensures
        optional_text(r) == gunzipped_text(stream@),
{
    let mut text = String::new();
    match std::io::Read::read_to_string(&mut flate2::read::GzDecoder::new(stream), &mut text) {
        Ok(_) => Some(text),
        Err(_) => None,
    }
}

} // verus!
