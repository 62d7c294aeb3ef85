//! Base58 and base64 transcoding of raw byte sequences.
//!
//! The transcoding itself is done by the `bs58` and `base64` crates. What
//! they return is named here by four uninterpreted functions, and the
//! contracts of this module are stated over those names.

use vstd::prelude::*;

use crate::error::LedgerError;

verus! {

/// Whether `c` belongs to the base58 alphabet: the digits and the Latin
/// letters without `0`, `O`, `I` and `l`.
pub open spec fn is_base58_char(c: char) -> bool {
    ||| '1' <= c <= '9'
    ||| 'A' <= c <= 'H'
    ||| 'J' <= c <= 'N'
    ||| 'P' <= c <= 'Z'
    ||| 'a' <= c <= 'k'
    ||| 'm' <= c <= 'z'
}

/// Whether every character of `text` belongs to the base58 alphabet.
pub open spec fn is_base58(text: Seq<char>) -> bool {
    forall|i: int| 0 <= i < text.len() ==> is_base58_char(#[trigger] text[i])
}

/// Whether `c` may occur in padded standard base64: a letter, a digit, `+`,
/// `/`, or the padding sign `=`.
pub open spec fn is_base64_char(c: char) -> bool {
    ||| 'A' <= c <= 'Z'
    ||| 'a' <= c <= 'z'
    ||| '0' <= c <= '9'
    ||| c == '+'
    ||| c == '/'
    ||| c == '='
}

/// What every text that decodes as padded standard base64 looks like: whole
/// groups of four characters, each of them a base64 character.
pub open spec fn is_base64_shaped(text: Seq<char>) -> bool {
    &&& text.len() % 4 == 0
    &&& forall|i: int| 0 <= i < text.len() ==> is_base64_char(#[trigger] text[i])
}

/// The base58 text that stands for `bytes`.
pub uninterp spec fn base58_text(bytes: Seq<u8>) -> Seq<char>;

/// The bytes that a base58 text stands for. Meaningful where `is_base58`
/// holds of the text.
pub uninterp spec fn base58_bytes(text: Seq<char>) -> Seq<u8>;

/// The padded standard base64 text that stands for `bytes`.
pub uninterp spec fn base64_text(bytes: Seq<u8>) -> Seq<char>;

/// The bytes that a padded standard base64 text stands for, or `None` where
/// the text is not well-formed.
pub uninterp spec fn base64_bytes(text: Seq<char>) -> Option<Seq<u8>>;

/// Whether an input of `len` bytes is short enough for its base58 text to
/// be built: the encoder reserves one and a half times the input's length.
pub open spec fn base58_encodable(len: nat) -> bool {
    len + (len + 1) / 2 <= isize::MAX
}

/// Whether an input of `len` bytes is short enough for its base64 text to
/// be built: four characters for every three bytes, the last group padded.
pub open spec fn base64_encodable(len: nat) -> bool {
    4 * ((len + 2) / 3) <= isize::MAX
}

/// The number of characters of the base64 text of `len` bytes.
pub open spec fn base64_length(len: nat) -> nat {
    4 * ((len + 2) / 3)
}

/// The number of padding signs at the end of the base64 text of `len`
/// bytes.
pub open spec fn base64_padding(len: nat) -> nat {
    ((3 - len % 3) % 3) as nat
}

/// Whether the last `count` characters of `text` are padding signs.
pub open spec fn ends_in_padding(text: Seq<char>, count: nat) -> bool {
    &&& count <= text.len()
    &&& forall|i: int| text.len() - count <= i < text.len() ==> #[trigger] text[i] == '='
}

/// Calls `bs58::encode(..).into_string()`, with the default (Bitcoin)
/// alphabet. Trusted: the result is the text named `base58_text`; it is made
/// of alphabet characters only; it has at least one character for each
/// byte; and `bs58::decode` maps it back to `bytes`.
#[verifier::external_body]
fn bs58_encode(bytes: &[u8]) -> (text: String)
    requires
        base58_encodable(bytes@.len()),
    ensures
        text@ == base58_text(bytes@),
        is_base58(text@),
        text@.len() >= bytes@.len(),
        base58_bytes(text@) == bytes@,
{
    solana_sdk::bs58::encode(bytes).into_string()
}

/// Calls `bs58::decode(..).into_vec()`, with the default (Bitcoin) alphabet.
/// Trusted: it succeeds exactly on the texts made of alphabet characters
/// only; the bytes are those named `base58_bytes`, at most one for each
/// character; and `bs58::encode` maps them back to `text`, there being one
/// text for each byte string.
#[verifier::external_body]
fn bs58_decode(text: &str) -> (bytes: Option<Vec<u8>>)
    ensures
        bytes is Some <==> is_base58(text@),
        bytes matches Some(b) ==> b@ == base58_bytes(text@) && b@.len() <= text@.len()
            && base58_text(b@) == text@,
{
    solana_sdk::bs58::decode(text).into_vec().ok()
}

/// Calls `base64::encode`, the padded standard engine. Trusted: the result
/// is the text named `base64_text`; it has four characters for every three
/// bytes, the last group filled up with padding signs; and `base64::decode`
/// maps it back to `bytes`.
#[verifier::external_body]
#[allow(deprecated)]
fn b64_encode(bytes: &[u8]) -> (text: String)
    requires
        base64_encodable(bytes@.len()),
    ensures
        text@ == base64_text(bytes@),
        text@.len() == base64_length(bytes@.len()),
        ends_in_padding(text@, base64_padding(bytes@.len())),
        base64_bytes(text@) == Some(bytes@),
{
    base64::encode(bytes)
}

/// Calls `base64::decode`, the padded standard engine. Trusted: the result
/// is the one named `base64_bytes`, and a text that is accepted has the
/// shape of padded base64.
#[verifier::external_body]
#[allow(deprecated)]
fn b64_decode(text: &str) -> (bytes: Option<Vec<u8>>)
    ensures
        bytes matches Some(b) ==> base64_bytes(text@) == Some(b@) && is_base64_shaped(text@),
        bytes is None ==> base64_bytes(text@) is None,
{
    base64::decode(text).ok()
}

/// What `base58_decode` returns for `text`.
pub open spec fn base58_decoded(text: Seq<char>) -> Result<Seq<u8>, LedgerError> {
    if is_base58(text) {
        Ok(base58_bytes(text))
    } else {
        Err(LedgerError::InvalidEncoding)
    }
}

/// What `base64_decode` returns for `text`.
pub open spec fn base64_decoded(text: Seq<char>) -> Result<Seq<u8>, LedgerError> {
    match base64_bytes(text) {
        Some(bytes) => Ok(bytes),
        None => Err(LedgerError::InvalidEncoding),
    }
}

/// The view of a decoding result: the bytes as a sequence.
pub open spec fn decoded_view(r: Result<Vec<u8>, LedgerError>) -> Result<Seq<u8>, LedgerError> {
    match r {
        Ok(bytes) => Ok(bytes@),
        Err(e) => Err(e),
    }
}

/// Whether `text` is the base58 text of `bytes`: what `base58_encode`
/// returns for `bytes`, and what `base58_decode` turns into `bytes`.
pub open spec fn encodes_base58(bytes: Seq<u8>, text: Seq<char>) -> bool {
    &&& text == base58_text(bytes)
    &&& is_base58(text)
    &&& text.len() >= bytes.len()
    &&& base58_bytes(text) == bytes
}

/// Whether `text` is what `base64_encode` returns for `bytes`.
pub open spec fn encodes_base64(bytes: Seq<u8>, text: Seq<char>) -> bool {
    &&& text == base64_text(bytes)
    &&& text.len() == base64_length(bytes.len())
    &&& ends_in_padding(text, base64_padding(bytes.len()))
    &&& base64_bytes(text) == Some(bytes)
}

/// The base58 text of `bytes`. The codec carries no checksum. The input
/// must be short enough for the text to be built in memory.
pub fn base58_encode(bytes: &[u8]) -> (text: String)
    requires
        base58_encodable(bytes@.len()),
    ensures
        encodes_base58(bytes@, text@),
{
    bs58_encode(bytes)
}

/// The bytes of a base58 text. Fails with `InvalidEncoding` exactly where
/// `text` holds a character outside the base58 alphabet; the length of the
/// result is the caller's to check. The bytes have `text` as their base58
/// text.
pub fn base58_decode(text: &str) -> (r: Result<Vec<u8>, LedgerError>)
    ensures
        decoded_view(r) == base58_decoded(text@),
        r matches Ok(bytes) ==> encodes_base58(bytes@, text@),
{
    match bs58_decode(text) {
        Some(bytes) => Ok(bytes),
        None => Err(LedgerError::InvalidEncoding),
    }
}

/// The padded standard base64 text of `bytes`. The input must be short
/// enough for the text to be built in memory.
pub fn base64_encode(bytes: &[u8]) -> (text: String)
    requires
        base64_encodable(bytes@.len()),
    ensures
        encodes_base64(bytes@, text@),
{
    b64_encode(bytes)
}

/// The bytes of a padded standard base64 text. Fails with `InvalidEncoding`
/// where the text is not well-formed, which includes every text with a
/// character outside the alphabet or with a length that is no multiple of
/// four.
pub fn base64_decode(text: &str) -> (r: Result<Vec<u8>, LedgerError>)
    ensures
        decoded_view(r) == base64_decoded(text@),
        !is_base64_shaped(text@) ==> r == Err::<Vec<u8>, LedgerError>(LedgerError::InvalidEncoding),
{
    match b64_decode(text) {
        Some(bytes) => Ok(bytes),
        None => Err(LedgerError::InvalidEncoding),
    }
}

/// Round trip: the text that `base58_encode` returns for `bytes` is decoded
/// by `base58_decode` to `bytes` again.
pub proof fn lemma_base58_round_trip(bytes: Seq<u8>, text: Seq<char>)
    requires
        encodes_base58(bytes, text),
    ensures
        base58_decoded(text) == Ok::<Seq<u8>, LedgerError>(bytes),
{
}

/// Round trip: the text that `base64_encode` returns for `bytes` is decoded
/// by `base64_decode` to `bytes` again.
pub proof fn lemma_base64_round_trip(bytes: Seq<u8>, text: Seq<char>)
    requires
        encodes_base64(bytes, text),
    ensures
        base64_decoded(text) == Ok::<Seq<u8>, LedgerError>(bytes),
{
}

} // verus!
