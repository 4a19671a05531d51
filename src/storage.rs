//! On-disk format of the device credential. The file holds the trimmed
//! credential in plain text, or, where the operating system wraps it at
//! rest, the base64 encoding of the wrapped blob.
use vstd::prelude::*;
use base64::Engine;
use vstd::utf8::*;
use crate::text::{lemma_trim_idempotent, is_ws, to_owned_text, trim, trim_spec};

verus! {

/// The standard base64 encoding (RFC 4648 alphabet, with `=` padding) of `bytes`.
pub uninterp spec fn base64_of(bytes: Seq<u8>) -> Seq<char>;

/// Characters of the standard base64 alphabet and its padding.
pub open spec fn is_base64_char(c: char) -> bool {
    ('A' <= c && c <= 'Z') || ('a' <= c && c <= 'z') || ('0' <= c && c <= '9') || c == '+' || c
        == '/' || c == '='
}

/// Relies on `base64::engine::general_purpose::STANDARD.encode`: the text is
/// the canonical padded encoding and uses only the standard alphabet.
#[verifier::external_body]
fn base64_encode(bytes: &[u8]) -> (r: String)
    requires
        bytes@.len() <= usize::MAX / 2,
    ensures
        r@ == base64_of(bytes@),
        forall|i: int| 0 <= i < r@.len() ==> is_base64_char(#[trigger] r@[i]),
{
    base64::engine::general_purpose::STANDARD.encode(bytes)
}

/// `base64::DecodeError`, carried only to be mapped to a store error.
#[verifier::external_type_specification]
#[verifier::external_body]
pub struct ExDecodeError(base64::DecodeError);

/// Relies on `base64::engine::general_purpose::STANDARD.decode`, which only
/// accepts canonical padded input: it inverts the encoding exactly.
#[verifier::external_body]
fn base64_decode(text: &str) -> (r: Result<Vec<u8>, base64::DecodeError>)
    ensures
        r is Ok ==> base64_of(r->Ok_0@) == text@,
        forall|b: Seq<u8>| #[trigger] base64_of(b) == text@ ==> r is Ok && r->Ok_0@ == b,
{
    base64::engine::general_purpose::STANDARD.decode(text)
}

/// `std::string::FromUtf8Error`, carried only to be mapped to a store error.
#[verifier::external_type_specification]
#[verifier::external_body]
pub struct ExFromUtf8Error(std::string::FromUtf8Error);

/// Relies on `String::from_utf8`: succeeds exactly on valid UTF-8 and
/// decodes it.
#[verifier::external_body]
fn utf8_decode(bytes: Vec<u8>) -> (r: Result<String, std::string::FromUtf8Error>)
    ensures
        r is Ok <==> valid_utf8(bytes@),
        r matches Ok(s) ==> s@ == decode_utf8(bytes@),
{
    String::from_utf8(bytes)
}

/// Why a stored credential could not be read back.
#[derive(Debug, Clone, Copy, PartialEq, Eq, Structural)]
pub enum StoreError {
    /// The file text is not base64.
    BadEncoding,
    /// The unwrapped bytes are not UTF-8 text.
    NotText,
}

/// Where the device credential is kept.
#[derive(Debug)]
pub struct Storage {
    key_path: String,
}

impl Storage {
    pub closed spec fn key_path_spec(&self) -> Seq<char> {
        self.key_path@
    }

    /// A store for the credential file at `key_path`.
    pub fn new(key_path: &str) -> (r: Storage)
        ensures
            r.key_path_spec() == key_path@,
    {
        Storage { key_path: to_owned_text(key_path) }
    }

    /// Path of the credential file.
    pub fn key_path(&self) -> (r: &str)
        ensures
            r@ == self.key_path_spec(),
    {
        self.key_path.as_str()
    }

    /// Text written to the file where no at-rest wrapping applies: the
    /// credential without surrounding whitespace.
    pub fn plain_file_text(key: &str) -> (r: String)
        ensures
            r@ == trim_spec(key@),
    {
        trim(key)
    }

    /// The credential read back from plain file text.
    pub fn key_from_plain_text(text: &str) -> (r: String)
        ensures
            r@ == trim_spec(text@),
    {
        trim(text)
    }

    /// Bytes handed to the operating system for wrapping: the UTF-8 encoding
    /// of the trimmed credential.
    pub fn bytes_to_protect(key: &str) -> (r: Vec<u8>)
        ensures
            r@ == encode_utf8(trim_spec(key@)),
    {
        let t = trim(key);
        let b = t.as_str().as_bytes();
        vstd::slice::slice_to_vec(b)
    }

    /// Text written to the file for a wrapped blob: its base64 encoding.
    pub fn protected_file_text(blob: &Vec<u8>) -> (r: String)
        requires
            blob@.len() <= usize::MAX / 2,
        ensures
            r@ == base64_of(blob@),
    {
        base64_encode(blob.as_slice())
    }

    /// The wrapped blob from the file text (surrounding whitespace ignored).
    pub fn blob_from_protected_text(text: &str) -> (r: Result<Vec<u8>, StoreError>)
        ensures
            r matches Ok(v) ==> base64_of(v@) == trim_spec(text@),
            r matches Err(e) ==> e == StoreError::BadEncoding,
            forall|b: Seq<u8>| #[trigger] base64_of(b) == trim_spec(text@) ==> (r matches Ok(v) && v@ == b),
    {
        let t = trim(text);
        match base64_decode(t.as_str()) {
            Ok(v) => Ok(v),
            Err(_) => Err(StoreError::BadEncoding),
        }
    }

    /// The credential from unwrapped bytes: UTF-8 text, trimmed.
    pub fn key_from_unprotected(bytes: Vec<u8>) -> (r: Result<String, StoreError>)
        ensures
            r is Ok <==> valid_utf8(bytes@),
            r matches Ok(s) ==> s@ == trim_spec(decode_utf8(bytes@)),
            r matches Err(e) ==> e == StoreError::NotText,
    {
        match utf8_decode(bytes) {
            Ok(s) => Ok(trim(s.as_str())),
            Err(_) => Err(StoreError::NotText),
        }
    }
}

/// Plain format: reading back what was written yields the trimmed
/// credential, which is the credential itself when it has no surrounding
/// whitespace.
pub proof fn lemma_plain_round_trip(key: Seq<char>)
    ensures
        trim_spec(trim_spec(key)) == trim_spec(key),
        trim_spec(key) == key ==> trim_spec(trim_spec(key)) == key,
{
    lemma_trim_idempotent(key);
}

/// Base64 text never carries whitespace, so trimming leaves it alone.
proof fn lemma_base64_text_untrimmed(t: Seq<char>)
    requires
        forall|i: int| 0 <= i < t.len() ==> is_base64_char(#[trigger] t[i]),
    ensures
        trim_spec(t) == t,
{
    if t.len() > 0 {
        assert(!is_ws(t[0]));
        assert(!is_ws(t.last()));
    }
}

/// Wrapped format: the blob written is the blob read back.
pub proof fn lemma_protected_round_trip(blob: Seq<u8>, text: Seq<char>)
    requires
        text == base64_of(blob),
        forall|i: int| 0 <= i < text.len() ==> is_base64_char(#[trigger] text[i]),
    ensures
        trim_spec(text) == base64_of(blob),
{
    lemma_base64_text_untrimmed(text);
}

/// Wrapped format: the bytes handed out for wrapping decode back to the
/// trimmed credential.
pub proof fn lemma_unprotected_round_trip(key: Seq<char>)
    ensures
        valid_utf8(encode_utf8(trim_spec(key))),
        trim_spec(decode_utf8(encode_utf8(trim_spec(key)))) == trim_spec(key),
{
    encode_utf8_valid_utf8(trim_spec(key));
    encode_utf8_decode_utf8(trim_spec(key));
    lemma_trim_idempotent(key);
}

} // verus!
