//! Opening the inbound payload.
//!
//! The request arrives as the hexadecimal form of an AES-256-CBC
//! ciphertext. The secret that opens it is configured in hexadecimal form
//! too: its first 32 bytes are the cipher key, the 16 bytes after them the
//! initialisation vector. What is opened is the request as text; reading
//! the request out of that text is left to the caller.

use libaes::Cipher;
use vstd::prelude::*;
use vstd::utf8::{decode_utf8, valid_utf8};

verus! {

/// The bytes of the cipher key.
pub const KEY_LEN: usize = 32;

/// The bytes of the initialisation vector.
pub const IV_LEN: usize = 16;

/// Why a byte string is not the hexadecimal form of anything.
#[derive(Clone, Copy, Debug, PartialEq, Eq, Structural)]
pub enum HexError {
    /// The character `c` at `index` is no hexadecimal digit.
    InvalidCharacter { c: char, index: usize },
    /// The number of characters is odd.
    OddLength,
    /// The decoded bytes do not fit where they were to go. Decoding into a
    /// fresh vector, as this crate does, never fails so.
    InvalidStringLength,
}

/// Why a payload could not be opened.
#[derive(Clone, Copy, Debug, PartialEq, Eq, Structural)]
pub enum OpenError {
    /// The secret is not in hexadecimal form.
    SecretNotHex(HexError),
    /// The payload is not in hexadecimal form.
    PayloadNotHex(HexError),
    /// The secret is too short to hold a key and an initialisation vector.
    SecretTooShort,
    /// What was decrypted is not UTF-8 text.
    NotText,
}

/// The value of the hexadecimal digit `b`, in either case.
pub open spec fn hex_value(b: u8) -> Option<nat> {
    if '0' as u8 <= b <= '9' as u8 {
        Some((b - '0' as u8) as nat)
    } else if 'a' as u8 <= b <= 'f' as u8 {
        Some((b - 'a' as u8 + 10) as nat)
    } else if 'A' as u8 <= b <= 'F' as u8 {
        Some((b - 'A' as u8 + 10) as nat)
    } else {
        None
    }
}

/// Whether `data` is the hexadecimal form of a byte string: an even number
/// of hexadecimal digits.
pub open spec fn is_hex(data: Seq<u8>) -> bool {
    &&& data.len() % 2 == 0
    &&& forall|i: int| 0 <= i < data.len() ==> hex_value(#[trigger] data[i]) is Some
}

/// The byte string that `data` is the hexadecimal form of: each pair of
/// digits gives one byte, the first digit its upper half.
pub open spec fn hex_decoded(data: Seq<u8>) -> Seq<u8> {
    Seq::new(
        data.len() / 2,
        |i: int| (16 * hex_value(data[2 * i])->0 + hex_value(data[2 * i + 1])->0) as u8,
    )
}

/// Whether `error` says what is wrong with `data`: the odd length is
/// named before any character, and of the characters that are no digits
/// the first one.
pub open spec fn hex_refusal(data: Seq<u8>, error: HexError) -> bool {
    match error {
        HexError::OddLength => data.len() % 2 == 1,
        HexError::InvalidCharacter { c, index } => {
            &&& data.len() % 2 == 0
            &&& index < data.len()
            &&& hex_value(data[index as int]) is None
            &&& c == data[index as int] as char
            &&& forall|i: int| 0 <= i < index ==> hex_value(#[trigger] data[i]) is Some
        },
        HexError::InvalidStringLength => false,
    }
}

/// The plaintext that AES-256 in CBC mode, with PKCS#7 padding taken off,
/// gives for the ciphertext `data` under `key` and `iv`, as `libaes`
/// computes it.
pub uninterp spec fn aes256_cbc_plaintext(key: Seq<u8>, iv: Seq<u8>, data: Seq<u8>) -> Seq<u8>;

/// What opening gives for a decrypted payload: its text, if it is text.
pub open spec fn text_of_plaintext(plain: Seq<u8>) -> Result<Seq<char>, OpenError> {
    if valid_utf8(plain) {
        Ok(decode_utf8(plain))
    } else {
        Err(OpenError::NotText)
    }
}

/// What decrypting `data` with `secret` gives.
pub open spec fn decrypted(data: Seq<u8>, secret: Seq<u8>) -> Result<Seq<char>, OpenError> {
    if secret.len() < KEY_LEN + IV_LEN {
        Err(OpenError::SecretTooShort)
    } else {
        text_of_plaintext(
            aes256_cbc_plaintext(
                secret.subrange(0, KEY_LEN as int),
                secret.subrange(KEY_LEN as int, KEY_LEN + IV_LEN),
                data,
            ),
        )
    }
}

/// What came of opening, as plain values.
pub open spec fn outcome_of(text: Result<String, OpenError>) -> Result<Seq<char>, OpenError> {
    match text {
        Ok(s) => Ok(s@),
        Err(e) => Err(e),
    }
}

/// Whether `outcome` is what opening the payload `payload_hex` with the
/// secret `secret_hex` gives. The secret's form is looked at first, then
/// the payload's; if both are in hexadecimal form, the outcome is that of
/// decrypting what they stand for.
pub open spec fn opened(
    payload_hex: Seq<u8>,
    secret_hex: Seq<u8>,
    outcome: Result<Seq<char>, OpenError>,
) -> bool {
    match outcome {
        Err(OpenError::SecretNotHex(error)) => hex_refusal(secret_hex, error),
        Err(OpenError::PayloadNotHex(error)) => is_hex(secret_hex) && hex_refusal(
            payload_hex,
            error,
        ),
        _ => {
            &&& is_hex(secret_hex)
            &&& is_hex(payload_hex)
            &&& outcome == decrypted(hex_decoded(payload_hex), hex_decoded(secret_hex))
        },
    }
}

/// Decodes hexadecimal digits into bytes.
///
/// Trusted: this is `hex::decode`. The contract says what its source
/// shows. It succeeds exactly on an even number of hexadecimal digits, of
/// either case, and then each pair of digits gives one byte, the first
/// digit its upper half. Otherwise it reports an odd length, or else the
/// first character that is no digit, with its index. Its error is handed on
/// variant by variant.
#[verifier::external_body]
fn hex_decode(data: &[u8]) -> (decoded: Result<Vec<u8>, HexError>)
    ensures
        match decoded {
            Ok(bytes) => is_hex(data@) && bytes@ == hex_decoded(data@),
            Err(error) => hex_refusal(data@, error),
        },
{
    match hex::decode(data) {
        Ok(bytes) => Ok(bytes),
        Err(hex::FromHexError::InvalidHexCharacter { c, index }) => Err(
            HexError::InvalidCharacter { c, index },
        ),
        Err(hex::FromHexError::OddLength) => Err(HexError::OddLength),
        Err(hex::FromHexError::InvalidStringLength) => Err(HexError::InvalidStringLength),
    }
}

/// Decrypts a ciphertext with AES-256 in CBC mode and takes the padding
/// off.
///
/// Trusted: this is `libaes::Cipher::new_256` followed by
/// `Cipher::cbc_decrypt` on the cipher it made. The contract only names
/// the result: it is a function of the key, the initialisation vector and
/// the ciphertext. A key of 32 bytes is what `new_256` takes, and with an
/// initialisation vector of 16 bytes `cbc_decrypt` does not panic.
#[verifier::external_body]
fn aes256_cbc_decrypt(key: &[u8], iv: &[u8], data: &[u8]) -> (plain: Vec<u8>)
    requires
        key@.len() == KEY_LEN,
        iv@.len() == IV_LEN,
    ensures
        plain@ == aes256_cbc_plaintext(key@, iv@, data@),
{
    let key: &[u8; 32] = key.try_into().unwrap();
    Cipher::new_256(key).cbc_decrypt(iv, data)
}

/// Reads bytes as UTF-8 text.
///
/// Trusted: this is `String::from_utf8` of the standard library. The
/// contract says that it succeeds exactly on valid UTF-8, and that the
/// string then holds the characters that the bytes encode.
#[verifier::external_body]
fn utf8_text(bytes: Vec<u8>) -> (text: Option<String>)
    ensures
        match text {
            Some(s) => valid_utf8(bytes@) && s@ == decode_utf8(bytes@),
            None => !valid_utf8(bytes@),
        },
{
    match String::from_utf8(bytes) {
        Ok(text) => Some(text),
        Err(_) => None,
    }
}

/// The text that a decrypted payload holds. Bytes that are not UTF-8 are
/// refused.
pub fn read_plaintext(plain: Vec<u8>) -> (text: Result<String, OpenError>)
    ensures
        outcome_of(text) == text_of_plaintext(plain@),
{
    match utf8_text(plain) {
        Some(text) => Ok(text),
        None => Err(OpenError::NotText),
    }
}

/// Decrypts `data` with the key and the initialisation vector that
/// `secret` begins with, and reads the result as text. A secret of fewer
/// than 48 bytes is refused; bytes beyond the 48th are not looked at.
pub fn decrypt(data: &[u8], secret: &[u8]) -> (text: Result<String, OpenError>)
    ensures
        outcome_of(text) == decrypted(data@, secret@),
{
    if secret.len() < KEY_LEN + IV_LEN {
        return Err(OpenError::SecretTooShort);
    }
    let key = vstd::slice::slice_subrange(secret, 0, KEY_LEN);
    let iv = vstd::slice::slice_subrange(secret, KEY_LEN, KEY_LEN + IV_LEN);
    read_plaintext(aes256_cbc_decrypt(key, iv, data))
}

/// At most one error says what is wrong with `data`, and none does if
/// `data` is in hexadecimal form.
pub proof fn lemma_hex_refusal_unique(data: Seq<u8>, a: HexError, b: HexError)
    requires
        hex_refusal(data, a),
        hex_refusal(data, b),
    ensures
        a == b,
        !is_hex(data),
{
}

proof fn lemma_first_stray(data: Seq<u8>, upto: int) -> (index: int)
    requires
        0 <= upto <= data.len(),
    ensures
        0 <= index <= upto,
        forall|i: int| 0 <= i < index ==> hex_value(#[trigger] data[i]) is Some,
        index < upto ==> hex_value(data[index]) is None,
    decreases upto,
{
    if upto == 0 {
        0
    } else {
        let index = lemma_first_stray(data, upto - 1);
        if index < upto - 1 || hex_value(data[upto - 1]) is None {
            index
        } else {
            upto
        }
    }
}

/// Every byte string that fits in memory either is in hexadecimal form or
/// has an error that says what is wrong with it.
pub proof fn lemma_hex_or_refusal(data: Seq<u8>)
    requires
        data.len() <= usize::MAX,
    ensures
        is_hex(data) || exists|error: HexError| hex_refusal(data, error),
{
    if data.len() % 2 == 1 {
        assert(hex_refusal(data, HexError::OddLength));
    } else {
        let index = lemma_first_stray(data, data.len() as int);
        if index < data.len() {
            assert(hex_refusal(
                data,
                HexError::InvalidCharacter { c: data[index] as char, index: index as usize },
            ));
        }
    }
}

/// Opens the payload: decodes the secret and the payload from their
/// hexadecimal forms, decrypts the payload and reads it as text.
pub fn open_payload(payload_hex: &[u8], secret_hex: &[u8]) -> (text: Result<String, OpenError>)
    ensures
        opened(payload_hex@, secret_hex@, outcome_of(text)),
{
    let secret = match hex_decode(secret_hex) {
        Ok(secret) => secret,
        Err(error) => {
            return Err(OpenError::SecretNotHex(error));
        },
    };
    let payload = match hex_decode(payload_hex) {
        Ok(payload) => payload,
        Err(error) => {
            return Err(OpenError::PayloadNotHex(error));
        },
    };
    decrypt(payload.as_slice(), secret.as_slice())
}

} // verus!
