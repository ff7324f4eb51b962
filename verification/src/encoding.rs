//! Text encodings of bytes (base64, base58) and the private-key codec built on them.

use vstd::prelude::*;

use vstd::string::StringSliceAdditionalSpecFns;

use base64::engine::general_purpose::STANDARD;
use base64::Engine;

verus! {

/// The standard base64 text (with padding) of `bytes`, as the `base64` crate writes it.
pub uninterp spec fn base64_text(bytes: Seq<u8>) -> Seq<char>;

/// What the standard base64 decoder of the `base64` crate makes of `text`: the bytes,
/// or none when the text is not valid padded base64.
pub uninterp spec fn base64_bytes(text: Seq<char>) -> Option<Seq<u8>>;

/// The base58 text (Bitcoin alphabet) of `bytes`, as the `bs58` crate writes it.
pub uninterp spec fn base58_text(bytes: Seq<u8>) -> Seq<char>;

/// Calls `base64::engine::general_purpose::STANDARD.encode`. The crate panics when the
/// encoded length overflows `usize`, which the bound on the input rules out.
#[verifier::external_body]
fn base64_encode(data: &[u8]) -> (r: String)
    requires
        data@.len() <= usize::MAX / 2,
    ensures
        r@ == base64_text(data@),
{
    STANDARD.encode(data)
}

/// Calls `base64::engine::general_purpose::STANDARD.decode` and turns its error into
/// its message. Decoding undoes encoding: the text of some bytes decodes to them.
#[verifier::external_body]
fn base64_decode(text: &str) -> (r: Result<Vec<u8>, String>)
    ensures
        r is Ok <==> base64_bytes(text@) is Some,
        r matches Ok(v) ==> base64_bytes(text@) == Some(v@),
        r is Err ==> forall|b: Seq<u8>| #[trigger] base64_text(b) != text@,
        r matches Ok(v) ==> forall|b: Seq<u8>| #[trigger] base64_text(b) == text@ ==> v@ == b,
{
    match STANDARD.decode(text) {
        Ok(v) => Ok(v),
        Err(e) => Err(e.to_string()),
    }
}

/// Calls `bs58::encode(..).into_string()`.
#[verifier::external_body]
fn base58_encode(data: &[u8]) -> (r: String)
    ensures
        r@ == base58_text(data@),
{
    bs58::encode(data).into_string()
}

/// Calls `String::from_utf8`: the text the bytes encode, or the error's message when
/// they are not UTF-8.
#[verifier::external_body]
fn string_from_utf8(bytes: Vec<u8>) -> (r: Result<String, String>)
    ensures
        r is Ok <==> vstd::utf8::valid_utf8(bytes@),
        r matches Ok(s) ==> s@ == vstd::utf8::decode_utf8(bytes@),
{
    match String::from_utf8(bytes) {
        Ok(s) => Ok(s),
        Err(e) => Err(e.to_string()),
    }
}

/// Base64 text for payloads sent to landing services.
pub struct Base64Encoder;

impl Base64Encoder {
    /// The standard base64 text of `data`.
    pub fn encode(data: &[u8]) -> (r: String)
        requires
            data@.len() <= usize::MAX / 2,
        ensures
            r@ == base64_text(data@),
    {
        base64_encode(data)
    }
}

/// Encodings a serialized transaction can be sent in.
#[derive(Debug, Clone, Copy, PartialEq, Eq, Structural)]
pub enum TransactionEncoding {
    Binary,
    Base58,
    Base64,
    Json,
    JsonParsed,
}

/// Error of an encoding other than base58 and base64.
pub open spec fn unsupported_encoding_error() -> Seq<char> {
    "Unsupported encoding"@
}

/// The text of serialized bytes in the requested encoding: base58 or base64; other
/// encodings are refused.
pub fn encode_serialized(bytes: &[u8], encoding: TransactionEncoding) -> (r: Result<String, String>)
    requires
        bytes@.len() <= usize::MAX / 2,
    ensures
        encoding == TransactionEncoding::Base58 ==> (r matches Ok(s) && s@ == base58_text(bytes@)),
        encoding == TransactionEncoding::Base64 ==> (r matches Ok(s) && s@ == base64_text(bytes@)),
        encoding != TransactionEncoding::Base58 && encoding != TransactionEncoding::Base64 ==> (r matches Err(
            e,
        ) && e@ == unsupported_encoding_error()),
{
    match encoding {
        TransactionEncoding::Base58 => Ok(base58_encode(bytes)),
        TransactionEncoding::Base64 => Ok(Base64Encoder::encode(bytes)),
        _ => Err("Unsupported encoding".to_owned()),
    }
}

/// Each byte of `data` xor-ed with the key byte at the same position modulo the key
/// length.
pub open spec fn spec_xor(data: Seq<u8>, key: Seq<u8>) -> Seq<u8> {
    Seq::new(data.len(), |i: int| data[i] ^ key[i % (key.len() as int)])
}

/// Xors `data` with the repeated `key`; applying it twice gives `data` back.
pub fn xor_encrypt_decrypt(data: &[u8], key: &[u8]) -> (r: Vec<u8>)
    requires
        key@.len() > 0,
    ensures
        r@ == spec_xor(data@, key@),
{
    let mut out: Vec<u8> = Vec::new();
    let mut i: usize = 0;
    while i < data.len()
        invariant
            key@.len() > 0,
            i <= data@.len(),
            out@.len() == i,
            forall|j: int| 0 <= j < i ==> #[trigger] out@[j] == data@[j] ^ key@[j % (key@.len() as int)],
        decreases data@.len() - i,
    {
        out.push(data[i] ^ key[i % key.len()]);
        i = i + 1;
    }
    assert(out@ =~= spec_xor(data@, key@));
    out
}

/// Xor-ing twice with the same key gives the data back.
pub proof fn law_xor_involution(data: Seq<u8>, key: Seq<u8>)
    requires
        key.len() > 0,
    ensures
        spec_xor(spec_xor(data, key), key) == data,
{
    let once = spec_xor(data, key);
    assert forall|i: int| 0 <= i < data.len() implies #[trigger] spec_xor(once, key)[i] == data[i] by {
        let d = data[i];
        let k = key[i % (key.len() as int)];
        assert((d ^ k) ^ k == d) by (bit_vector);
    }
    assert(spec_xor(once, key) =~= data);
}

/// The key private keys are stored under.
pub open spec fn spec_xor_key() -> Seq<u8> {
    seq![112u8, 120, 120, 120, 98, 98, 98]
}

/// The key private keys are stored under ("pxxxbbb").
pub fn xor_key() -> (r: Vec<u8>)
    ensures
        r@ == spec_xor_key(),
{
    let r = vec![112u8, 120, 120, 120, 98, 98, 98];
    assert(r@ =~= spec_xor_key());
    r
}

/// How a private key is stored: its UTF-8 bytes xor-ed with the key, as base64.
pub open spec fn spec_encrypted_key(plain: Seq<char>) -> Seq<char> {
    base64_text(spec_xor(vstd::utf8::encode_utf8(plain), spec_xor_key()))
}

/// Stores a private key (see `spec_encrypted_key`).
pub fn encrypt_private_key(plain_key: &str) -> (r: String)
    requires
        plain_key.spec_bytes().len() <= usize::MAX / 2,
    ensures
        r@ == spec_encrypted_key(plain_key@),
{
    let key = xor_key();
    let encrypted = xor_encrypt_decrypt(plain_key.as_bytes(), key.as_slice());
    base64_encode(encrypted.as_slice())
}

/// Prefix of the error for text that is not base64.
pub open spec fn base64_error_prefix() -> Seq<char> {
    "Failed to decode base64: "@
}

/// Prefix of the error for a decrypted key that is not UTF-8.
pub open spec fn utf8_error_prefix() -> Seq<char> {
    "Failed to decode decrypted key as UTF-8: "@
}

/// Recovers a stored private key: decodes the base64, xors with the key and reads the
/// bytes as UTF-8; each failure is reported with its own prefix.
pub fn decrypt_private_key(encrypted_key: &str) -> (r: Result<String, String>)
    ensures
        base64_bytes(encrypted_key@) is None ==> (r matches Err(e) && base64_error_prefix().is_prefix_of(
            e@,
        )),
        base64_bytes(encrypted_key@) matches Some(b) ==> {
            let plain = spec_xor(b, spec_xor_key());
            &&& vstd::utf8::valid_utf8(plain) ==> (r matches Ok(s) && s@ == vstd::utf8::decode_utf8(plain))
            &&& !vstd::utf8::valid_utf8(plain) ==> (r matches Err(e) && utf8_error_prefix().is_prefix_of(
                e@,
            ))
        },
        forall|plain: Seq<char>|
            #[trigger] spec_encrypted_key(plain) == encrypted_key@ ==> (r matches Ok(s) && s@ == plain),
{
    proof {
        assert forall|plain: Seq<char>| #[trigger] spec_encrypted_key(plain) == encrypted_key@ implies {
            let bytes = vstd::utf8::encode_utf8(plain);
            &&& vstd::utf8::valid_utf8(spec_xor(spec_xor(bytes, spec_xor_key()), spec_xor_key()))
            &&& vstd::utf8::decode_utf8(spec_xor(spec_xor(bytes, spec_xor_key()), spec_xor_key())) == plain
        } by {
            let bytes = vstd::utf8::encode_utf8(plain);
            law_xor_involution(bytes, spec_xor_key());
            vstd::utf8::encode_utf8_valid_utf8(plain);
            vstd::utf8::encode_utf8_decode_utf8(plain);
        }
    }
    let decoded = match base64_decode(encrypted_key) {
        Ok(v) => v,
        Err(e) => {
            let mut msg = "Failed to decode base64: ".to_owned();
            msg.append(e.as_str());
            assert(base64_error_prefix().is_prefix_of(msg@)) by {
                assert(msg@.subrange(0, base64_error_prefix().len() as int) =~= base64_error_prefix());
            }
            return Err(msg);
        },
    };
    let key = xor_key();
    let decrypted = xor_encrypt_decrypt(decoded.as_slice(), key.as_slice());
    match string_from_utf8(decrypted) {
        Ok(s) => Ok(s),
        Err(e) => {
            let mut msg = "Failed to decode decrypted key as UTF-8: ".to_owned();
            msg.append(e.as_str());
            assert(utf8_error_prefix().is_prefix_of(msg@)) by {
                assert(msg@.subrange(0, utf8_error_prefix().len() as int) =~= utf8_error_prefix());
            }
            Err(msg)
        },
    }
}

/// The decimal digit of `d` (below 10).
pub open spec fn decimal_digit(d: nat) -> char {
    ('0' as u32 + d) as char
}

/// The decimal text of `n`, as `u64`'s `Display` writes it.
pub open spec fn decimal(n: nat) -> Seq<char>
    decreases n,
{
    if n < 10 {
        seq![decimal_digit(n)]
    } else {
        decimal(n / 10).push(decimal_digit(n % 10))
    }
}

fn digit_str(d: u64) -> (r: &'static str)
    requires
        d < 10,
    ensures
        r@ == seq![decimal_digit(d as nat)],
{
    proof {
        reveal_strlit("0");
        reveal_strlit("1");
        reveal_strlit("2");
        reveal_strlit("3");
        reveal_strlit("4");
        reveal_strlit("5");
        reveal_strlit("6");
        reveal_strlit("7");
        reveal_strlit("8");
        reveal_strlit("9");
    }
    if d == 0 { "0" } else if d == 1 { "1" } else if d == 2 { "2" } else if d == 3 { "3" } else if d == 4 {
        "4"
    } else if d == 5 { "5" } else if d == 6 { "6" } else if d == 7 { "7" } else if d == 8 { "8" } else { "9" }
}

/// Appends the decimal text of `n`.
pub fn push_decimal(out: &mut String, n: u64)
    ensures
        final(out)@ == old(out)@ + decimal(n as nat),
    decreases n,
{
    if n >= 10 {
        push_decimal(out, n / 10);
    }
    let ghost mid = out@;
    out.append(digit_str(n % 10));
    proof {
        if n >= 10 {
            assert(decimal(n as nat) == decimal((n / 10) as nat).push(decimal_digit((n % 10) as nat)));
        }
        assert(out@ =~= old(out)@ + decimal(n as nat));
    }
}

} // verus!
