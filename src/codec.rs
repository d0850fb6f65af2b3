//! The signature scheme and the payload encoding shared by requests and
//! responses: a payload is JSON text carried as base64, and it is signed by
//! hashing its base64 text followed by the secret key.

use vstd::prelude::*;
use vstd::string::*;
use vstd::utf8::*;
use sha1::Digest;
use crate::model::PurchaseData;
use crate::validation::ValidationError;

verus! {

broadcast use {encode_utf8_valid_utf8, encode_utf8_decode_utf8};

/// The SHA-1 digest of a message.
pub uninterp spec fn sha1_of(message: Seq<u8>) -> Seq<u8>;

/// Relies on sha1::Sha1 through digest::Digest::digest: the SHA-1 digest of
/// `message`, whose output size is 20 bytes.
#[verifier::external_body]
fn sha1_digest(message: &[u8]) -> (r: Vec<u8>)
    ensures
        r@ == sha1_of(message@),
        r@.len() == 20,
{
    sha1::Sha1::digest(message).to_vec()
}

/// The base64 text of some bytes (standard alphabet, with padding).
pub uninterp spec fn base64_of(bytes: Seq<u8>) -> Seq<char>;

/// The bytes that a text encodes in base64, or nothing when it is not valid
/// base64.
pub uninterp spec fn base64_decoded(text: Seq<char>) -> Option<Seq<u8>>;

/// Whether base64 can encode this many bytes: the encoded length must be
/// representable as an allocation size.
pub open spec fn base64_fits(len: nat) -> bool {
    (len + 2) / 3 <= (isize::MAX as int) / 4
}

/// Relies on base64::encode (standard alphabet, padded): the encoding of
/// `bytes`, which base64::decode turns back into `bytes`. It panics when the
/// encoded length overflows, which `requires` leaves out.
#[verifier::external_body]
fn base64_encode(bytes: &[u8]) -> (r: String)
    requires
        base64_fits(bytes@.len()),
    ensures
        r@ == base64_of(bytes@),
        base64_decoded(r@) == Some(bytes@),
{
    base64::encode(bytes)
}

/// Relies on base64::decode (standard alphabet, padded): the bytes that the
/// text encodes, or an error when it is not valid base64.
#[verifier::external_body]
fn base64_decode(text: &str) -> (r: Option<Vec<u8>>)
    ensures
        r is Some <==> base64_decoded(text@) is Some,
        r is Some ==> base64_decoded(text@) == Some(r->Some_0@),
{
    match base64::decode(text) {
        Ok(bytes) => Some(bytes),
        Err(_) => None,
    }
}

/// Relies on std::str::from_utf8: it accepts exactly the valid UTF-8 byte
/// strings, and their characters are the decoded text.
#[verifier::external_body]
fn utf8_text(bytes: &[u8]) -> (r: Option<String>)
    ensures
        r is Some <==> valid_utf8(bytes@),
        r is Some ==> r->Some_0@ == decode_utf8(bytes@),
{
    match std::str::from_utf8(bytes) {
        Ok(text) => Some(text.to_string()),
        Err(_) => None,
    }
}

/// The JSON string literal for a text: quotes, with the characters escaped.
pub uninterp spec fn json_string(s: Seq<char>) -> Seq<char>;

/// Relies on serde_json::to_string on a string slice: the JSON string literal
/// for `s`. For a string slice it cannot fail, as the serializer writes into a
/// `Vec<u8>`; the empty string stands in the unreachable error arm.
#[verifier::external_body]
fn json_quote(s: &str) -> (r: String)
    ensures
        r@ == json_string(s@),
{
    match serde_json::to_string(s) {
        Ok(text) => text,
        Err(_) => String::new(),
    }
}

pub open spec fn hex_digits() -> Seq<char> {
    seq!['0', '1', '2', '3', '4', '5', '6', '7', '8', '9', 'a', 'b', 'c', 'd', 'e', 'f']
}

/// Lowercase hexadecimal, two digits per byte, high nibble first.
pub open spec fn lower_hex(bytes: Seq<u8>) -> Seq<char>
    decreases bytes.len(),
{
    if bytes.len() == 0 {
        Seq::empty()
    } else {
        let b = bytes.last();
        lower_hex(bytes.drop_last()) + seq![
            hex_digits()[(b / 16) as int],
            hex_digits()[(b % 16) as int],
        ]
    }
}

pub open spec fn is_lower_hex_digit(c: char) -> bool {
    ('0' <= c && c <= '9') || ('a' <= c && c <= 'f')
}

/// The signature of a payload: SHA-1 of the payload followed by the secret,
/// in lowercase hexadecimal.
pub open spec fn signature(payload: Seq<u8>, secret: Seq<u8>) -> Seq<char> {
    lower_hex(sha1_of(payload + secret))
}

proof fn lemma_lower_hex_shape(bytes: Seq<u8>)
    ensures
        lower_hex(bytes).len() == 2 * bytes.len(),
        forall|i: int|
            0 <= i < lower_hex(bytes).len() ==> is_lower_hex_digit(#[trigger] lower_hex(bytes)[i]),
    decreases bytes.len(),
{
    if bytes.len() > 0 {
        lemma_lower_hex_shape(bytes.drop_last());
        let b = bytes.last();
        assert(is_lower_hex_digit(hex_digits()[(b / 16) as int]));
        assert(is_lower_hex_digit(hex_digits()[(b % 16) as int]));
    }
}

fn hex_digit(n: u8) -> (r: &'static str)
    requires
        n < 16,
    ensures
        r@ == seq![hex_digits()[n as int]],
{
    let table = "0123456789abcdef";
    proof {
        reveal_strlit("0123456789abcdef");
        assert(table@ =~= hex_digits());
    }
    table.substring_ascii(n as usize, n as usize + 1)
}

/// Renders bytes in lowercase hexadecimal.
pub fn to_lower_hex(bytes: &[u8]) -> (r: String)
    ensures
        r@ == lower_hex(bytes@),
{
    let mut out = String::new();
    let mut i: usize = 0;
    while i < bytes.len()
        invariant
            i <= bytes@.len(),
            out@ == lower_hex(bytes@.subrange(0, i as int)),
        decreases bytes@.len() - i,
    {
        let b = bytes[i];
        out.append(hex_digit(b / 16));
        out.append(hex_digit(b % 16));
        assert(bytes@.subrange(0, i + 1).drop_last() =~= bytes@.subrange(0, i as int));
        i += 1;
    }
    assert(bytes@.subrange(0, bytes@.len() as int) =~= bytes@);
    out
}

/// Signs a payload with a secret key: 40 lowercase hexadecimal digits that
/// depend on the two byte strings alone.
pub fn sign(payload: &[u8], secret: &[u8]) -> (r: String)
    ensures
        r@ == signature(payload@, secret@),
        r@.len() == 40,
        forall|i: int| 0 <= i < r@.len() ==> is_lower_hex_digit(#[trigger] r@[i]),
{
    let mut message: Vec<u8> = Vec::new();
    message.extend_from_slice(payload);
    message.extend_from_slice(secret);
    assert(message@ =~= payload@ + secret@);
    let digest = sha1_digest(message.as_slice());
    proof {
        lemma_lower_hex_shape(digest@);
    }
    to_lower_hex(digest.as_slice())
}

/// The text that an encoded payload carries: its base64 decoded, then read as
/// UTF-8; nothing when either step fails.
pub open spec fn payload_text(encoded: Seq<char>) -> Option<Seq<char>> {
    match base64_decoded(encoded) {
        Some(bytes) => if valid_utf8(bytes) {
            Some(decode_utf8(bytes))
        } else {
            None
        },
        None => None,
    }
}

/// The encoded payload that carries a text: the base64 of its UTF-8 bytes.
pub open spec fn encoded_payload(text: Seq<char>) -> Seq<char> {
    base64_of(encode_utf8(text))
}

/// Whether a text is short enough to be carried as a payload.
pub fn fits_in_payload(text: &str) -> (r: bool)
    ensures
        r == base64_fits(encode_utf8(text@).len()),
{
    let n = text.as_bytes().len();
    let chunks = if n % 3 == 0 {
        n / 3
    } else {
        n / 3 + 1
    };
    chunks <= (isize::MAX as usize) / 4
}

/// Encodes a text as a payload; decoding the result gives the text back.
pub fn encode_text(text: &str) -> (r: String)
    requires
        base64_fits(encode_utf8(text@).len()),
    ensures
        r@ == encoded_payload(text@),
        payload_text(r@) == Some(text@),
{
    base64_encode(text.as_bytes())
}

/// Decodes a payload into the text that it carries.
pub fn decode_payload(encoded: &str) -> (r: Result<String, ValidationError>)
    ensures
        match payload_text(encoded@) {
            Some(text) => r is Ok && r->Ok_0@ == text,
            None => r == Err::<String, _>(ValidationError::Encoding),
        },
{
    let bytes = match base64_decode(encoded) {
        Some(b) => b,
        None => return Err(ValidationError::Encoding),
    };
    match utf8_text(bytes.as_slice()) {
        Some(text) => Ok(text),
        None => Err(ValidationError::Encoding),
    }
}

/// The JSON member `"key":value` for a string value.
pub open spec fn json_member(key: Seq<char>, value: Seq<char>) -> Seq<char> {
    json_string(key) + seq![':'] + json_string(value)
}

/// The canonical JSON text of a receipt: its fields in declaration order, with
/// no whitespace, and without `client_identifier` when it is absent.
pub open spec fn canonical_json(p: PurchaseData) -> Seq<char> {
    seq!['{'] + json_member("platform"@, p.platform@) + seq![','] + json_member(
        "product_id"@,
        p.product_id@,
    ) + seq![','] + json_member("order_id"@, p.order_id@) + seq![','] + json_member(
        "receipt"@,
        p.receipt@,
    ) + match p.client_identifier {
        Some(c) => seq![','] + json_member("client_identifier"@, c@),
        None => Seq::<char>::empty(),
    } + seq!['}']
}

pub(crate) fn push_member(out: &mut String, key: &str, value: &str)
    ensures
        final(out)@ == old(out)@ + json_member(key@, value@),
{
    out.append(json_quote(key).as_str());
    out.append(":");
    out.append(json_quote(value).as_str());
    proof {
        reveal_strlit(":");
    }
}

/// Writes the canonical JSON text of a receipt.
pub fn purchase_json(p: &PurchaseData) -> (r: String)
    ensures
        r@ == canonical_json(*p),
{
    proof {
        reveal_strlit("{");
        reveal_strlit(",");
        reveal_strlit("}");
    }
    let mut out = String::new();
    out.append("{");
    push_member(&mut out, "platform", p.platform.as_str());
    out.append(",");
    push_member(&mut out, "product_id", p.product_id.as_str());
    out.append(",");
    push_member(&mut out, "order_id", p.order_id.as_str());
    out.append(",");
    push_member(&mut out, "receipt", p.receipt.as_str());
    match &p.client_identifier {
        Some(c) => {
            out.append(",");
            push_member(&mut out, "client_identifier", c.as_str());
        },
        None => {},
    }
    out.append("}");
    assert(out@ =~= canonical_json(*p));
    out
}

/// Serialises a receipt to its canonical JSON text and encodes it as a
/// payload. Decoding the payload gives the canonical JSON text back. The one
/// failure is a text too long to encode.
pub fn encode_payload(p: &PurchaseData) -> (r: Result<String, ValidationError>)
    ensures
        base64_fits(encode_utf8(canonical_json(*p)).len()) ==> {
            &&& r is Ok
            &&& r->Ok_0@ == encoded_payload(canonical_json(*p))
            &&& payload_text(r->Ok_0@) == Some(canonical_json(*p))
        },
        !base64_fits(encode_utf8(canonical_json(*p)).len()) ==> r == Err::<String, _>(
            ValidationError::Serialization,
        ),
{
    let json = purchase_json(p);
    if !fits_in_payload(json.as_str()) {
        return Err(ValidationError::Serialization);
    }
    Ok(encode_text(json.as_str()))
}

/// The signature of a text under a secret key: both are signed as their UTF-8
/// bytes.
pub open spec fn text_signature(text: Seq<char>, secret: Seq<char>) -> Seq<char> {
    signature(encode_utf8(text), encode_utf8(secret))
}

/// Signs a text with a secret key, both as their UTF-8 bytes.
pub fn sign_text(text: &str, secret: &str) -> (r: String)
    ensures
        r@ == text_signature(text@, secret@),
        r@.len() == 40,
        forall|i: int| 0 <= i < r@.len() ==> is_lower_hex_digit(#[trigger] r@[i]),
{
    sign(text.as_bytes(), secret.as_bytes())
}

/// The code of a character with ASCII upper case folded to lower case.
pub open spec fn folded(c: char) -> u32 {
    if 'A' <= c && c <= 'Z' {
        (c as u32 + 32) as u32
    } else {
        c as u32
    }
}

/// Two signatures agree when they are equal up to ASCII case.
pub open spec fn signatures_agree(a: Seq<char>, b: Seq<char>) -> bool {
    &&& a.len() == b.len()
    &&& forall|i: int| 0 <= i < a.len() ==> folded(#[trigger] a[i]) == folded(b[i])
}

fn fold_char(c: char) -> (r: u32)
    ensures
        r == folded(c),
{
    if 'A' <= c && c <= 'Z' {
        c as u32 + 32
    } else {
        c as u32
    }
}

/// Compares two signatures up to ASCII case.
pub fn same_signature(a: &str, b: &str) -> (r: bool)
    ensures
        r == signatures_agree(a@, b@),
{
    let n = a.unicode_len();
    if n != b.unicode_len() {
        return false;
    }
    let mut i: usize = 0;
    while i < n
        invariant
            n == a@.len(),
            n == b@.len(),
            i <= n,
            forall|j: int| 0 <= j < i ==> folded(#[trigger] a@[j]) == folded(b@[j]),
        decreases n - i,
    {
        if fold_char(a.get_char(i)) != fold_char(b.get_char(i)) {
            return false;
        }
        i += 1;
    }
    true
}

} // verus!
