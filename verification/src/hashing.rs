//! Content addressing: captured payloads are stored under the lowercase hex
//! encoding of their 256-bit digest, so identical content always maps to the
//! identical filename.

use vstd::prelude::*;

verus! {

/// The digest used for content addressing. It is a function of the input
/// bytes alone; its value is not modelled here.
pub uninterp spec fn sha3_256_of(data: Seq<u8>) -> Seq<u8>;

/// What the standard base64 alphabet (with padding) decodes a text to, or
/// `None` where the text is not valid base64. A function of the text alone.
pub uninterp spec fn base64_decode_of(data: Seq<char>) -> Option<Seq<u8>>;

/// Relies on sha3::Sha3_256 (through sha3::Digest): a 32-byte digest that
/// depends on the input bytes alone.
#[verifier::external_body]
fn sha3_256(data: &[u8]) -> (r: Vec<u8>)
    ensures
        r@ == sha3_256_of(data@),
        r@.len() == 32,
{
    let mut hasher = <sha3::Sha3_256 as sha3::Digest>::new();
    sha3::Digest::update(&mut hasher, data);
    sha3::Digest::finalize(hasher).to_vec()
}

/// The lowercase hex digit for a value below 16.
pub open spec fn hex_digit(v: int) -> char {
    if v == 0 { '0' } else if v == 1 { '1' } else if v == 2 { '2' }
    else if v == 3 { '3' } else if v == 4 { '4' } else if v == 5 { '5' }
    else if v == 6 { '6' } else if v == 7 { '7' } else if v == 8 { '8' }
    else if v == 9 { '9' } else if v == 10 { 'a' } else if v == 11 { 'b' }
    else if v == 12 { 'c' } else if v == 13 { 'd' } else if v == 14 { 'e' }
    else { 'f' }
}

/// Lowercase hex encoding: two digits per byte, most significant first.
pub open spec fn hex_lower(data: Seq<u8>) -> Seq<char>
    decreases data.len(),
{
    if data.len() == 0 {
        Seq::<char>::empty()
    } else {
        seq![hex_digit(data.first() as int / 16), hex_digit(data.first() as int % 16)]
            + hex_lower(data.drop_first())
    }
}

/// Relies on hex::encode: lowercase hex, two digits per byte, most
/// significant digit first.
#[verifier::external_body]
fn hex_encode(data: &[u8]) -> (r: String)
    ensures
        r@ == hex_lower(data@),
{
    hex::encode(data)
}

/// Relies on base64::Engine::decode with the standard alphabet: decodes the
/// text, or fails exactly where the text is not valid base64.
#[verifier::external_body]
fn base64_decode(data: &str) -> (r: Option<Vec<u8>>)
    ensures
        r is Some <==> base64_decode_of(data@) is Some,
        r matches Some(v) ==> base64_decode_of(data@) matches Some(m) && v@ == m,
{
    base64::Engine::decode(&base64::engine::general_purpose::STANDARD, data).ok()
}

/// The content-addressed name of a payload: lowercase hex of its digest.
pub open spec fn spec_content_name(data: Seq<u8>) -> Seq<char> {
    hex_lower(sha3_256_of(data))
}

/// Hex-encoded digest of a byte payload; the stem of every stored filename.
pub fn bytes_to_hash(bytes: &[u8]) -> (r: String)
    ensures
        r@ == spec_content_name(bytes@),
{
    let digest = sha3_256(bytes);
    hex_encode(digest.as_slice())
}

/// One artifact ready to be stored: the content-addressed filename and the
/// decoded bytes that belong under it.
pub struct Artifact {
    pub filename: String,
    pub bytes: Vec<u8>,
}

/// Decodes a base64 payload and names it by its content: the filename is the
/// hex digest of the decoded bytes followed by the given suffix.
pub fn decode_artifact(data: &str, suffix: &str) -> (r: Option<Artifact>)
    ensures
        r is Some <==> base64_decode_of(data@) is Some,
        r matches Some(a) ==> base64_decode_of(data@) matches Some(m)
            && a.bytes@ == m
            && a.filename@ == spec_content_name(m) + suffix@,
{
    match base64_decode(data) {
        Some(bytes) => {
            let mut filename = bytes_to_hash(bytes.as_slice());
            filename.append(suffix);
            Some(Artifact { filename, bytes })
        },
        None => None,
    }
}

/// The stored name of a payload is a function of its bytes alone: storing
/// equal payloads twice yields the same filename, hence the same file.
pub proof fn lemma_content_name_deterministic(a: Seq<u8>, b: Seq<u8>)
    requires
        a == b,
    ensures
        spec_content_name(a) == spec_content_name(b),
{
}

} // verus!
