//! The layered transport codec: base64 text on the outside, optionally an
//! authenticated envelope whose message may be zlib-compressed, and the
//! domain response bytes on the inside.

use vstd::prelude::*;
use base64::Engine;
use crate::error::CodecError;
use crate::wire::Envelope;
use crate::wire::copy_byte_range;
use crate::wire::encode_envelope_seq;
use crate::wire::lemma_envelope_roundtrip;
use crate::wire::parse_envelope;
use crate::wire::parse_fields;

verus! {

/// What `base64`'s standard engine encodes the given bytes to.
pub uninterp spec fn b64_encode_of(bytes: Seq<u8>) -> Seq<char>;

/// What `base64`'s standard engine decodes the given text to, when it
/// decodes at all.
pub uninterp spec fn b64_decode_of(text: Seq<char>) -> Option<Seq<u8>>;

/// What `zune_inflate` inflates the given zlib stream to, when the stream
/// inflates at all.
pub uninterp spec fn inflate_zlib_of(bytes: Seq<u8>) -> Option<Seq<u8>>;

/// Relies on base64's `Engine::encode` with the standard alphabet and
/// padding: a deterministic rendering of the input bytes, empty exactly
/// for empty input.
#[verifier::external_body]
fn b64_encode(bytes: &Vec<u8>) -> (r: String)
    ensures
        r@ == b64_encode_of(bytes@),
        bytes@.len() == 0 <==> r@.len() == 0,
{
    base64::engine::general_purpose::STANDARD.encode(bytes.as_slice())
}

/// Relies on base64's `Engine::decode` with the standard engine: a
/// deterministic partial inverse of `Engine::encode`, which in particular
/// maps everything `encode` produces back to `encode`'s input.
#[verifier::external_body]
fn b64_decode(text: &str) -> (r: Option<Vec<u8>>)
    ensures
        r is Some <==> b64_decode_of(text@) is Some,
        r matches Some(v) ==> b64_decode_of(text@) == Some(v@),
        r matches Some(v) ==> forall|b: Seq<u8>| text@ == b64_encode_of(b) ==> v@ == b,
        r is None ==> forall|b: Seq<u8>| text@ != b64_encode_of(b),
{
    match base64::engine::general_purpose::STANDARD.decode(text) {
        Ok(v) => Some(v),
        Err(_) => None,
    }
}

/// Relies on zune_inflate's `DeflateDecoder::decode_zlib`: deterministic
/// inflation of a zlib stream, failing exactly on streams the format
/// rejects.
#[verifier::external_body]
fn inflate_zlib(bytes: &Vec<u8>) -> (r: Option<Vec<u8>>)
    ensures
        r is Some <==> inflate_zlib_of(bytes@) is Some,
        r matches Some(v) ==> inflate_zlib_of(bytes@) == Some(v@),
{
    let mut decoder = zune_inflate::DeflateDecoder::new(bytes.as_slice());
    match decoder.decode_zlib() {
        Ok(v) => Some(v),
        Err(_) => None,
    }
}

/// Base64-encode an encoded request, as the transport's form field wants
/// it.
pub fn encode_payload(bytes: &Vec<u8>) -> (r: String)
    ensures
        r@ == b64_encode_of(bytes@),
{
    b64_encode(bytes)
}

/// What opening an envelope yields: the message itself, or its inflation
/// when the compressed flag is set.
pub open spec fn spec_open_envelope(compressed: bool, message: Seq<u8>) -> Result<
    Seq<u8>,
    CodecError,
> {
    if !compressed {
        Ok(message)
    } else {
        match inflate_zlib_of(message) {
            Some(m) => Ok(m),
            None => Err(CodecError::CompressionError),
        }
    }
}

/// Open an envelope: hand the message through unchanged when it is not
/// compressed, inflate it when it is.
pub fn open_envelope(env: &Envelope) -> (r: Result<Vec<u8>, CodecError>)
    ensures
        match spec_open_envelope(env.compressed, env.message@) {
            Ok(m) => r is Ok && r->Ok_0@ == m,
            Err(e) => r == Err::<Vec<u8>, CodecError>(e),
        },
        !env.compressed ==> r is Ok && r->Ok_0@ == env.message@,
{
    if !env.compressed {
        let m = copy_byte_range(&env.message, 0, env.message.len());
        proof {
            assert(env.message@.subrange(0, env.message@.len() as int) =~= env.message@);
        }
        Ok(m)
    } else {
        match inflate_zlib(&env.message) {
            Some(m) => Ok(m),
            None => Err(CodecError::CompressionError),
        }
    }
}

/// The full decode of a raw transport response: base64, then (when the
/// endpoint wraps its response) the envelope and its optional compression.
pub open spec fn spec_decode_response(text: Seq<char>, expect_envelope: bool) -> Result<
    Seq<u8>,
    CodecError,
> {
    match b64_decode_of(text) {
        None => Err(CodecError::EncodingError),
        Some(bytes) => if !expect_envelope {
            Ok(bytes)
        } else {
            match parse_fields(bytes, 0, false, Seq::empty()) {
                None => Err(CodecError::EnvelopeError),
                Some((compressed, message)) => spec_open_envelope(compressed, message),
            }
        },
    }
}

/// Decode a raw response body into domain-response bytes.
///
/// The second clause is the codec round trip: any text that base64-encodes
/// some payload decodes, without an envelope, back to exactly that
/// payload.  The last two clauses are the envelope symmetry through the
/// full stack: a base64-wrapped canonical envelope comes back as its
/// message — unchanged when uncompressed, inflated when compressed.
pub fn decode_response(text: &str, expect_envelope: bool) -> (r: Result<Vec<u8>, CodecError>)
    ensures
        match spec_decode_response(text@, expect_envelope) {
            Ok(bytes) => r is Ok && r->Ok_0@ == bytes,
            Err(e) => r == Err::<Vec<u8>, CodecError>(e),
        },
        forall|b: Seq<u8>|
            text@ == b64_encode_of(b) && !expect_envelope ==> r is Ok && r->Ok_0@ == b,
        expect_envelope ==> forall|m: Seq<u8>|
            text@ == b64_encode_of(encode_envelope_seq(false, m)) && m.len() <= u64::MAX ==> r
                is Ok && r->Ok_0@ == m,
        expect_envelope ==> forall|z: Seq<u8>, m: Seq<u8>|
            text@ == b64_encode_of(encode_envelope_seq(true, z)) && z.len() <= u64::MAX
                && inflate_zlib_of(z) == Some(m) ==> r is Ok && r->Ok_0@ == m,
{
    let bytes = match b64_decode(text) {
        None => {
            return Err(CodecError::EncodingError);
        },
        Some(v) => v,
    };
    proof {
        assert forall|c: bool, m: Seq<u8>|
            text@ == b64_encode_of(encode_envelope_seq(c, m)) && m.len()
                <= u64::MAX implies parse_fields(bytes@, 0, false, Seq::empty()) == Some(
            ((c, m)),
        ) by {
            lemma_envelope_roundtrip(c, m);
        }
    }
    if !expect_envelope {
        return Ok(bytes);
    }
    let env = match parse_envelope(&bytes) {
        None => {
            return Err(CodecError::EnvelopeError);
        },
        Some(env) => env,
    };
    open_envelope(&env)
}

} // verus!
