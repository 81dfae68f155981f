//! The payload's two encodings: MessagePack (`rmp_serde`) for the value and
//! standard, padded base64 (`base64`) for carrying those bytes in JSON.
//!
//! What base64 computes is named, not restated: the names below stand for
//! its results, and the wrappers tie each call's result to its name. The
//! MessagePack form of a byte vector, and of `()`, is short enough to state.

use base64::engine::general_purpose::STANDARD;
use base64::Engine;
use vstd::prelude::*;

verus! {

/// The text that base64 (standard alphabet, with padding) makes of `bytes`.
pub uninterp spec fn base64_encoded(bytes: Seq<u8>) -> Seq<char>;

/// What base64 decoding (standard alphabet, padding required) makes of
/// `text`; `None` where the decoder refuses the text.
pub uninterp spec fn base64_decoded(text: Seq<char>) -> Option<Seq<u8>>;


/// The MessagePack array header for `n` elements (`n` below 2^32), as
/// `rmp_serde` writes it for a sequence: a fixarray (below 16), an array16
/// (below 2^16) or an array32, big-endian.
pub open spec fn msgpack_array_header(n: nat) -> Seq<u8> {
    let len = n;
    if len < 16 {
        seq![(0x90 + len) as u8]
    } else if len < 0x1_0000 {
        seq![0xdcu8, (len / 0x100) as u8, (len % 0x100) as u8]
    } else {
        seq![
            0xddu8,
            (len / 0x100_0000) as u8,
            (len / 0x1_0000 % 0x100) as u8,
            (len / 0x100 % 0x100) as u8,
            (len % 0x100) as u8,
        ]
    }
}

/// A byte as a MessagePack unsigned integer: a positive fixint below 128,
/// otherwise the uint8 marker `0xcc` followed by the byte.
pub open spec fn msgpack_uint8(b: u8) -> Seq<u8> {
    if b < 128 {
        seq![b]
    } else {
        seq![0xccu8, b]
    }
}

/// The bytes of a sequence, each as a MessagePack unsigned integer.
pub open spec fn msgpack_uint8s(bytes: Seq<u8>) -> Seq<u8>
    decreases bytes.len(),
{
    if bytes.len() == 0 {
        Seq::empty()
    } else {
        msgpack_uint8s(bytes.drop_last()) + msgpack_uint8(bytes.last())
    }
}

/// The MessagePack bytes that `rmp_serde::to_vec` writes for a `Vec<u8>`
/// holding `bytes`: serde hands it over as a sequence of `u8`, which becomes
/// an array header followed by each byte as an unsigned integer.
pub open spec fn msgpack_of_bytes(bytes: Seq<u8>) -> Seq<u8> {
    msgpack_array_header(bytes.len()) + msgpack_uint8s(bytes)
}

/// Length of the padded base64 text for `n` input bytes: four characters
/// for every started group of three bytes.
pub open spec fn base64_len(n: nat) -> nat {
    (n + 2) / 3 * 4
}

/// What `rmp_serde::to_vec` writes for the unit value `()`: the nil marker.
pub open spec fn msgpack_nil() -> Seq<u8> {
    seq![0xc0u8]
}

/// A byte vector short enough for its base64 text to fit in memory: any
/// vector whose length is at most `isize::MAX`, which std guarantees of
/// every `Vec<u8>` it hands out.
pub proof fn lemma_base64_len_fits(n: nat)
    requires
        n <= isize::MAX,
    ensures
        base64_len(n) <= usize::MAX,
{
    assert(isize::MAX <= usize::MAX / 2);
}

/// `Engine::encode` of `base64::engine::general_purpose::STANDARD`.
/// Claimed: the text is the named base64 encoding of the bytes, has the
/// padded length that `base64::encoded_len` computes, and decodes back to
/// the bytes, as the crate's documentation and round-trip tests show. The
/// call panics when that length overflows `usize`, which `requires` leaves
/// out.
#[verifier::external_body]
pub(crate) fn base64_encode(bytes: &[u8]) -> (text: String)
    requires
        base64_len(bytes@.len()) <= usize::MAX,
    ensures
        text@ == base64_encoded(bytes@),
        text@.len() == base64_len(bytes@.len()),
        base64_decoded(text@) == Some(bytes@),
{
    STANDARD.encode(bytes)
}

/// `Engine::decode` of `base64::engine::general_purpose::STANDARD`.
/// Claimed: the result is the named decoding of the text (an error exactly
/// where the name says `None`), and decoding the text that `encode` made of
/// some bytes gives those bytes back, as the crate's documentation shows.
#[verifier::external_body]
pub(crate) fn base64_decode(text: &str) -> (res: Result<Vec<u8>, base64::DecodeError>)
    ensures
        match res {
            Ok(bytes) => base64_decoded(text@) == Some(bytes@),
            Err(_) => base64_decoded(text@) is None,
        },
        forall|bytes: Seq<u8>| #[trigger] base64_encoded(bytes) == text@
            ==> (res is Ok && res->Ok_0@ == bytes),
{
    STANDARD.decode(text)
}

/// `rmp_serde::to_vec` on a `Vec<u8>`.
/// Claimed: the output is the MessagePack encoding of the bytes stated by
/// `msgpack_of_bytes` (`serialize_seq`, `write_array_len`, then
/// `serialize_u8` through `write_uint`/`write_uint8` for each byte), and
/// as any `Vec<u8>` it holds at most `isize::MAX` bytes. `to_vec` writes
/// into a growable buffer and fails only when the allocator refuses to
/// grow it; that failure ends the program here, as every other failed
/// allocation does. A vector of 2^32 bytes or more takes the serializer's
/// unknown-length path, whose `u32` element count overflows; `requires`
/// leaves such vectors out.
#[verifier::external_body]
pub(crate) fn msgpack_encode_bytes(raw: &Vec<u8>) -> (encoded: Vec<u8>)
    requires
        raw@.len() <= u32::MAX,
    ensures
        encoded@ == msgpack_of_bytes(raw@),
        encoded@.len() <= isize::MAX,
{
    rmp_serde::to_vec(raw).expect("allocation of the MessagePack buffer failed")
}

/// `rmp_serde::to_vec` on `()`.
/// Claimed: the output is the single nil marker `0xc0`, which the
/// serializer's `serialize_unit` writes through `rmp::encode::write_nil`.
/// As above, only a refused allocation makes `to_vec` fail.
#[verifier::external_body]
pub(crate) fn msgpack_encode_unit() -> (encoded: Vec<u8>)
    ensures
        encoded@ == msgpack_nil(),
{
    rmp_serde::to_vec(&()).expect("allocation of the MessagePack buffer failed")
}

} // verus!
