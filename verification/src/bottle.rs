//! The bottle: a JSON envelope (id, version, endpoints, action, trits,
//! encoding, TTL) around a base64-encoded MessagePack payload.

use crate::clock::{id_timestamp_ms, is_v7, unix_now, v7_id};
use crate::conservation::{charge_fits, lemma_trit_total_bounds, lemma_trit_total_push, trit_total};
use crate::encoding::{
    base64_decode, base64_decoded, base64_encode, base64_encoded, base64_len, lemma_base64_len_fits,
    msgpack_encode_bytes, msgpack_encode_unit, msgpack_nil, msgpack_of_bytes,
};
use crate::error::BottleError;
use vstd::prelude::*;

verus! {

/// Ternary digit.
pub type Trit = i8;

/// A SuperInstance bottle: JSON envelope carrying an opaque msgpack payload.
#[derive(Debug, Clone)]
pub struct Bottle {
    /// The bytes of a UUIDv7: the first six hold the creation time in Unix
    /// milliseconds, big-endian.
    pub id: [u8; 16],
    pub ver: u32,
    pub src: String,
    pub tgt: String,
    pub act: String,
    pub trits: Vec<i8>,
    /// Encoding identifier (always "msgpack").
    pub enc: String,
    /// The base64-encoded MessagePack payload.
    pub pay: String,
    pub ttl: u32,
}

/// Lightweight view of the envelope fields. Useful for routing/inspection
/// without deserialising the payload.
#[derive(Debug, Clone)]
pub struct BottleHeader {
    pub id: [u8; 16],
    pub ver: u32,
    pub src: String,
    pub tgt: String,
    pub act: String,
    pub trits: Vec<i8>,
    pub enc: String,
    pub ttl: u32,
}

/// The bottle has outlived its time-to-live at `now` (Unix seconds): more
/// than `ttl` seconds have passed since the whole second in which its id
/// was made.
pub open spec fn expired_at(bottle: Bottle, now: int) -> bool {
    now > id_timestamp_ms(bottle.id@) / 1000 + bottle.ttl
}

/// The TTL boundary, for every TTL: a bottle made in second `S` is still
/// valid at `S + ttl` and expired from `S + ttl + 1` on; before its
/// creation second it is never expired.
pub proof fn lemma_ttl_boundary(bottle: Bottle, now: int)
    ensures
        !expired_at(bottle, id_timestamp_ms(bottle.id@) / 1000 + bottle.ttl),
        expired_at(bottle, id_timestamp_ms(bottle.id@) / 1000 + bottle.ttl + 1),
        now <= id_timestamp_ms(bottle.id@) / 1000 ==> !expired_at(bottle, now),
        expired_at(bottle, now) <==> now - id_timestamp_ms(bottle.id@) / 1000 > bottle.ttl,
{
}

/// Expiry is permanent: a bottle that has expired at some time stays
/// expired at every later time.
pub proof fn lemma_expiry_is_permanent(bottle: Bottle, earlier: int, later: int)
    requires
        earlier <= later,
        expired_at(bottle, earlier),
    ensures
        expired_at(bottle, later),
{
}

impl Bottle {
    /// The envelope of a fresh bottle: version 1, the given endpoints,
    /// action, trits, id and TTL, encoding "msgpack", and as payload the
    /// base64 text of `msgpack` (bytes already in MessagePack form).
    pub fn from_parts(
        id: [u8; 16],
        src: &str,
        tgt: &str,
        act: &str,
        trits: Vec<i8>,
        msgpack: &[u8],
        ttl: u32,
    ) -> (bottle: Bottle)
        requires
            base64_len(msgpack@.len()) <= usize::MAX,
        ensures
            bottle.id == id,
            bottle.ver == 1,
            bottle.src@ == src@,
            bottle.tgt@ == tgt@,
            bottle.act@ == act@,
            bottle.trits@ == trits@,
            bottle.enc@ == "msgpack"@,
            bottle.pay@ == base64_encoded(msgpack@),
            bottle.ttl == ttl,
    {
        Bottle {
            id,
            ver: 1,
            src: src.to_owned(),
            tgt: tgt.to_owned(),
            act: act.to_owned(),
            trits,
            enc: "msgpack".to_owned(),
            pay: base64_encode(msgpack),
            ttl,
        }
    }

    /// Construct a new bottle. Generates a uuidv7 `id`, sets `ver` to 1,
    /// and base64-encodes the payload's MessagePack bytes into the `pay`
    /// field. `encoded_payload` is what `rmp_serde::to_vec` made of the
    /// payload; where it failed, so does this, with `MsgpackEncode`.
    pub fn new(
        src: &str,
        tgt: &str,
        act: &str,
        trits: Vec<i8>,
        encoded_payload: Result<Vec<u8>, rmp_serde::encode::Error>,
        ttl: u32,
    ) -> (res: Result<Bottle, BottleError>)
        requires
            encoded_payload matches Ok(encoded) ==> base64_len(encoded@.len()) <= usize::MAX,
        ensures
            encoded_payload is Err <==> res is Err,
            encoded_payload matches Err(e) ==> (res matches Err(BottleError::MsgpackEncode(e2))
                && e2 == e),
            encoded_payload matches Ok(encoded) ==> (res matches Ok(bottle) && {
                &&& bottle.ver == 1
                &&& bottle.src@ == src@
                &&& bottle.tgt@ == tgt@
                &&& bottle.act@ == act@
                &&& bottle.trits@ == trits@
                &&& bottle.enc@ == "msgpack"@
                &&& bottle.pay@ == base64_encoded(encoded@)
                &&& bottle.ttl == ttl
                &&& is_v7(bottle.id@)
            }),
    {
        match encoded_payload {
            Ok(encoded) => {
                let id = v7_id(unix_now());
                Ok(Bottle::from_parts(id, src, tgt, act, trits, encoded.as_slice(), ttl))
            },
            Err(e) => Err(BottleError::MsgpackEncode(e)),
        }
    }

    /// Create a bottle with raw payload bytes. Msgpack-wraps the bytes,
    /// then base64-encodes into `pay`. The bytes must number below 2^32, as
    /// the MessagePack serializer counts them in a `u32`.
    pub fn new_raw(
        src: &str,
        tgt: &str,
        act: &str,
        trits: Vec<i8>,
        raw_payload: Vec<u8>,
        ttl: u32,
    ) -> (bottle: Bottle)
        requires
            raw_payload@.len() <= u32::MAX,
        ensures
            bottle.ver == 1,
            bottle.src@ == src@,
            bottle.tgt@ == tgt@,
            bottle.act@ == act@,
            bottle.trits@ == trits@,
            bottle.enc@ == "msgpack"@,
            bottle.pay@ == base64_encoded(msgpack_of_bytes(raw_payload@)),
            bottle.ttl == ttl,
            is_v7(bottle.id@),
    {
        let encoded = msgpack_encode_bytes(&raw_payload);
        proof {
            lemma_base64_len_fits(encoded@.len());
        }
        let id = v7_id(unix_now());
        Bottle::from_parts(id, src, tgt, act, trits, encoded.as_slice(), ttl)
    }

    /// Convenience: create a bottle with no structured payload (empty msgpack).
    pub fn new_empty(src: &str, tgt: &str, act: &str, trits: Vec<i8>, ttl: u32) -> (bottle: Bottle)
        ensures
            bottle.ver == 1,
            bottle.src@ == src@,
            bottle.tgt@ == tgt@,
            bottle.act@ == act@,
            bottle.trits@ == trits@,
            bottle.enc@ == "msgpack"@,
            bottle.pay@ == base64_encoded(msgpack_nil()),
            bottle.ttl == ttl,
            is_v7(bottle.id@),
    {
        let encoded = msgpack_encode_unit();
        let id = v7_id(unix_now());
        Bottle::from_parts(id, src, tgt, act, trits, encoded.as_slice(), ttl)
    }

    /// The MessagePack bytes the payload carries: the base64 decoding of
    /// `pay`. Fails with `Base64Decode` exactly when `pay` is not valid
    /// base64. Reading back a payload written as the base64 text of some
    /// bytes gives those bytes.
    pub fn payload_msgpack(&self) -> (res: Result<Vec<u8>, BottleError>)
        ensures
            base64_decoded(self.pay@) matches Some(bytes) ==> (res is Ok && res->Ok_0@ == bytes),
            base64_decoded(self.pay@) is None ==> (res matches Err(e) && e is Base64Decode),
            forall|bytes: Seq<u8>| #[trigger] base64_encoded(bytes) == self.pay@
                ==> (res is Ok && res->Ok_0@ == bytes),
            forall|bytes: Seq<u8>| #[trigger] base64_encoded(bytes) == self.pay@
                ==> base64_decoded(self.pay@) == Some(bytes),
    {
        match base64_decode(self.pay.as_str()) {
            Ok(bytes) => Ok(bytes),
            Err(e) => Err(BottleError::Base64Decode(e)),
        }
    }

    /// Decode the msgpack payload into a typed value, with `from_msgpack`
    /// as the MessagePack decoder for the target type (such as
    /// `rmp_serde::from_slice`). Fails with `Base64Decode` exactly when
    /// `pay` is not valid base64; otherwise the decoder is handed the
    /// payload's MessagePack bytes, and its value is returned, or its error
    /// as `MsgpackDecode`. A `pay` written as the base64 text of some bytes
    /// (as every constructor writes it) hands exactly those bytes to the
    /// decoder.
    pub fn decode_payload<T, F: Fn(Vec<u8>) -> Result<T, rmp_serde::decode::Error>>(
        &self,
        from_msgpack: F,
    ) -> (res: Result<T, BottleError>)
        requires
            forall|bytes: Vec<u8>| from_msgpack.requires((bytes,)),
        ensures
            base64_decoded(self.pay@) is None <==> (res matches Err(e) && e is Base64Decode),
            base64_decoded(self.pay@) matches Some(payload) ==> exists|
                bytes: Vec<u8>,
                out: Result<T, rmp_serde::decode::Error>,
            |
                #![trigger from_msgpack.ensures((bytes,), out)]
                bytes@ == payload && from_msgpack.ensures((bytes,), out) && match out {
                    Ok(value) => res == Ok::<T, BottleError>(value),
                    Err(e) => res matches Err(BottleError::MsgpackDecode(e2)) && e2 == e,
                },
            forall|bytes: Seq<u8>| #[trigger] base64_encoded(bytes) == self.pay@
                ==> base64_decoded(self.pay@) == Some(bytes),
    {
        let bytes = self.payload_msgpack()?;
        let out = from_msgpack(bytes);
        match out {
            Ok(value) => Ok(value),
            Err(e) => Err(BottleError::MsgpackDecode(e)),
        }
    }

    /// Extract the uuidv7 timestamp (milliseconds since epoch) from the id.
    fn id_to_timestamp_ms(&self) -> (ms: u64)
        ensures
            ms == id_timestamp_ms(self.id@),
    {
        (self.id[0] as u64) * 0x100_0000_0000 + (self.id[1] as u64) * 0x1_0000_0000
            + (self.id[2] as u64) * 0x100_0000 + (self.id[3] as u64) * 0x1_0000
            + (self.id[4] as u64) * 0x100 + (self.id[5] as u64)
    }

    /// Check the TTL against the clock reading `now_secs` (Unix seconds):
    /// `TtlExpired` with this bottle's id when more than `ttl` seconds have
    /// passed since the second the id was made, `Ok` otherwise.
    pub fn validate_at(&self, now_secs: u64) -> (res: Result<(), BottleError>)
        ensures
            res is Ok <==> !expired_at(*self, now_secs as int),
            res is Err ==> (res matches Err(BottleError::TtlExpired { id }) && id == self.id),
            res is Ok <==> now_secs <= id_timestamp_ms(self.id@) / 1000 + self.ttl,
    {
        let created_ms = self.id_to_timestamp_ms();
        let created_sec = created_ms / 1000;
        if now_secs > created_sec + self.ttl as u64 {
            return Err(BottleError::TtlExpired { id: self.id });
        }
        Ok(())
    }

    /// Validate the bottle against the system clock: the TTL must not have
    /// expired (see `validate_at`). A clock that reads before the Unix
    /// epoch gives a `Validation` error.
    pub fn validate(&self) -> (res: Result<(), BottleError>)
        ensures
            res matches Err(e) ==> (e matches BottleError::TtlExpired { id } && id == self.id)
                || e is Validation,
    {
        match unix_now() {
            Some((now_secs, _)) => self.validate_at(now_secs),
            None => Err(BottleError::Validation {
                reason: "the system clock reads before the Unix epoch".to_owned(),
            }),
        }
    }

    /// Compute the ternary sum of this bottle's trits.
    pub fn trit_sum(&self) -> (sum: i32)
        requires
            charge_fits(self.trits@),
        ensures
            sum == trit_total(self.trits@),
    {
        let mut acc: i128 = 0;
        let mut i: usize = 0;
        while i < self.trits.len()
            invariant
                i <= self.trits@.len(),
                acc == trit_total(self.trits@.take(i as int)),
            decreases self.trits@.len() - i,
        {
            proof {
                lemma_trit_total_bounds(self.trits@.take(i as int));
                lemma_trit_total_push(self.trits@.take(i as int), self.trits@[i as int]);
                assert(self.trits@.take(i as int).push(self.trits@[i as int]) =~= self.trits@.take(i + 1));
            }
            acc = acc + self.trits[i] as i128;
            i = i + 1;
        }
        assert(self.trits@.take(i as int) =~= self.trits@);
        acc as i32
    }
}

} // verus!
