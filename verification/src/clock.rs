//! The two readings of the outside world a bottle needs: the wall clock,
//! for its time-to-live, and fresh time-ordered ids.

use uuid::{NoContext, Timestamp, Uuid};
use vstd::prelude::*;

verus! {

/// The creation time, in Unix milliseconds, that a UUIDv7 holds in its
/// first six bytes (big-endian).
pub open spec fn id_timestamp_ms(id: Seq<u8>) -> int {
    id[0] * 0x100_0000_0000 + id[1] * 0x1_0000_0000 + id[2] * 0x100_0000 + id[3] * 0x1_0000
        + id[4] * 0x100 + id[5]
}

/// The Unix milliseconds of a clock reading of `secs` seconds and `nanos`
/// nanoseconds, saturating at `u64::MAX`.
pub open spec fn unix_millis(secs: int, nanos: int) -> int {
    let ms = secs * 1000 + nanos / 1_000_000;
    if ms > u64::MAX {
        u64::MAX as int
    } else {
        ms
    }
}

/// The id bits that mark a UUID as version 7 of the RFC 4122 variant: the
/// high half of byte 6 is 7, the top two bits of byte 8 are `10`.
pub open spec fn is_v7(id: Seq<u8>) -> bool {
    id[6] / 16 == 7 && id[8] / 64 == 2
}

/// Id `a` sorts before id `b` byte by byte: they agree up to some byte,
/// where `a`'s is smaller.
pub open spec fn sorts_before(a: Seq<u8>, b: Seq<u8>) -> bool {
    exists|k: int| 0 <= k < a.len() && k < b.len() && a.take(k) == b.take(k) && #[trigger] a[k] < b[k]
}

/// Ids sort chronologically: an id whose first six bytes hold an earlier
/// millisecond sorts before one that holds a later millisecond, so ids made
/// (by `v7_id`) from readings in different milliseconds below 2^48 sort in
/// the order of their readings, and are distinct.
pub proof fn lemma_ids_sort_by_time(a: Seq<u8>, b: Seq<u8>)
    requires
        a.len() == 16,
        b.len() == 16,
        id_timestamp_ms(a) < id_timestamp_ms(b),
    ensures
        sorts_before(a, b),
        a != b,
{
    let k: int = if a[0] != b[0] {
        0
    } else if a[1] != b[1] {
        1
    } else if a[2] != b[2] {
        2
    } else if a[3] != b[3] {
        3
    } else if a[4] != b[4] {
        4
    } else {
        5
    };
    assert(a.take(k) =~= b.take(k));
    assert(a[k] < b[k]);
}

/// `std::time::SystemTime::elapsed` on `UNIX_EPOCH`, as whole seconds and
/// the nanoseconds of the second (`Duration::as_secs`, `subsec_nanos`).
/// Claimed: only that the nanoseconds are below one billion, as `Duration`
/// documents; the reading is the clock's. `None` where the clock reads
/// before the epoch.
#[verifier::external_body]
pub(crate) fn unix_now() -> (now: Option<(u64, u32)>)
    ensures
        now matches Some(reading) ==> reading.1 < 1_000_000_000,
{
    match std::time::UNIX_EPOCH.elapsed() {
        Ok(elapsed) => Some((elapsed.as_secs(), elapsed.subsec_nanos())),
        Err(_) => None,
    }
}

/// `uuid::Uuid::new_v7` of `Timestamp::from_unix(NoContext, secs, nanos)`,
/// as its 16 bytes.
/// Claimed: the first six bytes hold the reading's Unix milliseconds
/// (`new_v7` saturates `secs * 1000 + nanos / 1_000_000`, and
/// `encode_unix_timestamp_millis` keeps its low 48 bits, big-endian), and
/// the version and variant bits are those of a UUIDv7. The remaining bits
/// are random, and nothing is claimed of them.
#[verifier::external_body]
pub(crate) fn uuid_v7_at(secs: u64, nanos: u32) -> (id: [u8; 16])
    ensures
        id_timestamp_ms(id@) == unix_millis(secs as int, nanos as int) % 0x1_0000_0000_0000,
        is_v7(id@),
{
    Uuid::new_v7(Timestamp::from_unix(NoContext, secs, nanos)).into_bytes()
}

/// A fresh UUIDv7 for the clock reading `now`: its first six bytes hold
/// the reading's Unix milliseconds (modulo 2^48). A clock that reads before
/// the epoch (`None`) counts as the epoch itself.
pub fn v7_id(now: Option<(u64, u32)>) -> (id: [u8; 16])
    ensures
        is_v7(id@),
        match now {
            Some((secs, nanos)) => id_timestamp_ms(id@) == unix_millis(secs as int, nanos as int)
                % 0x1_0000_0000_0000,
            None => id_timestamp_ms(id@) == 0,
        },
{
    match now {
        Some((secs, nanos)) => uuid_v7_at(secs, nanos),
        None => uuid_v7_at(0, 0),
    }
}

} // verus!
