//! The one thing that is served: the snapshot, encoded for the present moment.

use crate::store::SnapshotStore;
use crate::wire::{encode, encoding};
use vstd::prelude::*;

verus! {

/// The time `now` that a clock reading of `secs` seconds since the Unix epoch
/// stands for: the same number, and for a reading before the epoch that
/// number plus 2^64.
pub open spec fn now_of(secs: i64) -> u64 {
    if secs >= 0 {
        secs as u64
    } else {
        (secs + 0x1_0000_0000_0000_0000) as u64
    }
}

/// chrono's `Utc::now().timestamp()`: the system clock in whole seconds since
/// the Unix epoch. Nothing is promised of the number. chrono does not return,
/// but panics, where the system clock is set before 1970 or beyond the years
/// that its dates can hold.
#[verifier::external_body]
fn clock_seconds() -> (secs: i64) {
    chrono::Utc::now().timestamp()
}

/// The time `now` for a clock reading.
pub fn now_from(secs: i64) -> (now: u64)
    ensures
        now == now_of(secs),
{
    assert(secs as u64 == now_of(secs)) by (bit_vector);
    #[verifier::truncate]
    (secs as u64)
}

/// The response body for a snapshot when the clock reads `secs`.
pub fn respond_at(store: &SnapshotStore, secs: i64) -> (body: Vec<u8>)
    ensures
        body@ == encoding(store@, now_of(secs)),
{
    encode(store.read(), now_from(secs))
}

/// The response body for a request that arrives now: the snapshot encoded for
/// the time that the system clock gives.
pub fn watch_update(store: &SnapshotStore) -> (body: Vec<u8>)
    ensures
        exists|now: u64| body@ == encoding(store@, now),
{
    let secs: i64 = clock_seconds();
    respond_at(store, secs)
}

} // verus!
