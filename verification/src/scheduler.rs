//! The refresh schedule and what a fetch's response does to the snapshot.
//!
//! The caller drives the loop: on each tick it asks `RefreshScheduler::tick`
//! which fetch is due, performs it, hands the response to `interpret`, and
//! closes the tick with `SnapshotStore::settle`. A failed fetch changes
//! nothing and the next tick is decided as if it had succeeded.

use crate::document::{Doc, DocView};
use crate::provider::{
    current_reading, full_reading, parse_current, parse_full, FetchError, FetchKind,
};
use crate::reading::SnapshotView;
use crate::store::{outcome_view, settled, Update, UpdateView};
use vstd::prelude::*;

verus! {

/// Seconds between two ticks.
pub const TICK_SECONDS: u64 = 600;

/// The number of ticks from one combined fetch to the next.
pub const FULL_REFRESH_EVERY: u32 = 6;

/// The count that a new scheduler starts with. It lies beyond
/// `FULL_REFRESH_EVERY`, so that the first tick is a combined fetch.
pub const FRESH_COUNT: u32 = 9999;

/// The fetch that is due on the tick after `count` ticks without a combined
/// fetch.
pub open spec fn kind_after(count: nat) -> FetchKind {
    if count + 1 >= FULL_REFRESH_EVERY {
        FetchKind::Full
    } else {
        FetchKind::Current
    }
}

/// The count after that tick.
pub open spec fn count_after(count: nat) -> nat {
    if count + 1 >= FULL_REFRESH_EVERY {
        0
    } else {
        count + 1
    }
}

/// The count of a new scheduler after `n` ticks.
pub open spec fn count_at(n: nat) -> nat
    decreases n,
{
    if n == 0 {
        FRESH_COUNT as nat
    } else {
        count_after(count_at((n - 1) as nat))
    }
}

/// The fetch that a new scheduler asks for on its `n`-th tick, counted from 1.
pub open spec fn kind_at(n: nat) -> FetchKind
    recommends
        n >= 1,
{
    kind_after(count_at((n - 1) as nat))
}

/// A new scheduler asks for the combined fetch on its first tick and on every
/// sixth tick after it (ticks 1, 7, 13, ...), and for the cheap fetch on all
/// others.
pub proof fn lemma_full_on_every_sixth_tick(n: nat)
    requires
        n >= 1,
    ensures
        kind_at(n) == FetchKind::Full <==> (n - 1) % 6 == 0,
        kind_at(n) == FetchKind::Current <==> (n - 1) % 6 != 0,
        count_at(n) == (n - 1) % 6,
    decreases n,
{
    if n > 1 {
        lemma_full_on_every_sixth_tick((n - 1) as nat);
    }
}

/// Counts ticks and decides which fetch each one makes.
#[derive(Debug)]
pub struct RefreshScheduler {
    since_full: u32,
}

impl View for RefreshScheduler {
    type V = nat;

    /// The number of ticks since the last combined fetch was asked for.
    closed spec fn view(&self) -> nat {
        self.since_full as nat
    }
}

impl RefreshScheduler {
    #[verifier::type_invariant]
    spec fn bounded(self) -> bool {
        self.since_full <= FRESH_COUNT
    }

    /// A scheduler whose first tick is a combined fetch.
    pub fn new() -> (scheduler: RefreshScheduler)
        ensures
            scheduler@ == FRESH_COUNT,
    {
        RefreshScheduler { since_full: FRESH_COUNT }
    }

    /// Takes one tick: says which fetch to make now. The count starts anew
    /// when the combined fetch is asked for, whether or not it then succeeds.
    pub fn tick(&mut self) -> (kind: FetchKind)
        ensures
            kind == kind_after(old(self)@),
            final(self)@ == count_after(old(self)@),
    {
        proof {
            use_type_invariant(&*self);
        }
        let next: u32 = self.since_full + 1;
        if next >= FULL_REFRESH_EVERY {
            self.since_full = 0;
            FetchKind::Full
        } else {
            self.since_full = next;
            FetchKind::Current
        }
    }
}

/// The model of a fetch's response.
pub open spec fn response_view(response: Result<Doc, FetchError>) -> Result<DocView, FetchError> {
    match response {
        Ok(doc) => Ok(doc@),
        Err(e) => Err(e),
    }
}

/// What a fetch of the given kind comes to: the change that its document
/// gives, or the error of the fetch or of the document.
pub open spec fn outcome_of(kind: FetchKind, response: Result<DocView, FetchError>) -> Result<
    UpdateView,
    FetchError,
> {
    match response {
        Err(e) => Err(e),
        Ok(doc) => match kind {
            FetchKind::Current => match current_reading(doc) {
                Ok(current) => Ok(UpdateView::Current(current)),
                Err(e) => Err(e),
            },
            FetchKind::Full => match full_reading(doc) {
                Ok(snapshot) => Ok(UpdateView::Full(snapshot)),
                Err(e) => Err(e),
            },
        },
    }
}

/// Turns the response to a fetch of the given kind into its outcome.
pub fn interpret(kind: FetchKind, response: Result<Doc, FetchError>) -> (outcome: Result<
    Update,
    FetchError,
>)
    ensures
        outcome_view(outcome) == outcome_of(kind, response_view(response)),
{
    match response {
        Err(e) => Err(e),
        Ok(doc) => match kind {
            FetchKind::Current => match parse_current(&doc) {
                Ok(current) => Ok(Update::Current(current)),
                Err(e) => Err(e),
            },
            FetchKind::Full => match parse_full(&doc) {
                Ok(snapshot) => Ok(Update::Full(snapshot)),
                Err(e) => Err(e),
            },
        },
    }
}

/// A cheap fetch never touches the forecasts: whatever its response, the
/// hourly and the daily sequence are after it what they were before.
pub proof fn lemma_cheap_fetch_keeps_forecasts(
    before: SnapshotView,
    response: Result<DocView, FetchError>,
)
    ensures
        settled(before, outcome_of(FetchKind::Current, response)).hourly == before.hourly,
        settled(before, outcome_of(FetchKind::Current, response)).daily == before.daily,
{
}

/// A combined fetch that succeeds replaces the whole snapshot at once: all
/// three parts are those that its document gives.
pub proof fn lemma_combined_fetch_replaces_all(before: SnapshotView, doc: DocView)
    requires
        full_reading(doc).is_ok(),
    ensures
        settled(before, outcome_of(FetchKind::Full, Ok(doc))) == full_reading(doc).unwrap(),
{
}

/// A fetch that fails leaves the snapshot as it was, whether the call failed
/// or its document was refused.
pub proof fn lemma_failed_fetch_keeps_snapshot(
    before: SnapshotView,
    kind: FetchKind,
    response: Result<DocView, FetchError>,
)
    requires
        outcome_of(kind, response).is_err(),
    ensures
        settled(before, outcome_of(kind, response)) == before,
{
}

} // verus!
