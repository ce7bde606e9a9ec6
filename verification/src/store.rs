//! The store that owns the one live snapshot.
//!
//! Every change to the snapshot is one call that takes the store by `&mut`:
//! whoever can read the store sees the snapshot as it was before that call or
//! as it is after it, never a part of each. To share the store between a
//! writer and many readers, keep it under a readers-writer lock and make each
//! call with the lock held.

use crate::provider::FetchError;
use crate::reading::{Forecast, SnapshotView, WeatherSnapshot};
use vstd::prelude::*;

verus! {

/// A change to the snapshot, as a successful fetch gives it.
#[derive(Debug, PartialEq, Eq)]
pub enum Update {
    /// New current conditions; the forecasts stay.
    Current(Forecast),
    /// New current conditions and new forecasts.
    Full(WeatherSnapshot),
}

/// The model of an `Update`.
pub enum UpdateView {
    Current(Forecast),
    Full(SnapshotView),
}

impl View for Update {
    type V = UpdateView;

    open spec fn view(&self) -> UpdateView {
        match self {
            Update::Current(current) => UpdateView::Current(*current),
            Update::Full(snapshot) => UpdateView::Full(snapshot@),
        }
    }
}

impl UpdateView {
    /// The snapshot after this change to `before`.
    pub open spec fn applied_to(self, before: SnapshotView) -> SnapshotView {
        match self {
            UpdateView::Current(current) => SnapshotView {
                current,
                hourly: before.hourly,
                daily: before.daily,
            },
            UpdateView::Full(snapshot) => snapshot,
        }
    }
}

/// The snapshot after a fetch that ended in `outcome`: changed as the update
/// says, or left as it was where the fetch failed.
pub open spec fn settled(before: SnapshotView, outcome: Result<UpdateView, FetchError>) -> SnapshotView {
    match outcome {
        Ok(update) => update.applied_to(before),
        Err(_) => before,
    }
}

/// The model of a fetch's outcome.
pub open spec fn outcome_view(outcome: Result<Update, FetchError>) -> Result<
    UpdateView,
    FetchError,
> {
    match outcome {
        Ok(update) => Ok(update@),
        Err(e) => Err(e),
    }
}

/// The owner of the live snapshot.
#[derive(Debug)]
pub struct SnapshotStore {
    snapshot: WeatherSnapshot,
}

impl View for SnapshotStore {
    type V = SnapshotView;

    closed spec fn view(&self) -> SnapshotView {
        self.snapshot@
    }
}

impl SnapshotStore {
    /// A store that holds the empty snapshot.
    pub fn new() -> (store: SnapshotStore)
        ensures
            store@ == SnapshotView::empty(),
    {
        SnapshotStore { snapshot: WeatherSnapshot::empty() }
    }

    /// The snapshot as the last change left it.
    pub fn read(&self) -> (snapshot: &WeatherSnapshot)
        ensures
            snapshot@ == self@,
    {
        &self.snapshot
    }

    /// Makes one change to the snapshot.
    pub fn write(&mut self, update: Update)
        ensures
            final(self)@ == update@.applied_to(old(self)@),
    {
        match update {
            Update::Current(current) => {
                self.snapshot.current = current;
            },
            Update::Full(snapshot) => {
                self.snapshot = snapshot;
            },
        }
    }

    /// Closes a fetch: makes the change that a successful one gives, or leaves
    /// the snapshot untouched and hands back the error of a failed one.
    pub fn settle(&mut self, outcome: Result<Update, FetchError>) -> (failure: Option<FetchError>)
        ensures
            final(self)@ == settled(old(self)@, outcome_view(outcome)),
            failure == match outcome {
                Ok(_) => None,
                Err(e) => Some(e),
            },
    {
        match outcome {
            Ok(update) => {
                self.write(update);
                None
            },
            Err(e) => Some(e),
        }
    }
}

} // verus!
