//! The cached device state behind the observable state signal: it takes the
//! snapshots of an update feed in order and reports only those that change it.

use vstd::prelude::*;

use crate::coyote3::{
    lemma_unknown_magic_rejected, snapshot_after, State, INTENSITY_CHANGE_MAGIC,
    NOTIFY_CHARACTERISTIC, SETTINGS_CHANGE_MAGIC,
};

verus! {

/// Implemented only inside this crate, so that no outside type can claim the
/// contract of `StateSignal`.
pub(crate) trait Sealed {}

/// A state whose current value can be read out directly. Only the types of
/// this crate implement it.
#[allow(private_bounds)]
pub trait StateSignal<T>: Sealed {
    /// The value that `get` returns.
    spec fn latest(&self) -> T;

    /// Get the current value.
    fn get(&self) -> (r: T)
        ensures
            r == self.latest(),
    ;
}

/// The change event that a snapshot from the feed gives against the cached
/// value: none while the feed has nothing new, and none for a snapshot equal
/// to the cached one.
pub open spec fn change_event(cached: State, item: Option<State>) -> Option<State> {
    match item {
        Some(v) => if v == cached {
            None
        } else {
            Some(v)
        },
        None => None,
    }
}

/// The cached value after a step of the feed: the snapshot, where there is one.
pub open spec fn cached_after(cached: State, item: Option<State>) -> State {
    match item {
        Some(v) => v,
        None => cached,
    }
}

/// The last known device state, replaced only by the snapshots of the feed.
#[derive(Clone, Copy, Debug)]
pub struct StateCache {
    value: State,
}

impl View for StateCache {
    type V = State;

    closed spec fn view(&self) -> State {
        self.value
    }
}

impl StateCache {
    /// A cache that holds `initial` until the feed gives something else.
    pub fn new(initial: State) -> (r: StateCache)
        ensures
            r@ == initial,
    {
        StateCache { value: initial }
    }

    /// Take one step of the feed: `None` where it had nothing new (or has
    /// ended), else the snapshot it gave. Returns the change event.
    pub fn observe(&mut self, item: Option<State>) -> (r: Option<State>)
        ensures
            r == change_event(old(self)@, item),
            final(self)@ == cached_after(old(self)@, item),
    {
        match item {
            None => None,
            Some(v) => {
                if v == self.value {
                    None
                } else {
                    self.value = v;
                    Some(v)
                }
            },
        }
    }
}

impl Sealed for StateCache {}

impl StateSignal<State> for StateCache {
    open spec fn latest(&self) -> State {
        self@
    }

    fn get(&self) -> (r: State) {
        self.value
    }
}

/// Pushing the same snapshot twice gives one change event, from the initial
/// value to the snapshot, and none for the duplicate.
pub proof fn lemma_duplicate_snapshot_one_event(initial: State, v: State)
    requires
        v != initial,
    ensures
        change_event(initial, Some(v)) == Some(v),
        change_event(cached_after(initial, Some(v)), Some(v)) == None::<State>,
{
}

/// After a snapshot is taken in, the cached value is that snapshot, whether
/// or not it gave a change event.
pub proof fn lemma_latest_snapshot_cached(cached: State, v: State)
    ensures
        cached_after(cached, Some(v)) == v,
        change_event(cached, Some(v)) is None ==> cached == v,
{
}


/// The cached value after the feed gave `items`, in order.
pub open spec fn cached_after_all(cached: State, items: Seq<Option<State>>) -> State
    decreases items.len(),
{
    if items.len() == 0 {
        cached
    } else {
        cached_after(cached_after_all(cached, items.drop_last()), items.last())
    }
}

/// Whatever change events were taken, the cached value is the snapshot that
/// the feed gave last; steps without a snapshot change nothing.
pub proof fn lemma_cache_holds_last_snapshot(cached: State, items: Seq<Option<State>>, k: int, v: State)
    requires
        0 <= k < items.len(),
        items[k] == Some(v),
        forall|j: int| k < j < items.len() ==> items[j] is None,
    ensures
        cached_after_all(cached, items) == v,
    decreases items.len(),
{
    if k < items.len() - 1 {
        let rest = items.drop_last();
        assert forall|j: int| k < j < rest.len() implies rest[j] is None by {
            assert(rest[j] == items[j]);
        }
        lemma_cache_holds_last_snapshot(cached, rest, k, v);
        assert(items[items.len() - 1] is None);
    }
}


/// A notification frame with an unknown magic byte gives no snapshot, so
/// neither a change event nor a change of the cached value.
pub proof fn lemma_unknown_magic_keeps_cache(s: State, cached: State, value: Seq<u8>)
    requires
        value.len() > 0,
        value[0] != INTENSITY_CHANGE_MAGIC,
        value[0] != SETTINGS_CHANGE_MAGIC,
    ensures
        change_event(cached, snapshot_after(s, NOTIFY_CHARACTERISTIC, value)) == None::<State>,
        cached_after(cached, snapshot_after(s, NOTIFY_CHARACTERISTIC, value)) == cached,
{
    lemma_unknown_magic_rejected(s, value);
}

} // verus!
