//! Results observing: the marker traits of `SNResult`, and the book-keeping
//! of which requests an analyzer observes.
//!
//! An analyzer keeps, per attached request, the state that receives that
//! request's callbacks. A request is identified by a key (the address of
//! the request object); it can be attached at most once, and removing it
//! hands its state back so that it can be released.

use vstd::prelude::*;

use std::collections::BTreeMap;

use crate::codes::status;
use crate::error::{is_outcome, SAError};

verus! {

broadcast use vstd::std_specs::btree::group_btree_axioms;

/// Supertrait that marks the library's result types.
pub trait Sealed {}

/// Marker trait for types that model Apple's `SNResult` protocol.
pub trait SNResult: Sealed {}

/// Marker trait for types that model Apple's `SNResult` protocol, under its
/// older name.
pub trait AnalysisResult: SNResult {}

/// The observer state of the requests attached to one analyzer, by request
/// key.
pub struct ObserverMap<V> {
    entries: BTreeMap<usize, V>,
}

impl<V> View for ObserverMap<V> {
    type V = Map<usize, V>;

    closed spec fn view(&self) -> Map<usize, V> {
        self.entries@
    }
}

/// Message for a request that is attached a second time.
pub open spec fn already_added_message() -> Seq<char> {
    "request already added to analyzer"@
}

/// Whether a request with `key` may be attached to an analyzer whose
/// attached requests are `attached`: only if it is not attached already.
pub open spec fn add_check<V>(attached: Map<usize, V>, key: usize) -> Result<(), Seq<char>> {
    if attached.contains_key(key) {
        Err(already_added_message())
    } else {
        Ok(())
    }
}

impl<V> ObserverMap<V> {
    /// An analyzer with no attached request.
    pub fn new() -> (m: Self)
        ensures
            m@ == Map::<usize, V>::empty(),
    {
        ObserverMap { entries: BTreeMap::new() }
    }

    /// Whether the request with `key` is attached.
    pub fn contains(&self, key: usize) -> (b: bool)
        ensures
            b == self@.contains_key(key),
    {
        self.entries.contains_key(&key)
    }

    /// Whether no request is attached.
    pub fn is_empty(&self) -> (b: bool)
        ensures
            b == (self@ == Map::<usize, V>::empty()),
    {
        let b = self.entries.is_empty();
        proof {
            if !b {
                assert(self@.dom().len() > 0);
                assert(self@ != Map::<usize, V>::empty()) by {
                    if self@ == Map::<usize, V>::empty() {
                        assert(self@.dom() =~= Set::<usize>::empty());
                    }
                }
            } else {
                assert(self@ =~= Map::<usize, V>::empty());
            }
        }
        b
    }

    /// Checks, before a request with `key` is attached, that it is not
    /// attached already.
    pub fn check_absent(&self, key: usize) -> (r: Result<(), SAError>)
        ensures
            is_outcome(r, add_check(self@, key)),
    {
        if self.entries.contains_key(&key) {
            return Err(
                SAError::InvalidArgument(String::from_str("request already added to analyzer")),
            );
        }
        Ok(())
    }

    /// Records the state of a newly attached request.
    pub fn insert(&mut self, key: usize, state: V)
        requires
            !old(self)@.contains_key(key),
        ensures
            final(self)@ == old(self)@.insert(key, state),
    {
        self.entries.insert(key, state);
    }

    /// Finishes attaching the request with `key` once the bridge has
    /// answered with `bridge_status`: on success its state is recorded; on
    /// any other status the request stays unattached and its state comes
    /// back, to be released.
    pub fn record_if_accepted(&mut self, key: usize, state: V, bridge_status: i32) -> (refused:
        Option<V>)
        requires
            !old(self)@.contains_key(key),
        ensures
            bridge_status == status::OK ==> final(self)@ == old(self)@.insert(key, state)
                && refused is None,
            bridge_status != status::OK ==> final(self)@ == old(self)@ && refused == Some(state),
    {
        if bridge_status == status::OK {
            self.entries.insert(key, state);
            None
        } else {
            Some(state)
        }
    }

    /// Forgets the request with `key`, handing back its state if it was
    /// attached.
    pub fn remove(&mut self, key: usize) -> (state: Option<V>)
        ensures
            final(self)@ == old(self)@.remove(key),
            state == (if old(self)@.contains_key(key) {
                Some(old(self)@[key])
            } else {
                None::<V>
            }),
    {
        self.entries.remove(&key)
    }

    /// Forgets every attached request, handing back all their states.
    pub fn take_all(&mut self) -> (states: BTreeMap<usize, V>)
        ensures
            states@ == old(self)@,
            final(self)@ == Map::<usize, V>::empty(),
    {
        let mut states = BTreeMap::new();
        std::mem::swap(&mut states, &mut self.entries);
        states
    }
}

/// A request that was attached cannot be attached again until it is
/// removed; once removed it can be attached again, and removing it leaves
/// the other attached requests as they were.
pub proof fn lemma_attach_once<V>(attached: Map<usize, V>, key: usize, other: usize, state: V)
    requires
        add_check(attached, key) is Ok,
    ensures
        add_check(attached.insert(key, state), key) == Err::<(), Seq<char>>(
            already_added_message(),
        ),
        add_check(attached.insert(key, state).remove(key), key) is Ok,
        attached.insert(key, state).remove(key) == attached,
        other != key ==> attached.remove(key).contains_key(other) == attached.contains_key(other),
{
    assert(attached.insert(key, state).remove(key) =~= attached);
}

/// A request is refused exactly when it is attached already, whatever else
/// is attached: any number of distinct requests can be attached.
pub proof fn lemma_add_refused_only_for_duplicates<V>(attached: Map<usize, V>, key: usize)
    ensures
        add_check(attached, key) is Err <==> attached.contains_key(key),
        !attached.contains_key(key) ==> add_check(attached, key) == Ok::<(), Seq<char>>(()),
{
}

/// A request that the bridge refuses stays unattached: the attached
/// requests are as before, so attaching it again is not refused as a
/// duplicate; a request the bridge accepts is attached, and a second
/// attachment is refused.
pub proof fn lemma_refused_request_stays_unattached<V>(
    attached: Map<usize, V>,
    key: usize,
    state: V,
    bridge_status: i32,
)
    requires
        add_check(attached, key) is Ok,
    ensures
        ({
            let after = if bridge_status == status::OK {
                attached.insert(key, state)
            } else {
                attached
            };
            &&& bridge_status != status::OK ==> add_check(after, key) is Ok && after == attached
            &&& bridge_status == status::OK ==> add_check(after, key) == Err::<(), Seq<char>>(
                already_added_message(),
            )
        }),
{
}

} // verus!
