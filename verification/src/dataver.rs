//! The data-version tracker of one cluster instance.
//!
//! A cluster's data version lets a remote caller detect staleness without
//! re-fetching full state; the pending-change marker is the edge-triggered,
//! coalescing signal an external subscription engine polls.

use vstd::prelude::*;

verus! {

/// The successor of a version value: the counter advances by one and wraps
/// at the top of the 32-bit range.
pub open spec fn wrapping_inc(v: u32) -> u32 {
    if v == u32::MAX {
        0
    } else {
        (v + 1) as u32
    }
}

/// A data version plus a one-shot pending-change marker.
///
/// The version is bumped by `changed`; the marker coalesces any number of
/// bumps into one signal, consumed (and cleared) by `consume_change`.
#[derive(Clone, Copy)]
pub struct Dataver {
    ver: u32,
    changed: bool,
}

/// The tracker after one mutation is recorded: the version advances and the
/// change becomes pending, whatever was pending before.
pub closed spec fn marked_changed(d: Dataver) -> Dataver {
    Dataver { ver: wrapping_inc(d.ver), changed: true }
}

/// The tracker after `n` mutations are recorded.
pub open spec fn marked_changed_n(d: Dataver, n: nat) -> Dataver
    decreases n,
{
    if n == 0 {
        d
    } else {
        marked_changed(marked_changed_n(d, (n - 1) as nat))
    }
}

/// The tracker after a consume: the pending marker is cleared, the version
/// is untouched.
pub closed spec fn consumed(d: Dataver) -> Dataver {
    Dataver { ver: d.ver, changed: false }
}

/// What a consume yields: the unit token exactly when a change is pending.
pub closed spec fn consume_signal(d: Dataver) -> Option<()> {
    if d.changed {
        Some(())
    } else {
        None
    }
}

impl Dataver {
    /// The current data version.
    pub closed spec fn spec_ver(self) -> u32 {
        self.ver
    }

    /// Whether a mutation happened since the last consume.
    pub closed spec fn pending(self) -> bool {
        self.changed
    }

    /// A fresh tracker: the version starts at a caller-chosen initial value,
    /// with no change pending.
    pub fn new(initial: u32) -> (r: Self)
        ensures
            r.spec_ver() == initial,
            !r.pending(),
    {
        Dataver { ver: initial, changed: false }
    }

    /// The current data version.
    pub fn get(&self) -> (v: u32)
        ensures
            v == self.spec_ver(),
    {
        self.ver
    }

    /// Record one mutation: advance the version and mark the change pending.
    /// Returns the new version.
    pub fn changed(&mut self) -> (v: u32)
        ensures
            *final(self) == marked_changed(*old(self)),
            final(self).spec_ver() == wrapping_inc(old(self).spec_ver()),
            final(self).pending(),
            v == final(self).spec_ver(),
    {
        self.ver = if self.ver == u32::MAX {
            0
        } else {
            self.ver + 1
        };
        self.changed = true;
        self.ver
    }

    /// Consume the pending change, if any: yields `change` exactly when a
    /// mutation happened since the previous consume, and clears the marker.
    /// The version is left untouched.
    pub fn consume_change<T>(&mut self, change: T) -> (r: Option<T>)
        ensures
            *final(self) == consumed(*old(self)),
            final(self).spec_ver() == old(self).spec_ver(),
            !final(self).pending(),
            r == (if old(self).pending() {
                Some(change)
            } else {
                None::<T>
            }),
            r is Some <==> consume_signal(*old(self)) is Some,
    {
        if self.changed {
            self.changed = false;
            Some(change)
        } else {
            None
        }
    }
}

/// The change signal is edge-triggered and coalescing: after any run of one
/// or more mutations, one consume yields the token, and a further consume
/// before the next mutation yields nothing. Consuming never moves the
/// version.
pub proof fn lemma_change_consumed_once(d: Dataver, n: nat)
    requires
        n >= 1,
    ensures
        consume_signal(marked_changed_n(d, n)) == Some(()),
        consume_signal(consumed(marked_changed_n(d, n))) is None,
        consumed(marked_changed_n(d, n)).spec_ver() == marked_changed_n(d, n).spec_ver(),
{
    assert(marked_changed_n(d, n) == marked_changed(marked_changed_n(d, (n - 1) as nat)));
}

} // verus!
