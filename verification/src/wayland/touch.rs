//! Contact bookkeeping for reducing `wl_touch` event streams.
//!
//! Wayland batches the touch changes that belong together between `frame`
//! events, and the order of `motion`, `shape` and `orientation` within a
//! frame is unspecified. The tracker records each contact's new state as the
//! events arrive and remembers the latest change of each contact; on `frame`
//! it reports one change per contact, in the order the contacts first changed,
//! and drops the contacts released in the frame. The lowest active contact id
//! is the primary pointer.
//!
//! A contact's state is carried as an opaque value `S` (the caller's pointer
//! state, with its coordinates and pressure).

use vstd::prelude::*;

use crate::pointer::{PointerId, PointerInfo};
use crate::wayland::mapping::{touch_info, touch_pointer_info};

verus! {

/// The latest change recorded for a contact within the current frame.
#[derive(Clone, Copy, Debug, PartialEq, Eq, Structural, Hash)]
pub enum TouchPhase {
    /// The contact was established (`wl_touch::down`).
    Down,
    /// The contact moved (`wl_touch::motion`).
    Motion,
    /// The contact was released (`wl_touch::up`).
    Up,
}

/// A change to report on the next frame.
#[derive(Clone, Copy, Debug, PartialEq, Eq, Structural, Hash)]
pub struct PendingChange {
    /// The `wl_touch` contact id.
    pub id: i32,
    /// The latest phase seen for the contact in the current frame.
    pub phase: TouchPhase,
}

/// An active contact and its accumulated state.
#[derive(Clone, Copy, Debug, PartialEq, Eq)]
pub struct TouchContact<S> {
    /// The `wl_touch` contact id.
    pub id: i32,
    /// The contact's state.
    pub state: S,
}

/// One contact change reported on a frame.
#[derive(Clone, Copy, Debug, PartialEq, Eq)]
pub struct TouchChange<S> {
    /// What happened to the contact.
    pub phase: TouchPhase,
    /// The contact as a pointer.
    pub pointer: PointerInfo,
    /// The contact's state.
    pub state: S,
}

/// The first index at or after `from` of the contact with `id`, or the
/// length when there is none.
pub open spec fn contact_index<S>(contacts: Seq<TouchContact<S>>, id: i32, from: int) -> int
    decreases contacts.len() - from,
{
    if from >= contacts.len() || from < 0 {
        contacts.len() as int
    } else if contacts[from].id == id {
        from
    } else {
        contact_index(contacts, id, from + 1)
    }
}

/// The first index at or after `from` of the pending change of `id`, or
/// the length when there is none.
pub open spec fn pending_index(pending: Seq<PendingChange>, id: i32, from: int) -> int
    decreases pending.len() - from,
{
    if from >= pending.len() || from < 0 {
        pending.len() as int
    } else if pending[from].id == id {
        from
    } else {
        pending_index(pending, id, from + 1)
    }
}

/// The lowest contact id.
pub open spec fn lowest_id<S>(contacts: Seq<TouchContact<S>>) -> i32
    decreases contacts.len(),
{
    if contacts.len() <= 1 {
        contacts[0].id
    } else {
        let rest = lowest_id(contacts.drop_last());
        if contacts.last().id < rest {
            contacts.last().id
        } else {
            rest
        }
    }
}

/// The predicate "a contact with this change's id is active".
pub open spec fn has_contact<S>(contacts: Seq<TouchContact<S>>) -> spec_fn(PendingChange) -> bool {
    |p: PendingChange| contact_index(contacts, p.id, 0) < contacts.len()
}

/// The predicate "this contact was not released in the frame".
pub open spec fn not_released<S>(pending: Seq<PendingChange>) -> spec_fn(TouchContact<S>) -> bool {
    |c: TouchContact<S>| !(exists|k: int| 0 <= k < pending.len() && #[trigger] pending[k].id == c.id
        && pending[k].phase == TouchPhase::Up)
}

/// The pending changes after recording `phase` for contact `id`: the
/// contact's entry takes the new phase, or a new entry is appended.
pub open spec fn with_pending(pending: Seq<PendingChange>, id: i32, phase: TouchPhase) -> Seq<PendingChange> {
    let k = pending_index(pending, id, 0);
    if k < pending.len() {
        pending.update(k, PendingChange { id, phase })
    } else {
        pending.push(PendingChange { id, phase })
    }
}

/// Whether no two changes are recorded for the same contact.
pub open spec fn ids_distinct(pending: Seq<PendingChange>) -> bool {
    forall|i: int, j: int| 0 <= i < j < pending.len() ==> pending[i].id != pending[j].id
}

/// Where [`pending_index`] lands: on the first change of `id` at or after
/// `from`, or past the end when there is none.
proof fn lemma_pending_index(pending: Seq<PendingChange>, id: i32, from: int)
    requires
        0 <= from,
    ensures
        from <= pending_index(pending, id, from) <= pending.len() || (from > pending.len()
            && pending_index(pending, id, from) == pending.len()),
        pending_index(pending, id, from) < pending.len() ==> pending[pending_index(pending, id, from)].id == id,
        forall|j: int| from <= j < pending_index(pending, id, from) ==> #[trigger] pending[j].id != id,
    decreases pending.len() - from,
{
    if from < pending.len() && pending[from].id != id {
        lemma_pending_index(pending, id, from + 1);
    }
}

/// Recording a change keeps one change per contact, and the contact then
/// has exactly one recorded change, with the new phase.
pub proof fn lemma_with_pending_keeps_ids_distinct(pending: Seq<PendingChange>, id: i32, phase: TouchPhase)
    requires
        ids_distinct(pending),
    ensures
        ids_distinct(with_pending(pending, id, phase)),
        exists|k: int| 0 <= k < with_pending(pending, id, phase).len() && #[trigger] with_pending(pending, id, phase)[k]
            == (PendingChange { id, phase }),
{
    lemma_pending_index(pending, id, 0);
    let k = pending_index(pending, id, 0);
    let after = with_pending(pending, id, phase);
    if k < pending.len() {
        assert(after[k] == (PendingChange { id, phase }));
    } else {
        assert(after[pending.len() as int] == (PendingChange { id, phase }));
    }
}

/// Keeping some of the changes keeps one change per contact.
proof fn lemma_filter_keeps_ids_distinct(pending: Seq<PendingChange>, pred: spec_fn(PendingChange) -> bool)
    requires
        ids_distinct(pending),
    ensures
        ids_distinct(pending.filter(pred)),
    decreases pending.len(),
{
    reveal_with_fuel(Seq::filter, 1);
    if pending.len() > 0 {
        let p = pending.drop_last();
        assert(ids_distinct(p));
        lemma_filter_keeps_ids_distinct(p, pred);
        let f = p.filter(pred);
        if pred(pending.last()) {
            assert forall|i: int| 0 <= i < f.len() implies #[trigger] f[i].id != pending.last().id by {
                assert(f.contains(f[i]));
                p.lemma_filter_contains_rev(pred, f[i]);
                let j = choose|j: int| 0 <= j < p.len() && p[j] == f[i];
                assert(pending[j] == p[j]);
                assert(pending[pending.len() - 1] == pending.last());
            }
            assert(pending.filter(pred) == f.push(pending.last()));
        }
    }
}

/// Tracks the active touch contacts and the changes of the current frame.
#[derive(Clone, Debug, PartialEq, Eq)]
pub struct TouchTracker<S> {
    contacts: Vec<TouchContact<S>>,
    pending: Vec<PendingChange>,
}

impl<S: Clone> TouchTracker<S> {
    /// The active contacts.
    pub closed spec fn contacts(self) -> Seq<TouchContact<S>> {
        self.contacts@
    }

    /// The changes recorded since the last frame.
    pub closed spec fn pending(self) -> Seq<PendingChange> {
        self.pending@
    }

    /// The tracker's invariant: one recorded change per contact.
    pub open spec fn wf(self) -> bool {
        ids_distinct(self.pending())
    }

    /// A tracker with no contact and no change.
    pub fn new() -> (t: TouchTracker<S>)
        ensures
            t.wf(),
            t.contacts() == Seq::<TouchContact<S>>::empty(),
            t.pending() == Seq::<PendingChange>::empty(),
    {
        TouchTracker { contacts: Vec::new(), pending: Vec::new() }
    }

    /// The index of the contact with `id`, or the number of contacts.
    fn find(&self, id: i32) -> (i: usize)
        ensures
            i == contact_index(self.contacts(), id, 0),
    {
        let n = self.contacts.len();
        let mut i: usize = 0;
        while i < n
            invariant
                n == self.contacts@.len(),
                i <= n,
                contact_index(self.contacts@, id, 0) == contact_index(self.contacts@, id, i as int),
            decreases n - i,
        {
            if self.contacts[i].id == id {
                return i;
            }
            i = i + 1;
        }
        i
    }

    /// The state of the contact with `id`, if it is active.
    pub fn state_of(&self, id: i32) -> (r: Option<&S>)
        ensures
            ({
                let i = contact_index(self.contacts(), id, 0);
                if i < self.contacts().len() {
                    r == Some(&self.contacts()[i].state)
                } else {
                    r is None
                }
            }),
    {
        let i = self.find(id);
        if i < self.contacts.len() {
            Some(&self.contacts[i].state)
        } else {
            None
        }
    }

    /// Record `phase` as the latest change of contact `id` in this frame.
    pub fn mark_pending(&mut self, id: i32, phase: TouchPhase)
        requires
            old(self).wf(),
        ensures
            final(self).wf(),
            final(self).pending() == with_pending(old(self).pending(), id, phase),
            final(self).contacts() == old(self).contacts(),
    {
        proof {
            lemma_with_pending_keeps_ids_distinct(self.pending@, id, phase);
        }
        let n = self.pending.len();
        let mut k: usize = 0;
        while k < n
            invariant
                n == self.pending@.len(),
                k <= n,
                pending_index(self.pending@, id, 0) == pending_index(self.pending@, id, k as int),
                self.pending@ == old(self).pending@,
                ids_distinct(with_pending(old(self).pending@, id, phase)),
                self.contacts@ == old(self).contacts@,
            decreases n - k,
        {
            if self.pending[k].id == id {
                self.pending.set(k, PendingChange { id, phase });
                return;
            }
            k = k + 1;
        }
        self.pending.push(PendingChange { id, phase });
    }

    /// Handle a `down`: (re)establish contact `id` with `state` and record
    /// the down for the next frame.
    pub fn down(&mut self, id: i32, state: S)
        requires
            old(self).wf(),
        ensures
            final(self).wf(),
            ({
                let i = contact_index(old(self).contacts(), id, 0);
                final(self).contacts() == if i < old(self).contacts().len() {
                    old(self).contacts().update(i, TouchContact { id, state })
                } else {
                    old(self).contacts().push(TouchContact { id, state })
                }
            }),
            final(self).pending() == with_pending(old(self).pending(), id, TouchPhase::Down),
    {
        let i = self.find(id);
        if i < self.contacts.len() {
            self.contacts.set(i, TouchContact { id, state });
        } else {
            self.contacts.push(TouchContact { id, state });
        }
        self.mark_pending(id, TouchPhase::Down);
    }

    /// Handle a `motion` or an `up` of an active contact: give it `state` and
    /// record `phase` for the next frame. A change of an unknown contact is
    /// ignored; returns whether the contact was active.
    pub fn update(&mut self, id: i32, state: S, phase: TouchPhase) -> (found: bool)
        requires
            old(self).wf(),
        ensures
            final(self).wf(),
            ({
                let i = contact_index(old(self).contacts(), id, 0);
                &&& found == (i < old(self).contacts().len())
                &&& found ==> final(self).contacts() == old(self).contacts().update(
                    i,
                    TouchContact { id, state },
                ) && final(self).pending() == with_pending(old(self).pending(), id, phase)
                &&& !found ==> *final(self) == *old(self)
            }),
    {
        let i = self.find(id);
        if i < self.contacts.len() {
            self.contacts.set(i, TouchContact { id, state });
            self.mark_pending(id, phase);
            true
        } else {
            false
        }
    }

    /// Give an active contact a new `state` without recording a change (as
    /// `shape` and `orientation` do); returns whether the contact was active.
    pub fn set_state(&mut self, id: i32, state: S) -> (found: bool)
        requires
            old(self).wf(),
        ensures
            final(self).wf(),
            ({
                let i = contact_index(old(self).contacts(), id, 0);
                &&& found == (i < old(self).contacts().len())
                &&& found ==> final(self).contacts() == old(self).contacts().update(
                    i,
                    TouchContact { id, state },
                )
                &&& !found ==> final(self).contacts() == old(self).contacts()
                &&& final(self).pending() == old(self).pending()
            }),
    {
        let i = self.find(id);
        if i < self.contacts.len() {
            self.contacts.set(i, TouchContact { id, state });
            true
        } else {
            false
        }
    }

    /// The lowest active contact id, if any contact is active.
    fn lowest(&self) -> (r: Option<i32>)
        ensures
            self.contacts().len() == 0 ==> r is None,
            self.contacts().len() > 0 ==> r == Some(lowest_id(self.contacts())),
    {
        let n = self.contacts.len();
        if n == 0 {
            return None;
        }
        let mut m = self.contacts[0].id;
        for i in 1..n
            invariant
                n == self.contacts@.len(),
                n > 0,
                m == lowest_id(self.contacts@.take(i as int)),
        {
            proof {
                assert(self.contacts@.take(i as int + 1).drop_last() =~= self.contacts@.take(i as int));
            }
            if self.contacts[i].id < m {
                m = self.contacts[i].id;
            }
        }
        proof {
            assert(self.contacts@.take(n as int) =~= self.contacts@);
        }
        Some(m)
    }

    /// Handle a `frame`: report the changes recorded since the last frame,
    /// exactly one per still-known changed contact, with its latest phase, in
    /// the order the contacts first changed,
    /// each with the contact's state and its pointer identity (the lowest
    /// active id is the primary pointer); then drop the contacts released in
    /// the frame and clear the changes. With no change recorded, nothing
    /// happens.
    pub fn flush(&mut self) -> (r: Vec<TouchChange<S>>)
        requires
            old(self).wf(),
        ensures
            final(self).wf(),
            old(self).pending().len() == 0 ==> r@.len() == 0 && *final(self) == *old(self),
            old(self).pending().len() > 0 && old(self).contacts().len() == 0 ==> r@.len() == 0
                && final(self).pending().len() == 0 && final(self).contacts() == old(self).contacts(),
            old(self).pending().len() > 0 && old(self).contacts().len() > 0 ==> ({
                let contacts = old(self).contacts();
                let emitted = old(self).pending().filter(has_contact(contacts));
                let primary = lowest_id(contacts);
                &&& ids_distinct(emitted)
                &&& r@.len() == emitted.len()
                &&& forall|k: int|
                    0 <= k < r@.len() ==> {
                        &&& (#[trigger] r@[k]).phase == emitted[k].phase
                        &&& r@[k].pointer == touch_info(emitted[k].id as u64, primary as u64)
                        &&& cloned(contacts[contact_index(contacts, emitted[k].id, 0)].state, r@[k].state)
                    }
                &&& final(self).contacts() == contacts.filter(not_released(old(self).pending()))
                &&& final(self).pending().len() == 0
            }),
    {
        if self.pending.len() == 0 {
            return Vec::new();
        }
        let primary = match self.lowest() {
            Some(p) => p,
            None => {
                self.pending.clear();
                return Vec::new();
            },
        };
        let ghost contacts = self.contacts@;
        let ghost pred = has_contact(contacts);
        proof {
            lemma_filter_keeps_ids_distinct(self.pending@, pred);
        }
        let mut events: Vec<TouchChange<S>> = Vec::new();
        let n = self.pending.len();
        for k in 0..n
            invariant
                n == self.pending@.len(),
                self.contacts@ == contacts,
                pred == has_contact(contacts),
                primary == lowest_id(contacts),
                ({
                    let emitted = self.pending@.take(k as int).filter(pred);
                    &&& events@.len() == emitted.len()
                    &&& forall|j: int|
                        0 <= j < events@.len() ==> {
                            &&& (#[trigger] events@[j]).phase == emitted[j].phase
                            &&& events@[j].pointer == touch_info(emitted[j].id as u64, primary as u64)
                            &&& cloned(contacts[contact_index(contacts, emitted[j].id, 0)].state, events@[j].state)
                        }
                }),
        {
            proof {
                assert(self.pending@.take(k as int + 1).drop_last() =~= self.pending@.take(k as int));
                reveal_with_fuel(Seq::filter, 1);
            }
            let change = self.pending[k];
            let i = self.find(change.id);
            if i < self.contacts.len() {
                let state = self.contacts[i].state.clone();
                let pointer = touch_pointer_info(change.id as u64, primary as u64);
                events.push(TouchChange { phase: change.phase, pointer, state });
            }
        }
        proof {
            assert(self.pending@.take(n as int) =~= self.pending@);
        }
        self.drop_released();
        self.pending.clear();
        events
    }

    /// Handle a `cancel`: report every active contact, in order, as a pointer
    /// (the lowest active id is the primary pointer), and forget all
    /// contacts and changes.
    pub fn cancel(&mut self) -> (r: Vec<PointerInfo>)
        requires
            old(self).wf(),
        ensures
            final(self).wf(),
            r@.len() == old(self).contacts().len(),
            forall|k: int|
                0 <= k < r@.len() ==> #[trigger] r@[k] == touch_info(
                    old(self).contacts()[k].id as u64,
                    lowest_id(old(self).contacts()) as u64,
                ),
            final(self).contacts().len() == 0,
            final(self).pending().len() == 0,
    {
        let mut pointers: Vec<PointerInfo> = Vec::new();
        if let Some(primary) = self.lowest() {
            let n = self.contacts.len();
            for k in 0..n
                invariant
                    n == self.contacts@.len(),
                    self.contacts@.len() > 0,
                    primary == lowest_id(self.contacts@),
                    pointers@.len() == k,
                    forall|j: int|
                        0 <= j < k ==> #[trigger] pointers@[j] == touch_info(
                            self.contacts@[j].id as u64,
                            primary as u64,
                        ),
            {
                pointers.push(touch_pointer_info(self.contacts[k].id as u64, primary as u64));
            }
        }
        self.contacts.clear();
        self.pending.clear();
        pointers
    }

    /// Whether the pending changes release contact `id`.
    fn released(&self, id: i32) -> (r: bool)
        ensures
            r == exists|k: int| 0 <= k < self.pending().len() && #[trigger] self.pending()[k].id == id
                && self.pending()[k].phase == TouchPhase::Up,
    {
        let n = self.pending.len();
        for k in 0..n
            invariant
                n == self.pending@.len(),
                forall|j: int| 0 <= j < k ==> !(#[trigger] self.pending@[j].id == id && self.pending@[j].phase == TouchPhase::Up),
        {
            if self.pending[k].id == id && self.pending[k].phase == TouchPhase::Up {
                return true;
            }
        }
        false
    }

    /// Drop the contacts that the pending changes release.
    fn drop_released(&mut self)
        ensures
            final(self).contacts() == old(self).contacts().filter(not_released(old(self).pending())),
            final(self).pending() == old(self).pending(),
    {
        let ghost pred = not_released::<S>(self.pending@);
        let ghost orig = self.contacts@;
        let ghost mut j: int = 0;
        let mut i: usize = 0;
        while i < self.contacts.len()
            invariant
                pred == not_released::<S>(self.pending@),
                self.pending@ == old(self).pending@,
                0 <= j <= orig.len(),
                i <= self.contacts@.len(),
                self.contacts@.take(i as int) == orig.take(j).filter(pred),
                self.contacts@.skip(i as int) == orig.skip(j),
                self.contacts@.len() - i == orig.len() - j,
            decreases self.contacts@.len() - i,
        {
            proof {
                assert(orig.take(j + 1).drop_last() =~= orig.take(j));
                assert(self.contacts@[i as int] == orig[j]) by {
                    assert(self.contacts@.skip(i as int)[0] == orig.skip(j)[0]);
                }
                reveal_with_fuel(Seq::filter, 1);
            }
            let id = self.contacts[i].id;
            if self.released(id) {
                let ghost before = self.contacts@;
                self.contacts.remove(i);
                proof {
                    assert(self.contacts@.take(i as int) =~= before.take(i as int));
                    assert(self.contacts@.skip(i as int) =~= before.skip(i as int + 1));
                    assert(orig.skip(j + 1) =~= orig.skip(j).skip(1));
                    assert(before.skip(i as int + 1) =~= before.skip(i as int).skip(1));
                }
            } else {
                proof {
                    assert(self.contacts@.take(i as int + 1) =~= self.contacts@.take(i as int).push(self.contacts@[i as int]));
                    assert(self.contacts@.skip(i as int + 1) =~= self.contacts@.skip(i as int).skip(1));
                    assert(orig.skip(j + 1) =~= orig.skip(j).skip(1));
                }
                i = i + 1;
            }
            proof {
                j = j + 1;
            }
        }
        proof {
            assert(orig.skip(j).len() == 0);
            assert(j == orig.len());
            assert(orig.take(j) =~= orig);
            assert(self.contacts@.take(i as int) =~= self.contacts@);
        }
    }
}

/// The lowest contact id is the id of a contact, and no contact has a
/// lower one.
pub proof fn lemma_lowest_id_is_minimum<S>(contacts: Seq<TouchContact<S>>)
    requires
        contacts.len() > 0,
    ensures
        exists|i: int| 0 <= i < contacts.len() && contacts[i].id == lowest_id(contacts),
        forall|i: int| 0 <= i < contacts.len() ==> lowest_id(contacts) <= #[trigger] contacts[i].id,
    decreases contacts.len(),
{
    if contacts.len() == 1 {
        assert(contacts[0].id == lowest_id(contacts));
    } else {
        let rest = contacts.drop_last();
        lemma_lowest_id_is_minimum(rest);
        let j = choose|j: int| 0 <= j < rest.len() && rest[j].id == lowest_id(rest);
        assert(contacts[j] == rest[j]);
        let last = contacts.len() - 1;
        assert(contacts[last] == contacts.last());
        assert forall|i: int| 0 <= i < contacts.len() implies lowest_id(contacts)
            <= #[trigger] contacts[i].id by {
            if i < last {
                assert(contacts[i] == rest[i]);
            }
        }
    }
}

/// Exactly the contacts with the lowest active id are reported as the
/// primary pointer; every other contact is a non-primary pointer.
pub proof fn lemma_lowest_contact_is_primary<S>(contacts: Seq<TouchContact<S>>, k: int)
    requires
        0 <= k < contacts.len(),
    ensures
        touch_info(contacts[k].id as u64, lowest_id(contacts) as u64).is_primary() <==> (forall|
            i: int,
        | 0 <= i < contacts.len() ==> contacts[k].id <= #[trigger] contacts[i].id),
{
    lemma_lowest_id_is_minimum(contacts);
    let a = contacts[k].id;
    let p = lowest_id(contacts);
    assert((a as u64 == p as u64) == (a == p)) by (bit_vector);
    PointerId::lemma_value_of(1);
    if a != p {
        let au = a as u64;
        if au + 2 <= u64::MAX {
            PointerId::lemma_value_of((au + 2) as u64);
        }
        let j = choose|j: int| 0 <= j < contacts.len() && contacts[j].id == p;
        assert(!(a <= contacts[j].id));
    }
}

/// The changes recorded by a run of `mark_pending` calls (as `down` and
/// `update` make them) with the given contact ids and phases, starting from
/// `pending`, as the methods' contracts say one call at a time.
pub open spec fn pending_after(pending: Seq<PendingChange>, marks: Seq<(i32, TouchPhase)>) -> Seq<PendingChange>
    decreases marks.len(),
{
    if marks.len() == 0 {
        pending
    } else {
        with_pending(pending_after(pending, marks.drop_last()), marks.last().0, marks.last().1)
    }
}

/// Whether contact `id` is changed by some mark.
pub open spec fn marked(marks: Seq<(i32, TouchPhase)>, id: i32) -> bool {
    exists|i: int| 0 <= i < marks.len() && #[trigger] marks[i].0 == id
}

/// Whether some change in `pending` is of contact `id`.
pub open spec fn has_entry(pending: Seq<PendingChange>, id: i32) -> bool {
    exists|k: int| 0 <= k < pending.len() && #[trigger] pending[k].id == id
}

/// Whether `change` carries the phase of its contact's last mark.
pub open spec fn latest_change(marks: Seq<(i32, TouchPhase)>, change: PendingChange) -> bool {
    exists|i: int| #[trigger] last_mark_of(marks, i) && marks[i] == (change.id, change.phase)
}

/// Whether mark `i` is the last one of its contact.
pub open spec fn last_mark_of(marks: Seq<(i32, TouchPhase)>, i: int) -> bool {
    0 <= i < marks.len() && forall|j: int| i < j < marks.len() ==> #[trigger] marks[j].0 != marks[i].0
}

/// Over a frame's changes (from a new tracker, or since the last `flush` or
/// `cancel`, both of which clear them), the tracker records exactly one
/// change per changed contact, each with the phase of the contact's last
/// change, in the order the contacts first changed; `flush` reports them
/// in that order.
pub proof fn lemma_frame_changes(marks: Seq<(i32, TouchPhase)>)
    ensures
        ({
            let p = pending_after(Seq::empty(), marks);
            &&& ids_distinct(p)
            &&& forall|k: int| 0 <= k < p.len() ==> #[trigger] marked(marks, p[k].id)
            &&& forall|i: int| 0 <= i < marks.len() ==> has_entry(p, #[trigger] marks[i].0)
            &&& forall|k: int| 0 <= k < p.len() ==> #[trigger] latest_change(marks, p[k])
            &&& forall|k1: int, k2: int, i2: int|
                0 <= k1 < k2 < p.len() && 0 <= i2 < marks.len() && #[trigger] marks[i2].0 == #[trigger] p[k2].id
                    ==> exists|i1: int| 0 <= i1 < i2 && marks[i1].0 == #[trigger] p[k1].id
        }),
{
    lemma_changes_distinct(marks);
    lemma_changes_marked(marks);
    lemma_marks_have_changes(marks);
    lemma_changes_latest(marks);
    lemma_changes_in_first_order(marks);
}

/// What one recorded change does to the changes' contact ids.
proof fn lemma_step(p0: Seq<PendingChange>, id: i32, ph: TouchPhase)
    requires
        ids_distinct(p0),
    ensures
        ({
            let p = with_pending(p0, id, ph);
            &&& ids_distinct(p)
            &&& has_entry(p0, id) ==> p.len() == p0.len()
            &&& !has_entry(p0, id) ==> p.len() == p0.len() + 1 && p[p0.len() as int] == (PendingChange { id, phase: ph })
            &&& forall|j: int| 0 <= j < p0.len() && p0[j].id != id ==> #[trigger] p[j] == p0[j]
            &&& forall|j: int| 0 <= j < p.len() ==> (#[trigger] p[j]).id == if j < p0.len() { p0[j].id } else { id }
            &&& forall|j: int| 0 <= j < p.len() && (#[trigger] p[j]).id == id ==> p[j].phase == ph
            &&& has_entry(p, id)
        }),
{
    lemma_with_pending_keeps_ids_distinct(p0, id, ph);
    lemma_pending_index(p0, id, 0);
    let k = pending_index(p0, id, 0);
    let p = with_pending(p0, id, ph);
    if k < p0.len() {
        assert(has_entry(p0, id));
        assert(p[k].id == id);
        assert forall|j: int| 0 <= j < p.len() && (#[trigger] p[j]).id == id implies p[j].phase == ph by {
            if j != k {
                assert(p[j] == p0[j]);
            }
        }
    } else {
        assert forall|k2: int| 0 <= k2 < p0.len() implies #[trigger] p0[k2].id != id by {
            lemma_pending_index_none(p0, id, k2);
        }
        assert(!has_entry(p0, id));
        assert(p[p0.len() as int].id == id);
    }
}

proof fn lemma_changes_distinct(marks: Seq<(i32, TouchPhase)>)
    ensures
        ids_distinct(pending_after(Seq::empty(), marks)),
    decreases marks.len(),
{
    if marks.len() > 0 {
        lemma_changes_distinct(marks.drop_last());
        lemma_step(pending_after(Seq::empty(), marks.drop_last()), marks.last().0, marks.last().1);
    }
}

proof fn lemma_changes_marked(marks: Seq<(i32, TouchPhase)>)
    ensures
        ({
            let p = pending_after(Seq::empty(), marks);
            forall|k: int| 0 <= k < p.len() ==> #[trigger] marked(marks, p[k].id)
        }),
    decreases marks.len(),
{
    if marks.len() > 0 {
        let q = marks.drop_last();
        let n = marks.len() - 1;
        lemma_changes_marked(q);
        lemma_changes_distinct(q);
        let p0 = pending_after(Seq::empty(), q);
        let p = pending_after(Seq::empty(), marks);
        lemma_step(p0, marks.last().0, marks.last().1);
        assert(marks[n] == marks.last());
        assert forall|k: int| 0 <= k < p.len() implies #[trigger] marked(marks, p[k].id) by {
            if k < p0.len() && p0[k].id != marks.last().0 {
                assert(marked(q, p0[k].id));
                let i = choose|i: int| 0 <= i < q.len() && #[trigger] q[i].0 == p0[k].id;
                assert(marks[i] == q[i]);
            } else {
                assert(marks[n].0 == p[k].id);
            }
        }
    }
}

proof fn lemma_marks_have_changes(marks: Seq<(i32, TouchPhase)>)
    ensures
        ({
            let p = pending_after(Seq::empty(), marks);
            forall|i: int| 0 <= i < marks.len() ==> has_entry(p, #[trigger] marks[i].0)
        }),
    decreases marks.len(),
{
    if marks.len() > 0 {
        let q = marks.drop_last();
        let n = marks.len() - 1;
        lemma_marks_have_changes(q);
        lemma_changes_distinct(q);
        let p0 = pending_after(Seq::empty(), q);
        let p = pending_after(Seq::empty(), marks);
        lemma_step(p0, marks.last().0, marks.last().1);
        assert(marks[n] == marks.last());
        assert forall|i: int| 0 <= i < marks.len() implies has_entry(p, #[trigger] marks[i].0) by {
            if i < n {
                assert(marks[i] == q[i]);
                assert(has_entry(p0, q[i].0));
                let j = choose|j: int| 0 <= j < p0.len() && #[trigger] p0[j].id == q[i].0;
                assert(p[j].id == p0[j].id);
            }
        }
    }
}

proof fn lemma_changes_latest(marks: Seq<(i32, TouchPhase)>)
    ensures
        ({
            let p = pending_after(Seq::empty(), marks);
            forall|k: int| 0 <= k < p.len() ==> #[trigger] latest_change(marks, p[k])
        }),
    decreases marks.len(),
{
    if marks.len() > 0 {
        let q = marks.drop_last();
        let n = marks.len() - 1;
        lemma_changes_latest(q);
        lemma_changes_distinct(q);
        let p0 = pending_after(Seq::empty(), q);
        let p = pending_after(Seq::empty(), marks);
        let (id, ph) = marks.last();
        lemma_step(p0, id, ph);
        assert(marks[n] == marks.last());
        assert forall|k: int| 0 <= k < p.len() implies #[trigger] latest_change(marks, p[k]) by {
            if p[k].id == id {
                assert(last_mark_of(marks, n));
                assert(marks[n] == (p[k].id, p[k].phase));
            } else {
                assert(k < p0.len());
                assert(p[k] == p0[k]);
                assert(latest_change(q, p0[k]));
                let i = choose|i: int| #[trigger] last_mark_of(q, i) && q[i] == (p0[k].id, p0[k].phase);
                assert(marks[i] == q[i]);
                assert forall|j: int| i < j < marks.len() implies #[trigger] marks[j].0 != marks[i].0 by {
                    if j < n {
                        assert(marks[j] == q[j]);
                    }
                }
                assert(last_mark_of(marks, i));
            }
        }
    }
}

proof fn lemma_changes_in_first_order(marks: Seq<(i32, TouchPhase)>)
    ensures
        ({
            let p = pending_after(Seq::empty(), marks);
            forall|k1: int, k2: int, i2: int|
                0 <= k1 < k2 < p.len() && 0 <= i2 < marks.len() && #[trigger] marks[i2].0 == #[trigger] p[k2].id
                    ==> exists|i1: int| 0 <= i1 < i2 && marks[i1].0 == #[trigger] p[k1].id
        }),
    decreases marks.len(),
{
    if marks.len() > 0 {
        let q = marks.drop_last();
        let n = marks.len() - 1;
        lemma_changes_in_first_order(q);
        lemma_changes_marked(q);
        lemma_marks_have_changes(q);
        lemma_changes_distinct(q);
        let p0 = pending_after(Seq::empty(), q);
        let p = pending_after(Seq::empty(), marks);
        let (id, ph) = marks.last();
        lemma_step(p0, id, ph);
        assert(marks[n] == marks.last());
        assert forall|k1: int, k2: int, i2: int|
            0 <= k1 < k2 < p.len() && 0 <= i2 < marks.len() && #[trigger] marks[i2].0 == #[trigger] p[k2].id
            implies exists|i1: int| 0 <= i1 < i2 && marks[i1].0 == #[trigger] p[k1].id by {
            assert(k1 < p0.len());
            assert(p[k1].id == p0[k1].id);
            assert(marked(q, p0[k1].id));
            let i1 = choose|i1: int| 0 <= i1 < q.len() && #[trigger] q[i1].0 == p0[k1].id;
            assert(marks[i1] == q[i1]);
            if i2 < n {
                assert(marks[i2] == q[i2]);
                if k2 >= p0.len() {
                    assert(has_entry(p0, q[i2].0));
                    let j = choose|j: int| 0 <= j < p0.len() && #[trigger] p0[j].id == q[i2].0;
                    assert(p0[j].id != id);
                    assert(false);
                }
                assert(p[k2].id == p0[k2].id);
                assert(q[i2].0 == p0[k2].id);
                let w = choose|w: int| 0 <= w < i2 && q[w].0 == #[trigger] p0[k1].id;
                assert(marks[w] == q[w]);
            }
        }
    }
}

proof fn lemma_pending_index_none(pending: Seq<PendingChange>, id: i32, j: int)
    requires
        pending_index(pending, id, 0) == pending.len(),
        0 <= j < pending.len(),
    ensures
        pending[j].id != id,
{
    lemma_pending_index(pending, id, 0);
}

} // verus!
