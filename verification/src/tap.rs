//! Multi-click and multi-tap counting.
//!
//! A pointer going down near where a recent tap (of any pointer) went up,
//! within [`TAP_TIMEOUT`] nanoseconds of that tap's release, continues that
//! tap's count; otherwise it starts a new tap with count `1`. Releases,
//! moves, cancels and leaves read or forget the tap of their pointer.
//!
//! Whether a position is near an anchor is a distance test on physical
//! coordinates that the caller makes; the counter takes its answers as one
//! flag per tracked tap, and keeps each tap's anchor as an opaque value.

use vstd::prelude::*;

use crate::pointer::PointerId;

verus! {

/// How long after a release, in nanoseconds, a nearby press still continues
/// the tap count.
pub const TAP_TIMEOUT: u64 = 500_000_000;

/// One tracked tap.
#[derive(Clone, Copy, Debug, PartialEq, Eq)]
pub struct TapState<A> {
    /// The pointer the tap is tracked against.
    pub pointer_id: Option<PointerId>,
    /// When the tap last went down.
    pub down_time: u64,
    /// When the tap last went up; equal to `down_time` while it is down.
    pub up_time: u64,
    /// The tap count as of the last press.
    pub count: u8,
    /// Where the tap last went down.
    pub anchor: A,
}

/// Whether a tap still counts at `time`: it is down, or it went up less than
/// [`TAP_TIMEOUT`] ago.
pub open spec fn tap_live<A>(t: TapState<A>, time: u64) -> bool {
    t.down_time == t.up_time || t.up_time + TAP_TIMEOUT > time
}

/// The predicate [`tap_live`] at `time`.
pub open spec fn live_at<A>(time: u64) -> spec_fn(TapState<A>) -> bool {
    |t: TapState<A>| tap_live(t, time)
}

/// Whether a press at `time` continues tap `t`, given whether it is near the
/// tap's anchor: it is near, and the tap went up less than [`TAP_TIMEOUT`]
/// ago.
pub open spec fn continues<A>(t: TapState<A>, near: bool, time: u64) -> bool {
    near && t.up_time + TAP_TIMEOUT > time
}

/// The first index at or after `from` of a tap that a press continues, or
/// the length when there is none.
pub open spec fn first_continued<A>(taps: Seq<TapState<A>>, near: Seq<bool>, time: u64, from: int) -> int
    decreases taps.len() - from,
{
    if from >= taps.len() || from < 0 {
        taps.len() as int
    } else if continues(taps[from], near[from], time) {
        from
    } else {
        first_continued(taps, near, time, from + 1)
    }
}

/// The first index at or after `from` of a tap of pointer `id`, or the
/// length when there is none.
pub open spec fn first_of_pointer<A>(taps: Seq<TapState<A>>, id: Option<PointerId>, from: int) -> int
    decreases taps.len() - from,
{
    if from >= taps.len() || from < 0 {
        taps.len() as int
    } else if taps[from].pointer_id == id {
        from
    } else {
        first_of_pointer(taps, id, from + 1)
    }
}

/// The first index at or after `from` of a tap of pointer `id` that is still
/// down, or the length when there is none.
pub open spec fn first_down_of_pointer<A>(taps: Seq<TapState<A>>, id: Option<PointerId>, from: int) -> int
    decreases taps.len() - from,
{
    if from >= taps.len() || from < 0 {
        taps.len() as int
    } else if taps[from].pointer_id == id && taps[from].down_time == taps[from].up_time {
        from
    } else {
        first_down_of_pointer(taps, id, from + 1)
    }
}

/// The predicate "tracked against another pointer than `id`".
pub open spec fn other_pointer<A>(id: Option<PointerId>) -> spec_fn(TapState<A>) -> bool {
    |t: TapState<A>| t.pointer_id != id
}

/// The taps and the count after a press of pointer `id` at `time` and
/// `anchor`, where `near[i]` says whether the press is near tap `i`.
pub open spec fn press_result<A>(
    taps: Seq<TapState<A>>,
    near: Seq<bool>,
    id: Option<PointerId>,
    time: u64,
    anchor: A,
) -> (Seq<TapState<A>>, u8) {
    let i = first_continued(taps, near, time, 0);
    if i < taps.len() {
        let count = ((taps[i].count + 1) % 256) as u8;
        let t = TapState { pointer_id: id, down_time: time, up_time: time, count, anchor };
        (taps.update(i, t).filter(live_at(time)), count)
    } else {
        let t = TapState { pointer_id: id, down_time: time, up_time: time, count: 1, anchor };
        let j = first_of_pointer(taps, id, 0);
        if j < taps.len() {
            (taps.update(j, t).filter(live_at(time)), 1)
        } else {
            (taps.push(t).filter(live_at(time)), 1)
        }
    }
}

/// The taps and the count after a release of pointer `id` at `time`: the
/// first tap of that pointer records the release time and its count is
/// returned; nothing changes when the pointer has no tap.
pub open spec fn release_result<A>(taps: Seq<TapState<A>>, id: Option<PointerId>, time: u64) -> (
    Seq<TapState<A>>,
    Option<u8>,
) {
    let j = first_of_pointer(taps, id, 0);
    if j < taps.len() {
        (taps.update(j, TapState { up_time: time, ..taps[j] }), Some(taps[j].count))
    } else {
        (taps, None)
    }
}

/// Tracks multi-click and multi-tap counts from the pointer events a reducer
/// emits.
#[derive(Clone, Debug, PartialEq, Eq)]
pub struct TapCounter<A> {
    taps: Vec<TapState<A>>,
}

impl<A: Copy> TapCounter<A> {
    /// The tracked taps.
    pub closed spec fn taps(self) -> Seq<TapState<A>> {
        self.taps@
    }

    /// A counter tracking no tap.
    pub fn new() -> (c: TapCounter<A>)
        ensures
            c.taps() == Seq::<TapState<A>>::empty(),
    {
        TapCounter { taps: Vec::new() }
    }

    /// The anchors of the tracked taps, in order, for the caller's distance
    /// test.
    pub fn anchors(&self) -> (v: Vec<A>)
        ensures
            v@.len() == self.taps().len(),
            forall|i: int| 0 <= i < v@.len() ==> #[trigger] v@[i] == self.taps()[i].anchor,
    {
        let mut v: Vec<A> = Vec::new();
        let n = self.taps.len();
        for i in 0..n
            invariant
                n == self.taps@.len(),
                v@.len() == i,
                forall|k: int| 0 <= k < i ==> #[trigger] v@[k] == self.taps@[k].anchor,
        {
            v.push(self.taps[i].anchor);
        }
        v
    }

    /// Count a press of pointer `pointer_id` at `time` and `anchor`, where
    /// `near[i]` says whether the press is within the slop distance of tap
    /// `i`'s anchor; returns the press's count.
    ///
    /// The first tap the press is near and that went up less than
    /// [`TAP_TIMEOUT`] ago is continued: its count goes up by one (wrapping
    /// past 255) and it moves to this pointer, time and anchor. Otherwise the
    /// press starts a tap with count `1`, replacing the first tap of the same
    /// pointer or, if there is none, added at the end. Then taps that are up
    /// and older than the timeout are dropped.
    pub fn press(&mut self, pointer_id: Option<PointerId>, time: u64, anchor: A, near: &Vec<bool>) -> (count: u8)
        requires
            near@.len() == old(self).taps().len(),
        ensures
            (final(self).taps(), count) == press_result(old(self).taps(), near@, pointer_id, time, anchor),
    {
        let n = self.taps.len();
        let i = self.first_continued_index(near, time);
        let count: u8;
        if i < n {
            let t = self.taps[i];
            count = t.count.wrapping_add(1);
            self.taps.set(i, TapState { pointer_id, down_time: time, up_time: time, count, anchor });
        } else {
            count = 1;
            let fresh = TapState { pointer_id, down_time: time, up_time: time, count: 1, anchor };
            let j = self.first_tap_of(pointer_id);
            if j < n {
                self.taps.set(j, fresh);
            } else {
                self.taps.push(fresh);
            }
        }
        self.clear_expired(time);
        count
    }

    /// The index of the first tap of `pointer_id`, or the number of taps.
    fn first_tap_of(&self, pointer_id: Option<PointerId>) -> (j: usize)
        ensures
            j == first_of_pointer(self.taps(), pointer_id, 0),
    {
        let n = self.taps.len();
        let mut j: usize = 0;
        while j < n
            invariant
                n == self.taps@.len(),
                j <= n,
                first_of_pointer(self.taps@, pointer_id, 0) == first_of_pointer(self.taps@, pointer_id, j as int),
            decreases n - j,
        {
            if self.taps[j].pointer_id == pointer_id {
                return j;
            }
            j = j + 1;
        }
        j
    }

    /// The index of the first tap a press at `time` continues, or the number
    /// of taps.
    fn first_continued_index(&self, near: &Vec<bool>, time: u64) -> (i: usize)
        requires
            near@.len() == self.taps().len(),
        ensures
            i == first_continued(self.taps(), near@, time, 0),
    {
        let n = self.taps.len();
        let mut i: usize = 0;
        while i < n
            invariant
                n == self.taps@.len(),
                near@.len() == n,
                i <= n,
                first_continued(self.taps@, near@, time, 0) == first_continued(self.taps@, near@, time, i as int),
            decreases n - i,
        {
            let t = self.taps[i];
            let recent = t.up_time > time || time - t.up_time < TAP_TIMEOUT;
            if near[i] && recent {
                return i;
            }
            i = i + 1;
        }
        i
    }

    /// Drop the taps that are up and older than [`TAP_TIMEOUT`] at `time`.
    fn clear_expired(&mut self, time: u64)
        ensures
            final(self).taps() == old(self).taps().filter(live_at(time)),
    {
        let mut kept: Vec<TapState<A>> = Vec::new();
        let n = self.taps.len();
        for i in 0..n
            invariant
                n == self.taps@.len(),
                kept@ == self.taps@.take(i as int).filter(live_at::<A>(time)),
        {
            proof {
                assert(self.taps@.take(i as int + 1).drop_last() =~= self.taps@.take(i as int));
                reveal_with_fuel(Seq::filter, 1);
            }
            let t = self.taps[i];
            if t.down_time == t.up_time || t.up_time > time || time - t.up_time < TAP_TIMEOUT {
                kept.push(t);
            }
        }
        proof {
            assert(self.taps@.take(n as int) =~= self.taps@);
        }
        self.taps = kept;
    }

    /// Count a release of `pointer_id` at `time`: the first tap of that
    /// pointer records the release time and its count is returned; `None`
    /// when the pointer has no tap.
    pub fn release(&mut self, pointer_id: Option<PointerId>, time: u64) -> (count: Option<u8>)
        ensures
            (final(self).taps(), count) == release_result(old(self).taps(), pointer_id, time),
    {
        let j = self.first_tap_of(pointer_id);
        if j < self.taps.len() {
            let t = self.taps[j];
            self.taps.set(j, TapState { up_time: time, ..t });
            Some(t.count)
        } else {
            None
        }
    }

    /// The count a move of `pointer_id` carries: that of the first tap of
    /// the pointer that is still down, if any.
    pub fn moving(&self, pointer_id: Option<PointerId>) -> (count: Option<u8>)
        ensures
            ({
                let j = first_down_of_pointer(self.taps(), pointer_id, 0);
                if j < self.taps().len() {
                    count == Some(self.taps()[j].count)
                } else {
                    count is None
                }
            }),
    {
        let n = self.taps.len();
        let mut j: usize = 0;
        while j < n
            invariant
                n == self.taps@.len(),
                j <= n,
                first_down_of_pointer(self.taps@, pointer_id, 0) == first_down_of_pointer(
                    self.taps@,
                    pointer_id,
                    j as int,
                ),
            decreases n - j,
        {
            let t = self.taps[j];
            if t.pointer_id == pointer_id && t.down_time == t.up_time {
                return Some(t.count);
            }
            j = j + 1;
        }
        None
    }

    /// Forget every tap of `pointer_id`, as a cancel or a leave does.
    pub fn forget(&mut self, pointer_id: Option<PointerId>)
        ensures
            final(self).taps() == old(self).taps().filter(other_pointer(pointer_id)),
    {
        let mut kept: Vec<TapState<A>> = Vec::new();
        let n = self.taps.len();
        for i in 0..n
            invariant
                n == self.taps@.len(),
                kept@ == self.taps@.take(i as int).filter(other_pointer::<A>(pointer_id)),
        {
            proof {
                assert(self.taps@.take(i as int + 1).drop_last() =~= self.taps@.take(i as int));
                reveal_with_fuel(Seq::filter, 1);
            }
            let t = self.taps[i];
            if t.pointer_id != pointer_id {
                kept.push(t);
            }
        }
        proof {
            assert(self.taps@.take(n as int) =~= self.taps@);
        }
        self.taps = kept;
    }
}

/// A press that is near no tracked tap starts a new tap: its count is `1`.
pub proof fn lemma_far_press_counts_one<A>(
    taps: Seq<TapState<A>>,
    near: Seq<bool>,
    id: Option<PointerId>,
    time: u64,
    anchor: A,
)
    requires
        near.len() == taps.len(),
        forall|i: int| 0 <= i < near.len() ==> !#[trigger] near[i],
    ensures
        press_result(taps, near, id, time, anchor).1 == 1,
{
    lemma_first_continued_none(taps, near, time, 0);
}

proof fn lemma_first_continued_none<A>(taps: Seq<TapState<A>>, near: Seq<bool>, time: u64, from: int)
    requires
        near.len() == taps.len(),
        0 <= from,
        forall|i: int| 0 <= i < near.len() ==> !#[trigger] near[i],
    ensures
        first_continued(taps, near, time, from) == taps.len(),
    decreases taps.len() - from,
{
    if from < taps.len() {
        assert(!near[from]);
        lemma_first_continued_none(taps, near, time, from + 1);
    }
}

/// A double click: a first press counts `1` and its release reports `1`; a
/// second press near it, less than [`TAP_TIMEOUT`] after the release,
/// counts `2`.
pub proof fn lemma_double_press_counts_two<A>(
    id: Option<PointerId>,
    t0: u64,
    t1: u64,
    t2: u64,
    first_anchor: A,
    second_anchor: A,
)
    requires
        t0 <= t1 <= t2,
        t2 < t1 + TAP_TIMEOUT,
    ensures
        ({
            let (after_press, c1) = press_result(Seq::empty(), Seq::empty(), id, t0, first_anchor);
            let (after_release, r) = release_result(after_press, id, t1);
            let (_, c2) = press_result(after_release, seq![true], id, t2, second_anchor);
            &&& c1 == 1
            &&& r == Some(1u8)
            &&& c2 == 2
        }),
{
    let e = Seq::<TapState<A>>::empty();
    let t = TapState { pointer_id: id, down_time: t0, up_time: t0, count: 1u8, anchor: first_anchor };
    assert(first_continued(e, Seq::empty(), t0, 0) == 0);
    assert(first_of_pointer(e, id, 0) == 0);
    reveal_with_fuel(Seq::filter, 2);
    assert(e.push(t).drop_last() =~= e);
    assert(e.push(t).filter(live_at(t0)) =~= seq![t]);
    let (after_press, c1) = press_result(e, Seq::empty(), id, t0, first_anchor);
    assert(after_press == seq![t]);
    assert(first_of_pointer(after_press, id, 0) == 0);
    let (after_release, r) = release_result(after_press, id, t1);
    assert(after_release[0].up_time == t1);
    assert(first_continued(after_release, seq![true], t2, 0) == 0);
}

/// A press that comes [`TAP_TIMEOUT`] or more after every tracked tap went
/// up starts a new tap, wherever it is: its count is `1`.
pub proof fn lemma_late_press_counts_one<A>(
    taps: Seq<TapState<A>>,
    near: Seq<bool>,
    id: Option<PointerId>,
    time: u64,
    anchor: A,
)
    requires
        near.len() == taps.len(),
        forall|i: int| 0 <= i < taps.len() ==> #[trigger] taps[i].up_time + TAP_TIMEOUT <= time,
    ensures
        press_result(taps, near, id, time, anchor).1 == 1,
{
    lemma_first_continued_late(taps, near, time, 0);
}

proof fn lemma_first_continued_late<A>(taps: Seq<TapState<A>>, near: Seq<bool>, time: u64, from: int)
    requires
        near.len() == taps.len(),
        0 <= from,
        forall|i: int| 0 <= i < taps.len() ==> #[trigger] taps[i].up_time + TAP_TIMEOUT <= time,
    ensures
        first_continued(taps, near, time, from) == taps.len(),
    decreases taps.len() - from,
{
    if from < taps.len() {
        assert(taps[from].up_time + TAP_TIMEOUT <= time);
        lemma_first_continued_late(taps, near, time, from + 1);
    }
}

} // verus!
