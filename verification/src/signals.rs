//! Post-commit signals that carry the affected row.
//!
//! The per-row save hook captures a copy of each row into a per-request
//! [`SignalBuffer`]; after commit, the entity watch drains the rows of that
//! entity and calls every handler subscribed to it with each row. Rows
//! amended by a write-set hook are refreshed in the buffer before commit, so
//! handlers receive the rows actually persisted; a blocked write set
//! discards its entity's rows.

use vstd::prelude::*;

verus! {

/// One captured row: the entity it belongs to, the row, and the capture that
/// produced it (used again to refresh the row after amendments).
pub struct BufferedRow<R, C> {
    pub entity: String,
    pub row: R,
    pub capture: C,
}

/// Per-request store carrying rows from the save hook to the entity watch.
pub struct SignalBuffer<R, C> {
    rows: Vec<BufferedRow<R, C>>,
}

/// The rows of `entity` in `rows`, in capture order.
pub open spec fn rows_of<R, C>(rows: Seq<BufferedRow<R, C>>, entity: Seq<char>) -> Seq<R>
    decreases rows.len(),
{
    if rows.len() == 0 {
        Seq::empty()
    } else if rows.last().entity@ == entity {
        rows_of(rows.drop_last(), entity).push(rows.last().row)
    } else {
        rows_of(rows.drop_last(), entity)
    }
}

/// The buffered rows that do not belong to `entity`, in capture order.
pub open spec fn others<R, C>(rows: Seq<BufferedRow<R, C>>, entity: Seq<char>) -> Seq<BufferedRow<R, C>>
    decreases rows.len(),
{
    if rows.len() == 0 {
        Seq::empty()
    } else if rows.last().entity@ != entity {
        others(rows.drop_last(), entity).push(rows.last())
    } else {
        others(rows.drop_last(), entity)
    }
}

/// How many of the first `end` buffered rows belong to `entity`.
pub open spec fn count_of<R, C>(rows: Seq<BufferedRow<R, C>>, entity: Seq<char>, end: int) -> nat
    decreases end,
{
    if end <= 0 {
        0
    } else if rows[end - 1].entity@ == entity {
        count_of(rows, entity, end - 1) + 1
    } else {
        count_of(rows, entity, end - 1)
    }
}

/// The buffered rows after refreshing the rows of `entity`: the k-th row of
/// that entity takes `replacements[k]` when there is one; every other row,
/// and every entity and capture, stays.
pub open spec fn refreshed<R, C>(
    rows: Seq<BufferedRow<R, C>>,
    entity: Seq<char>,
    replacements: Seq<Option<R>>,
) -> Seq<BufferedRow<R, C>> {
    Seq::new(
        rows.len(),
        |j: int| {
            let k = count_of(rows, entity, j);
            if rows[j].entity@ == entity && k < replacements.len() && replacements[k as int] is Some {
                BufferedRow { row: replacements[k as int]->0, ..rows[j] }
            } else {
                rows[j]
            }
        },
    )
}

impl<R, C> SignalBuffer<R, C> {
    pub closed spec fn rows_spec(&self) -> Seq<BufferedRow<R, C>> {
        self.rows@
    }

    /// An empty buffer.
    pub fn new() -> (buffer: Self)
        ensures
            buffer.rows_spec().len() == 0,
    {
        SignalBuffer { rows: Vec::new() }
    }

    /// Record one row captured for `entity`.
    pub fn capture(&mut self, entity: &str, row: R, capture: C)
        ensures
            final(self).rows_spec().len() == old(self).rows_spec().len() + 1,
            final(self).rows_spec().drop_last() == old(self).rows_spec(),
            final(self).rows_spec().last().entity@ == entity@,
            final(self).rows_spec().last().row == row,
            final(self).rows_spec().last().capture == capture,
    {
        self.rows.push(BufferedRow { entity: entity.to_owned(), row, capture });
        assert(self.rows@.drop_last() =~= old(self).rows@);
    }

    /// The positions of the rows of `entity`, in capture order.
    pub fn positions_of(&self, entity: &str) -> (positions: Vec<usize>)
        ensures
            positions@.len() == rows_of(self.rows_spec(), entity@).len(),
            forall|k: int| 0 <= k < positions@.len() ==> {
                let j = #[trigger] positions@[k] as int;
                &&& 0 <= j < self.rows_spec().len()
                &&& self.rows_spec()[j].entity@ == entity@
                &&& count_of(self.rows_spec(), entity@, j) == k
            },
    {
        let entity = entity.to_owned();
        let mut positions: Vec<usize> = Vec::new();
        let mut j: usize = 0;
        while j < self.rows.len()
            invariant
                j <= self.rows@.len(),
                positions@.len() == count_of(self.rows@, entity@, j as int),
                positions@.len() == rows_of(self.rows@.take(j as int), entity@).len(),
                forall|k: int| 0 <= k < positions@.len() ==> {
                    let i = #[trigger] positions@[k] as int;
                    &&& 0 <= i < j
                    &&& self.rows@[i].entity@ == entity@
                    &&& count_of(self.rows@, entity@, i) == k
                },
            decreases self.rows@.len() - j,
        {
            assert(self.rows@.take(j + 1).drop_last() =~= self.rows@.take(j as int));
            if self.rows[j].entity.eq(&entity) {
                positions.push(j);
            }
            j += 1;
        }
        assert(self.rows@.take(j as int) =~= self.rows@);
        positions
    }

    /// The capture that produced the row at `position`.
    pub fn capture_at(&self, position: usize) -> (capture: &C)
        requires
            position < self.rows_spec().len(),
        ensures
            *capture == self.rows_spec()[position as int].capture,
    {
        &self.rows[position].capture
    }

    /// Refresh the rows of `entity` after a write-set hook amended them: the
    /// k-th buffered row of the entity takes `replacements[k]` when that is a
    /// row.
    pub fn refresh(&mut self, entity: &str, replacements: Vec<Option<R>>)
        ensures
            final(self).rows_spec() == refreshed(old(self).rows_spec(), entity@, replacements@),
    {
        let entity = entity.to_owned();
        let ghost initial = self.rows@;
        let _ = self.rows.len();
        let ghost given = replacements@;
        let mut replacements = replacements;
        let mut rows: Vec<BufferedRow<R, C>> = Vec::new();
        let mut remaining: Vec<BufferedRow<R, C>> = Vec::new();
        std::mem::swap(&mut remaining, &mut self.rows);
        let mut seen: usize = 0;
        let mut j: usize = 0;
        assert(initial.skip(0) =~= initial);
        assert(given.skip(0) =~= given);
        while remaining.len() > 0
            invariant
                j + remaining@.len() == initial.len(),
                initial.len() <= usize::MAX,
                remaining@ == initial.skip(j as int),
                rows@ == refreshed(initial, entity@, given).take(j as int),
                seen == count_of(initial, entity@, j as int),
                seen <= j,
                seen <= given.len() ==> replacements@ == given.skip(seen as int),
                seen > given.len() ==> replacements@.len() == 0,
            decreases remaining@.len(),
        {
            let buffered = remaining.remove(0);
            assert(buffered == initial[j as int]);
            if buffered.entity.eq(&entity) {
                if replacements.len() > 0 {
                    let replacement = replacements.remove(0);
                    assert(replacement == given[seen as int]);
                    match replacement {
                        Some(row) => rows.push(BufferedRow { row, ..buffered }),
                        None => rows.push(buffered),
                    }
                    assert(given.skip(seen as int).skip(1) =~= given.skip(seen + 1));
                } else {
                    rows.push(buffered);
                }
                seen = seen + 1;
            } else {
                rows.push(buffered);
            }
            assert(rows@ =~= refreshed(initial, entity@, given).take(j + 1));
            assert(initial.skip(j as int).skip(1) =~= initial.skip(j + 1));
            j += 1;
        }
        assert(rows@ =~= refreshed(initial, entity@, given));
        self.rows = rows;
    }

    /// Drop every row of `entity`: its write was blocked, so no signal for
    /// it may fire.
    pub fn discard(&mut self, entity: &str)
        ensures
            final(self).rows_spec() == others(old(self).rows_spec(), entity@),
    {
        let _ = self.drain(entity);
    }

    /// Take every row of `entity`, in capture order, leaving the others.
    pub fn drain(&mut self, entity: &str) -> (drained: Vec<R>)
        ensures
            drained@ == rows_of(old(self).rows_spec(), entity@),
            final(self).rows_spec() == others(old(self).rows_spec(), entity@),
    {
        let entity = entity.to_owned();
        let ghost initial = self.rows@;
        let _ = self.rows.len();
        let mut matching: Vec<R> = Vec::new();
        let mut rest: Vec<BufferedRow<R, C>> = Vec::new();
        let mut remaining: Vec<BufferedRow<R, C>> = Vec::new();
        std::mem::swap(&mut remaining, &mut self.rows);
        let mut j: usize = 0;
        assert(initial.skip(0) =~= initial);
        while remaining.len() > 0
            invariant
                j + remaining@.len() == initial.len(),
                initial.len() <= usize::MAX,
                remaining@ == initial.skip(j as int),
                matching@ == rows_of(initial.take(j as int), entity@),
                rest@ == others(initial.take(j as int), entity@),
            decreases remaining@.len(),
        {
            let buffered = remaining.remove(0);
            assert(buffered == initial[j as int]);
            assert(initial.take(j + 1).drop_last() =~= initial.take(j as int));
            if buffered.entity.eq(&entity) {
                matching.push(buffered.row);
            } else {
                rest.push(buffered);
            }
            assert(initial.skip(j as int).skip(1) =~= initial.skip(j + 1));
            j += 1;
        }
        assert(initial.take(j as int) =~= initial);
        self.rows = rest;
        matching
    }
}

/// Draining an entity and keeping the others splits the buffer: every row
/// goes to exactly one side.
pub proof fn law_drain_partitions<R, C>(rows: Seq<BufferedRow<R, C>>, entity: Seq<char>)
    ensures
        rows_of(rows, entity).len() + others(rows, entity).len() == rows.len(),
    decreases rows.len(),
{
    if rows.len() > 0 {
        law_drain_partitions(rows.drop_last(), entity);
    }
}

/// What is left after draining or discarding an entity holds none of its
/// rows, and every other entity's rows, in the same order.
pub proof fn law_drain_leaves_other_entities<R, C>(rows: Seq<BufferedRow<R, C>>, entity: Seq<char>, other: Seq<char>)
    ensures
        rows_of(others(rows, entity), entity).len() == 0,
        other != entity ==> rows_of(others(rows, entity), other) == rows_of(rows, other),
    decreases rows.len(),
{
    if rows.len() > 0 {
        law_drain_leaves_other_entities(rows.drop_last(), entity, other);
        let kept = others(rows.drop_last(), entity);
        if rows.last().entity@ != entity {
            assert(others(rows, entity).drop_last() =~= kept);
        }
    }
}

/// A captured row is the last one its entity drains; capturing a row for
/// one entity changes no other entity's rows.
pub proof fn law_capture_then_drain<R, C>(rows: Seq<BufferedRow<R, C>>, captured: BufferedRow<R, C>, other: Seq<char>)
    ensures
        rows_of(rows.push(captured), captured.entity@) == rows_of(rows, captured.entity@).push(captured.row),
        other != captured.entity@ ==> rows_of(rows.push(captured), other) == rows_of(rows, other),
{
    assert(rows.push(captured).drop_last() =~= rows);
}

proof fn lemma_count_of_bound<R, C>(rows: Seq<BufferedRow<R, C>>, entity: Seq<char>, end: int)
    requires
        0 <= end <= rows.len(),
    ensures
        count_of(rows, entity, end) <= end,
        count_of(rows, entity, end) == rows_of(rows.take(end), entity).len(),
    decreases end,
{
    if end > 0 {
        lemma_count_of_bound(rows, entity, end - 1);
        assert(rows.take(end).drop_last() =~= rows.take(end - 1));
    }
}

/// Refreshing an entity's rows keeps every row's entity and capture, keeps
/// every other entity's rows, and keeps the number of rows.
pub proof fn law_refresh_keeps_shape<R, C>(
    rows: Seq<BufferedRow<R, C>>,
    entity: Seq<char>,
    replacements: Seq<Option<R>>,
    j: int,
)
    requires
        0 <= j < rows.len(),
    ensures
        refreshed(rows, entity, replacements).len() == rows.len(),
        refreshed(rows, entity, replacements)[j].entity == rows[j].entity,
        refreshed(rows, entity, replacements)[j].capture == rows[j].capture,
        rows[j].entity@ != entity ==> refreshed(rows, entity, replacements)[j] == rows[j],
{
}

/// One subscription: the entity it listens to, how it captures a row, and
/// the handler it calls.
pub struct Subscription<C, H> {
    pub entity: String,
    pub capture: C,
    pub handler: H,
}

/// A hook set delivering post-commit signals, one subscription per call to
/// [`Signals::on`].
pub struct Signals<C, H> {
    subscriptions: Vec<Subscription<C, H>>,
}

/// One handler call: the subscription called and the drained row it
/// receives (`None`: the watch fired with no captured row).
pub struct Delivery {
    pub subscription: usize,
    pub row: Option<usize>,
}

/// A plan of handler calls as (subscription, row) pairs.
pub open spec fn deliveries_view(plan: Seq<Delivery>) -> Seq<(int, Option<int>)> {
    plan.map_values(|delivery: Delivery| (delivery.subscription as int, match delivery.row {
        Some(k) => Some(k as int),
        None => None,
    }))
}

/// The calls one subscription receives when `rows` rows were drained: one
/// per row in order, or a single row-less call when none were.
pub open spec fn deliveries_to(subscription: int, rows: nat) -> Seq<(int, Option<int>)> {
    if rows == 0 {
        seq![(subscription, None)]
    } else {
        Seq::new(rows, |k: int| (subscription, Some(k)))
    }
}

/// The calls an entity watch makes: every subscription to `entity`, in
/// subscription order, receives its deliveries.
pub open spec fn watch_plan_spec<C, H>(subscriptions: Seq<Subscription<C, H>>, entity: Seq<char>, rows: nat) -> Seq<(int, Option<int>)>
    decreases subscriptions.len(),
{
    if subscriptions.len() == 0 {
        Seq::empty()
    } else {
        watch_plan_spec(subscriptions.drop_last(), entity, rows) + if subscriptions.last().entity@ == entity {
            deliveries_to(subscriptions.len() - 1, rows)
        } else {
            Seq::empty()
        }
    }
}

impl<C, H> Signals<C, H> {
    pub closed spec fn subscriptions_spec(&self) -> Seq<Subscription<C, H>> {
        self.subscriptions@
    }

    /// No subscriptions.
    pub fn new() -> (signals: Self)
        ensures
            signals.subscriptions_spec().len() == 0,
    {
        Signals { subscriptions: Vec::new() }
    }

    /// Subscribe to post-mutation events for one entity.
    pub fn on(self, entity: &str, capture: C, handler: H) -> (signals: Self)
        ensures
            signals.subscriptions_spec().len() == self.subscriptions_spec().len() + 1,
            signals.subscriptions_spec().drop_last() == self.subscriptions_spec(),
            signals.subscriptions_spec().last().entity@ == entity@,
            signals.subscriptions_spec().last().capture == capture,
            signals.subscriptions_spec().last().handler == handler,
    {
        let mut signals = self;
        signals.subscriptions.push(Subscription { entity: entity.to_owned(), capture, handler });
        assert(signals.subscriptions@.drop_last() =~= self.subscriptions@);
        signals
    }

    /// The subscriptions to `entity`, in subscription order. The save hook
    /// tries their captures in this order and keeps the first row captured.
    pub fn subscribers(&self, entity: &str) -> (positions: Vec<usize>)
        ensures
            forall|k: int| 0 <= k < positions@.len() ==> {
                let j = #[trigger] positions@[k] as int;
                0 <= j < self.subscriptions_spec().len() && self.subscriptions_spec()[j].entity@ == entity@
            },
            forall|k: int, l: int| 0 <= k < l < positions@.len() ==> positions@[k] < positions@[l],
            forall|j: int| 0 <= j < self.subscriptions_spec().len() && self.subscriptions_spec()[j].entity@ == entity@
                ==> positions@.contains(j as usize),
    {
        let entity = entity.to_owned();
        let mut positions: Vec<usize> = Vec::new();
        let mut j: usize = 0;
        while j < self.subscriptions.len()
            invariant
                j <= self.subscriptions@.len(),
                forall|k: int| 0 <= k < positions@.len() ==> {
                    let i = #[trigger] positions@[k] as int;
                    0 <= i < j && self.subscriptions@[i].entity@ == entity@
                },
                forall|k: int, l: int| 0 <= k < l < positions@.len() ==> positions@[k] < positions@[l],
                forall|i: int| 0 <= i < j && self.subscriptions@[i].entity@ == entity@
                    ==> positions@.contains(i as usize),
            decreases self.subscriptions@.len() - j,
        {
            let ghost earlier = positions@;
            if self.subscriptions[j].entity.eq(&entity) {
                positions.push(j);
                assert forall|i: int| 0 <= i < j + 1 && self.subscriptions@[i].entity@ == entity@
                    implies positions@.contains(i as usize) by {
                    if i < j {
                        let k = choose|k: int| 0 <= k < earlier.len() && earlier[k] == i as usize;
                        assert(positions@[k] == i as usize);
                    } else {
                        assert(positions@[positions@.len() - 1] == j);
                    }
                }
            }
            j += 1;
        }
        positions
    }

    /// The capture of the subscription at `position`.
    pub fn capture_at(&self, position: usize) -> (capture: &C)
        requires
            position < self.subscriptions_spec().len(),
        ensures
            *capture == self.subscriptions_spec()[position as int].capture,
    {
        &self.subscriptions[position].capture
    }

    /// The handler of the subscription at `position`.
    pub fn handler_at(&self, position: usize) -> (handler: &H)
        requires
            position < self.subscriptions_spec().len(),
        ensures
            *handler == self.subscriptions_spec()[position as int].handler,
    {
        &self.subscriptions[position].handler
    }

    /// The handler calls an entity watch makes after `rows` rows of
    /// `entity` were drained: each subscriber of the entity, in order, is
    /// called once per row in row order, or once with no row when none was
    /// captured. Subscribers of other entities are not called.
    pub fn watch_plan(&self, entity: &str, rows: usize) -> (plan: Vec<Delivery>)
        ensures
            deliveries_view(plan@) == watch_plan_spec(self.subscriptions_spec(), entity@, rows as nat),
    {
        let entity = entity.to_owned();
        let mut plan: Vec<Delivery> = Vec::new();
        let mut j: usize = 0;
        let ghost subscriptions = self.subscriptions@;
        while j < self.subscriptions.len()
            invariant
                j <= subscriptions.len(),
                subscriptions == self.subscriptions@,
                deliveries_view(plan@) == watch_plan_spec(subscriptions.take(j as int), entity@, rows as nat),
            decreases subscriptions.len() - j,
        {
            let ghost before = plan@;
            assert(subscriptions.take(j + 1).drop_last() =~= subscriptions.take(j as int));
            if self.subscriptions[j].entity.eq(&entity) {
                if rows == 0 {
                    plan.push(Delivery { subscription: j, row: None });
                } else {
                    let mut k: usize = 0;
                    while k < rows
                        invariant
                            k <= rows,
                            plan@.len() == before.len() + k,
                            plan@.take(before.len() as int) == before,
                            forall|i: int| before.len() <= i < before.len() + k ==> #[trigger] plan@[i]
                                == (Delivery { subscription: j, row: Some((i - before.len()) as usize) }),
                        decreases rows - k,
                    {
                        plan.push(Delivery { subscription: j, row: Some(k) });
                        assert(plan@.take(before.len() as int) =~= before);
                        k += 1;
                    }
                    assert(plan@ =~= before + Seq::new(rows as nat, |i: int| Delivery { subscription: j, row: Some(i as usize) }));
                }
            }
            assert(deliveries_view(plan@) =~= deliveries_view(before) + watch_plan_spec(subscriptions.take(j + 1), entity@, rows as nat).skip(before.len() as int));
            j += 1;
        }
        assert(subscriptions.take(j as int) =~= subscriptions);
        plan
    }
}

/// An entity watch calls only the subscribers of the watched entity, each
/// call with a drained row in range, or with no row exactly when none was
/// drained; and every subscriber is called.
pub proof fn law_watch_calls_only_subscribers<C, H>(subscriptions: Seq<Subscription<C, H>>, entity: Seq<char>, rows: nat)
    ensures
        forall|k: int| 0 <= k < watch_plan_spec(subscriptions, entity, rows).len() ==> {
            let (s, row) = #[trigger] watch_plan_spec(subscriptions, entity, rows)[k];
            &&& 0 <= s < subscriptions.len()
            &&& subscriptions[s].entity@ == entity
            &&& match row {
                Some(r) => 0 <= r < rows,
                None => rows == 0,
            }
        },
        forall|s: int| 0 <= s < subscriptions.len() && subscriptions[s].entity@ == entity
            ==> watch_plan_spec(subscriptions, entity, rows).contains(
                (s, if rows == 0 { None } else { Some(0int) }),
            ),
    decreases subscriptions.len(),
{
    if subscriptions.len() > 0 {
        let earlier = subscriptions.drop_last();
        law_watch_calls_only_subscribers(earlier, entity, rows);
        let last = subscriptions.len() - 1;
        let head = watch_plan_spec(earlier, entity, rows);
        let tail = if subscriptions.last().entity@ == entity {
            deliveries_to(last, rows)
        } else {
            Seq::empty()
        };
        assert(watch_plan_spec(subscriptions, entity, rows) == head + tail);
        assert forall|k: int| 0 <= k < (head + tail).len() implies {
            let (s, row) = #[trigger] (head + tail)[k];
            &&& 0 <= s < subscriptions.len()
            &&& subscriptions[s].entity@ == entity
            &&& match row {
                Some(r) => 0 <= r < rows,
                None => rows == 0,
            }
        } by {
            if k < head.len() {
                assert((head + tail)[k] == head[k]);
                let (s, row) = head[k];
                assert(subscriptions[s] == earlier[s]);
            } else {
                assert((head + tail)[k] == tail[k - head.len()]);
            }
        }
        assert forall|s: int| 0 <= s < subscriptions.len() && subscriptions[s].entity@ == entity
            implies (head + tail).contains((s, if rows == 0 { None } else { Some(0int) })) by {
            let wanted = (s, if rows == 0 { None } else { Some(0int) });
            if s < last {
                assert(earlier[s] == subscriptions[s]);
                assert(head.contains(wanted));
                let k = choose|k: int| 0 <= k < head.len() && head[k] == wanted;
                assert((head + tail)[k] == wanted);
            } else {
                assert(tail[0] == wanted);
                assert((head + tail)[head.len() as int] == wanted);
            }
        }
    }
}

} // verus!
