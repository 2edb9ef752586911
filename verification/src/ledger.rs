//! Booking ledger: a user's reservations and orders with a running total.
//!
//! The history is an append-only tagged sequence of reservations plus a
//! running total. The well-formedness invariant ties them together: the total
//! always equals the sum of the totals of the non-cancelled entries, and ids
//! are strictly increasing, hence unique. Mutation happens under the caller's
//! per-user lock; every operation here is a whole critical section, so no
//! caller can observe a history whose total disagrees with its entries.

use vstd::prelude::*;

verus! {

#[derive(Debug, Clone, Copy, PartialEq, Eq, Structural)]
pub enum ReservationKind {
    Hotel,
    Experience,
    Restaurant,
    Purchase,
}

#[derive(Debug, Clone, Copy, PartialEq, Eq, Structural)]
pub enum ReservationStatus {
    Confirmed,
    Cancelled,
}

/// Variant-specific payload of a reservation.
#[derive(Debug, Clone)]
pub enum ReservationDetails {
    Hotel { checkin_date: Option<String>, checkout_date: Option<String>, addons: Option<
        Vec<String>,
    > },
    Experience { personas: u32, details: Option<String> },
    Restaurant { items: Option<Vec<String>> },
    Purchase { items: Vec<String> },
}

/// One reservation or order. Monetary totals are in cents.
#[derive(Debug, Clone)]
pub struct Reservation {
    pub id: u64,
    pub kind: ReservationKind,
    pub name: String,
    pub total: u64,
    pub created_at_millis: u64,
    pub status: ReservationStatus,
    pub details: ReservationDetails,
}

#[derive(Debug, Clone, Copy, PartialEq, Eq, Structural)]
pub enum LedgerError {
    NotFound,
    AlreadyCancelled,
}

/// Sum of the totals of the non-cancelled entries.
pub open spec fn active_total(s: Seq<Reservation>) -> int
    decreases s.len(),
{
    if s.len() == 0 {
        0
    } else {
        active_total(s.drop_last()) + if s.last().status == ReservationStatus::Confirmed {
            s.last().total as int
        } else {
            0
        }
    }
}

pub open spec fn ids_increasing(s: Seq<Reservation>) -> bool {
    forall|i: int, j: int| 0 <= i < j < s.len() ==> s[i].id < s[j].id
}

pub open spec fn has_id(s: Seq<Reservation>, id: u64) -> bool {
    exists|i: int| 0 <= i < s.len() && s[i].id == id
}

/// The index of the entry carrying `id`; meaningful when `has_id` holds,
/// and then unique once ids are strictly increasing.
pub open spec fn idx_of(s: Seq<Reservation>, id: u64) -> int {
    choose|i: int| 0 <= i < s.len() && s[i].id == id
}

/// The reservation with its status set to cancelled, all else unchanged.
pub open spec fn cancelled(r: Reservation) -> Reservation {
    Reservation {
        id: r.id,
        kind: r.kind,
        name: r.name,
        total: r.total,
        created_at_millis: r.created_at_millis,
        status: ReservationStatus::Cancelled,
        details: r.details,
    }
}

/// The history after cancelling the entry carrying `id`.
pub open spec fn cancel_model(s: Seq<Reservation>, id: u64) -> Seq<Reservation> {
    s.update(idx_of(s, id), cancelled(s[idx_of(s, id)]))
}

pub proof fn lemma_active_total_nonneg(s: Seq<Reservation>)
    ensures
        active_total(s) >= 0,
    decreases s.len(),
{
    if s.len() > 0 {
        lemma_active_total_nonneg(s.drop_last());
    }
}

pub proof fn lemma_active_total_entry(s: Seq<Reservation>, i: int)
    requires
        0 <= i < s.len(),
        s[i].status == ReservationStatus::Confirmed,
    ensures
        active_total(s) >= s[i].total,
    decreases s.len(),
{
    lemma_active_total_nonneg(s.drop_last());
    if i < s.len() - 1 {
        assert(s.drop_last()[i] == s[i]);
        lemma_active_total_entry(s.drop_last(), i);
    }
}

pub proof fn lemma_active_total_update_cancel(s: Seq<Reservation>, i: int)
    requires
        0 <= i < s.len(),
        s[i].status == ReservationStatus::Confirmed,
    ensures
        active_total(s.update(i, cancelled(s[i]))) == active_total(s) - s[i].total,
    decreases s.len(),
{
    let s2 = s.update(i, cancelled(s[i]));
    if i == s.len() - 1 {
        assert(s2.drop_last() =~= s.drop_last());
    } else {
        assert(s2.drop_last() =~= s.drop_last().update(i, cancelled(s[i])));
        assert(s.drop_last()[i] == s[i]);
        lemma_active_total_update_cancel(s.drop_last(), i);
        assert(s2.last() == s.last());
    }
}

pub proof fn lemma_idx_of_unique(s: Seq<Reservation>, id: u64, i: int)
    requires
        ids_increasing(s),
        0 <= i < s.len(),
        s[i].id == id,
    ensures
        has_id(s, id),
        idx_of(s, id) == i,
{
    assert(has_id(s, id));
    let j = idx_of(s, id);
    assert(0 <= j < s.len() && s[j].id == id);
    if j < i {
        assert(s[j].id < s[i].id);
    } else if i < j {
        assert(s[i].id < s[j].id);
    }
}

/// Sums of non-cancelled totals add over concatenation.
pub proof fn lemma_active_total_concat(a: Seq<Reservation>, b: Seq<Reservation>)
    ensures
        active_total(a + b) == active_total(a) + active_total(b),
    decreases b.len(),
{
    if b.len() == 0 {
        assert(a + b =~= a);
    } else {
        assert((a + b).drop_last() =~= a + b.drop_last());
        assert((a + b).last() == b.last());
        lemma_active_total_concat(a, b.drop_last());
    }
}

pub open spec fn all_confirmed_with_total(s: Seq<Reservation>, t: u64) -> bool {
    forall|i: int| 0 <= i < s.len() ==> s[i].status == ReservationStatus::Confirmed && s[i].total
        == t
}

pub proof fn lemma_uniform_batch_total(s: Seq<Reservation>, t: u64)
    requires
        all_confirmed_with_total(s, t),
    ensures
        active_total(s) == s.len() * t,
    decreases s.len(),
{
    if s.len() == 0 {
    } else {
        assert(s[s.len() - 1].total == t);
        assert(all_confirmed_with_total(s.drop_last(), t)) by {
            assert(forall|i: int| 0 <= i < s.len() - 1 ==> s.drop_last()[i] == s[i]);
        }
        lemma_uniform_batch_total(s.drop_last(), t);
        assert(s.len() * t == (s.len() - 1) * t + t) by (nonlinear_arith);
    }
}

/// A batch of reservations, each confirmed with total `t`, appended to a
/// history in any order contributes exactly `t` times the batch size to the
/// running total.
pub proof fn lemma_batch_append_total(before: Seq<Reservation>, batch: Seq<Reservation>, t: u64)
    requires
        all_confirmed_with_total(batch, t),
    ensures
        active_total(before + batch) == active_total(before) + batch.len() * t,
{
    lemma_active_total_concat(before, batch);
    lemma_uniform_batch_total(batch, t);
}

/// A per-user history of reservations with its running total.
pub struct UserHistory {
    entries: Vec<Reservation>,
    total_spent: u64,
    next_seq: u64,
}

impl UserHistory {
    /// All entries, oldest first.
    pub closed spec fn entries(self) -> Seq<Reservation> {
        self.entries@
    }

    /// The running total over non-cancelled entries, in cents.
    pub closed spec fn total(self) -> u64 {
        self.total_spent
    }

    /// The next id to hand out.
    pub closed spec fn counter(self) -> u64 {
        self.next_seq
    }

    /// Well-formedness: the running total equals the sum over non-cancelled
    /// entries, and ids are strictly increasing and below the counter.
    pub open spec fn wf(self) -> bool {
        &&& self.total() as int == active_total(self.entries())
        &&& ids_increasing(self.entries())
        &&& forall|i: int| 0 <= i < self.entries().len() ==> self.entries()[i].id < self.counter()
    }

    /// An empty history.
    pub fn new() -> (h: UserHistory)
        ensures
            h.wf(),
            h.entries() == Seq::<Reservation>::empty(),
            h.total() == 0,
            h.counter() == 0,
    {
        UserHistory { entries: Vec::new(), total_spent: 0, next_seq: 0 }
    }

    pub fn total_spent(&self) -> (t: u64)
        ensures
            t == self.total(),
    {
        self.total_spent
    }

    pub fn len(&self) -> (n: usize)
        ensures
            n == self.entries().len(),
    {
        self.entries.len()
    }

    /// The id the next append will hand out.
    pub fn next_id(&self) -> (n: u64)
        ensures
            n == self.counter(),
    {
        self.next_seq
    }

    pub fn get(&self, i: usize) -> (r: &Reservation)
        requires
            i < self.entries().len(),
        ensures
            *r == self.entries()[i as int],
    {
        &self.entries[i]
    }

    /// Append a reservation: stamp it with a fresh id and the given creation
    /// instant, mark it confirmed, push it, and add its total to the running
    /// total, all in one step.
    pub fn append(
        &mut self,
        kind: ReservationKind,
        name: String,
        total: u64,
        created_at_millis: u64,
        details: ReservationDetails,
    ) -> (id: u64)
        requires
            old(self).wf(),
            old(self).total() + total <= u64::MAX,
            old(self).counter() < u64::MAX,
        ensures
            final(self).wf(),
            id == old(self).counter(),
            final(self).entries() == old(self).entries().push(
                Reservation {
                    id,
                    kind,
                    name,
                    total,
                    created_at_millis,
                    status: ReservationStatus::Confirmed,
                    details,
                },
            ),
            final(self).total() == old(self).total() + total,
            final(self).counter() == old(self).counter() + 1,
    {
        let id = self.next_seq;
        let r = Reservation {
            id,
            kind,
            name,
            total,
            created_at_millis,
            status: ReservationStatus::Confirmed,
            details,
        };
        self.entries.push(r);
        self.total_spent = self.total_spent + total;
        self.next_seq = self.next_seq + 1;
        proof {
            assert(self.entries@.drop_last() =~= old(self).entries());
        }
        id
    }

    /// Cancel the reservation carrying `id`: its status becomes cancelled and
    /// its total leaves the running total, exactly once. Fails with
    /// `NotFound` when no entry carries the id, and with `AlreadyCancelled`
    /// when the entry is already cancelled; both failures leave the history
    /// unchanged.
    pub fn cancel(&mut self, id: u64) -> (r: Result<(), LedgerError>)
        requires
            old(self).wf(),
        ensures
            final(self).wf(),
            final(self).counter() == old(self).counter(),
            match r {
                Ok(()) => {
                    &&& has_id(old(self).entries(), id)
                    &&& old(self).entries()[idx_of(old(self).entries(), id)].status
                        == ReservationStatus::Confirmed
                    &&& final(self).entries() == cancel_model(old(self).entries(), id)
                    &&& final(self).total() == old(self).total() - old(self).entries()[idx_of(
                        old(self).entries(),
                        id,
                    )].total
                },
                Err(LedgerError::NotFound) => {
                    &&& !has_id(old(self).entries(), id)
                    &&& final(self).entries() == old(self).entries()
                    &&& final(self).total() == old(self).total()
                },
                Err(LedgerError::AlreadyCancelled) => {
                    &&& has_id(old(self).entries(), id)
                    &&& old(self).entries()[idx_of(old(self).entries(), id)].status
                        == ReservationStatus::Cancelled
                    &&& final(self).entries() == old(self).entries()
                    &&& final(self).total() == old(self).total()
                },
            },
    {
        let n = self.entries.len();
        let mut i: usize = 0;
        while i < n
            invariant
                i <= n,
                n == self.entries@.len(),
                old(self).wf(),
                self.entries@ == old(self).entries(),
                self.total_spent == old(self).total(),
                self.next_seq == old(self).counter(),
                forall|j: int| 0 <= j < i ==> self.entries@[j].id != id,
            decreases n - i,
        {
            if self.entries[i].id == id {
                proof {
                    lemma_idx_of_unique(self.entries@, id, i as int);
                }
                match self.entries[i].status {
                    ReservationStatus::Cancelled => {
                        return Err(LedgerError::AlreadyCancelled);
                    },
                    ReservationStatus::Confirmed => {
                        let removed = self.entries.remove(i);
                        let t = removed.total;
                        let updated = Reservation {
                            id: removed.id,
                            kind: removed.kind,
                            name: removed.name,
                            total: removed.total,
                            created_at_millis: removed.created_at_millis,
                            status: ReservationStatus::Cancelled,
                            details: removed.details,
                        };
                        self.entries.insert(i, updated);
                        proof {
                            let s0 = old(self).entries();
                            assert(self.entries@ =~= s0.update(i as int, cancelled(s0[i as int])));
                            lemma_active_total_update_cancel(s0, i as int);
                            lemma_active_total_entry(s0, i as int);
                            lemma_active_total_nonneg(s0.update(i as int, cancelled(s0[i as int])));
                            assert forall|p: int, q: int|
                                0 <= p < q < self.entries@.len() implies self.entries@[p].id
                                < self.entries@[q].id by {
                                assert(s0[p].id < s0[q].id);
                            }
                        }
                        self.total_spent = self.total_spent - t;
                        return Ok(());
                    },
                }
            }
            i += 1;
        }
        proof {
            assert(!has_id(self.entries@, id));
        }
        Err(LedgerError::NotFound)
    }

    /// Append a hotel reservation.
    pub fn append_hotel_reservation(
        &mut self,
        name: String,
        total: u64,
        checkin_date: Option<String>,
        checkout_date: Option<String>,
        addons: Option<Vec<String>>,
        now_millis: u64,
    ) -> (id: u64)
        requires
            old(self).wf(),
            old(self).total() + total <= u64::MAX,
            old(self).counter() < u64::MAX,
        ensures
            final(self).wf(),
            id == old(self).counter(),
            final(self).counter() == old(self).counter() + 1,
            final(self).total() == old(self).total() + total,
            final(self).entries() == old(self).entries().push(
                Reservation {
                    id,
                    kind: ReservationKind::Hotel,
                    name,
                    total,
                    created_at_millis: now_millis,
                    status: ReservationStatus::Confirmed,
                    details: ReservationDetails::Hotel { checkin_date, checkout_date, addons },
                },
            ),
    {
        self.append(
            ReservationKind::Hotel,
            name,
            total,
            now_millis,
            ReservationDetails::Hotel { checkin_date, checkout_date, addons },
        )
    }

    /// Append an experience reservation.
    pub fn append_experience_reservation(
        &mut self,
        name: String,
        total: u64,
        personas: u32,
        details: Option<String>,
        now_millis: u64,
    ) -> (id: u64)
        requires
            old(self).wf(),
            old(self).total() + total <= u64::MAX,
            old(self).counter() < u64::MAX,
        ensures
            final(self).wf(),
            id == old(self).counter(),
            final(self).counter() == old(self).counter() + 1,
            final(self).total() == old(self).total() + total,
            final(self).entries() == old(self).entries().push(
                Reservation {
                    id,
                    kind: ReservationKind::Experience,
                    name,
                    total,
                    created_at_millis: now_millis,
                    status: ReservationStatus::Confirmed,
                    details: ReservationDetails::Experience { personas, details },
                },
            ),
    {
        self.append(
            ReservationKind::Experience,
            name,
            total,
            now_millis,
            ReservationDetails::Experience { personas, details },
        )
    }

    /// Append a restaurant order.
    pub fn append_restaurant_order(
        &mut self,
        name: String,
        total: u64,
        items: Option<Vec<String>>,
        now_millis: u64,
    ) -> (id: u64)
        requires
            old(self).wf(),
            old(self).total() + total <= u64::MAX,
            old(self).counter() < u64::MAX,
        ensures
            final(self).wf(),
            id == old(self).counter(),
            final(self).counter() == old(self).counter() + 1,
            final(self).total() == old(self).total() + total,
            final(self).entries() == old(self).entries().push(
                Reservation {
                    id,
                    kind: ReservationKind::Restaurant,
                    name,
                    total,
                    created_at_millis: now_millis,
                    status: ReservationStatus::Confirmed,
                    details: ReservationDetails::Restaurant { items },
                },
            ),
    {
        self.append(
            ReservationKind::Restaurant,
            name,
            total,
            now_millis,
            ReservationDetails::Restaurant { items },
        )
    }
}

/// The induction step for a run of serialized appends: pushing one more
/// confirmed reservation of total `t` onto entries of the shape
/// `before + batch` keeps that shape, and keeps the batch uniform. Starting
/// from `batch == Seq::empty()` and applying this once per append, any number
/// of appends reaches the shape that `lemma_concurrent_appends` sums up.
pub proof fn lemma_append_extends_batch(
    before: Seq<Reservation>,
    batch: Seq<Reservation>,
    r: Reservation,
    t: u64,
)
    requires
        all_confirmed_with_total(batch, t),
        r.status == ReservationStatus::Confirmed,
        r.total == t,
    ensures
        (before + batch).push(r) == before + batch.push(r),
        all_confirmed_with_total(batch.push(r), t),
{
    assert((before + batch).push(r) =~= before + batch.push(r));
    assert forall|i: int| 0 <= i < batch.push(r).len() implies batch.push(r)[i].status
        == ReservationStatus::Confirmed && batch.push(r)[i].total == t by {
        if i < batch.len() {
            assert(batch.push(r)[i] == batch[i]);
        } else {
            assert(batch.push(r)[i] == r);
        }
    }
}

/// Serialized appends, in whatever order contending callers were granted the
/// user's lock, add up: if a well-formed history's entries are an older
/// history's entries followed by a batch of reservations each confirmed with
/// total `t`, its running total reads the old total plus `t` times the batch
/// size, and its ids are pairwise distinct.
pub proof fn lemma_concurrent_appends(
    h0: UserHistory,
    h1: UserHistory,
    batch: Seq<Reservation>,
    t: u64,
)
    requires
        h0.wf(),
        h1.wf(),
        h1.entries() == h0.entries() + batch,
        all_confirmed_with_total(batch, t),
    ensures
        h1.total() == h0.total() + batch.len() * t,
        forall|i: int, j: int|
            0 <= i < j < h1.entries().len() ==> h1.entries()[i].id != h1.entries()[j].id,
{
    lemma_batch_append_total(h0.entries(), batch, t);
}

/// Entries of a well-formed history carry pairwise distinct ids.
pub proof fn lemma_wf_ids_distinct(h: UserHistory)
    requires
        h.wf(),
    ensures
        forall|i: int, j: int|
            0 <= i < j < h.entries().len() ==> h.entries()[i].id != h.entries()[j].id,
{
}

/// Appending one confirmed reservation of total `t` to an empty history gives
/// a single entry and a total of exactly `t`; cancelling that entry brings
/// the total back to zero and marks the entry cancelled.
pub proof fn lemma_single_append_then_cancel(r: Reservation)
    requires
        r.status == ReservationStatus::Confirmed,
    ensures
        ({
            let s1 = Seq::<Reservation>::empty().push(r);
            &&& active_total(s1) == r.total
            &&& s1.len() == 1
            &&& has_id(s1, r.id)
            &&& cancel_model(s1, r.id).len() == 1
            &&& cancel_model(s1, r.id)[0].status == ReservationStatus::Cancelled
            &&& active_total(cancel_model(s1, r.id)) == 0
        }),
{
    let s1 = Seq::<Reservation>::empty().push(r);
    assert(s1.drop_last() =~= Seq::<Reservation>::empty());
    assert(active_total(Seq::<Reservation>::empty()) == 0);
    assert(s1[0] == r);
    assert(s1.last() == r);
    assert(active_total(s1) == r.total);
    lemma_idx_of_unique(s1, r.id, 0);
    assert(cancel_model(s1, r.id) == s1.update(0, cancelled(r)));
    lemma_active_total_update_cancel(s1, 0);
}

/// Cancelling is effective exactly once: after a cancel the entry reads
/// cancelled and the total has dropped by its total; any further cancel of
/// the same id finds a cancelled entry, which `cancel` answers with
/// `AlreadyCancelled` and no change.
pub proof fn lemma_cancel_once(s: Seq<Reservation>, id: u64)
    requires
        ids_increasing(s),
        has_id(s, id),
        s[idx_of(s, id)].status == ReservationStatus::Confirmed,
    ensures
        ({
            let s2 = cancel_model(s, id);
            &&& active_total(s2) == active_total(s) - s[idx_of(s, id)].total
            &&& has_id(s2, id)
            &&& idx_of(s2, id) == idx_of(s, id)
            &&& s2[idx_of(s2, id)].status == ReservationStatus::Cancelled
        }),
{
    let i = idx_of(s, id);
    assert(0 <= i < s.len() && s[i].id == id);
    lemma_active_total_update_cancel(s, i);
    let s2 = cancel_model(s, id);
    assert(ids_increasing(s2)) by {
        assert(forall|p: int| 0 <= p < s2.len() ==> s2[p].id == s[p].id);
    }
    lemma_idx_of_unique(s2, id, i);
}

} // verus!
