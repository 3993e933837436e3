//! The counter store: one unsigned total behind a "get current total" /
//! "add a delta" protocol, with two backends.
//!
//! The local backend lives here as [`LocalStore`]: an in-process value whose
//! `add` has fetch-and-add semantics, so increments are never lost.
//!
//! The durable backend keeps the total in a remote record as a decimal
//! string. The transport lives outside this crate; here stand the verified
//! pieces of its protocol — decoding a fetched record, computing the value an
//! add writes back — and a model of its read-modify-write update, whose
//! weak behaviour under concurrency is stated and proved below.

use crate::num::dec_digits;
use crate::num::lemma_dec_roundtrip;
use crate::num::parse_u32;
use crate::num::parse_u32_spec;
use crate::num::u32_to_dec;
use vstd::prelude::*;
use vstd::seq_lib::commutative_foldr;
use vstd::seq_lib::lemma_fold_right_permutation;

verus! {

/// Why a store operation failed. Validation failures are not store errors:
/// they never reach the store.
#[derive(Clone, Copy, Debug, PartialEq, Eq, Structural)]
pub enum StoreError {
    /// The durable medium could not be reached or answered with a failure.
    Transport,
    /// The durable record that should hold the total is absent.
    RecordMissing,
    /// The record is there but its value attribute is absent or malformed.
    AttributeMissing,
    /// The stored value does not parse as an unsigned 32-bit decimal.
    NotNumeric,
    /// The requested add would push the total past the greatest storable value.
    Overflow,
}

/// `t + d` wrapped to the width of the counter word, the result a
/// fetch-and-add primitive leaves behind.
pub open spec fn add_wrapped(t: u32, d: u32) -> u32 {
    ((t + d) % 0x1_0000_0000) as u32
}

/// The in-process counter backend: a single shared unsigned integer, mutated
/// only through fetch-and-add. `get_total` and `add` never fail.
pub struct LocalStore {
    /// The running total.
    pub total: u32,
}

impl LocalStore {
    /// A fresh counter, seeded from a configured base value when one is
    /// given, and starting at zero otherwise.
    pub fn new(seed: Option<u32>) -> (r: LocalStore)
        ensures
            r.total == (match seed {
                Some(b) => b,
                None => 0u32,
            }),
    {
        LocalStore {
            total: match seed {
                Some(b) => b,
                None => 0,
            },
        }
    }

    /// The current total. Never mutates state.
    pub fn get_total(&self) -> (r: u32)
        ensures
            r == self.total,
    {
        self.total
    }

    /// Increases the counter by `delta` and returns the new total, with
    /// fetch-and-add semantics: within the counter's domain the new total is
    /// exactly the old one plus `delta`, and a zero delta behaves as
    /// `get_total`.
    pub fn add(&mut self, delta: u32) -> (r: u32)
        ensures
            final(self).total == add_wrapped(old(self).total, delta),
            r == final(self).total,
            old(self).total + delta <= u32::MAX ==> final(self).total == old(self).total + delta,
            delta == 0 ==> final(self).total == old(self).total,
    {
        proof {
            assert(add_wrapped(self.total, delta) == ((self.total + delta) % 0x1_0000_0000) as u32);
        }
        self.total = self.total.wrapping_add(delta);
        self.total
    }
}

/// What decoding a fetched durable record yields. The outer option is the
/// record, the inner one its value attribute.
pub open spec fn decode_total_spec(item: Option<Option<Seq<u8>>>) -> Result<u32, StoreError> {
    match item {
        None => Err(StoreError::RecordMissing),
        Some(None) => Err(StoreError::AttributeMissing),
        Some(Some(b)) => match parse_u32_spec(b) {
            Some(n) => Ok(n),
            None => Err(StoreError::NotNumeric),
        },
    }
}

/// Decodes a fetched durable record into the current total: the record must
/// be present, carry its value attribute, and that attribute must be the
/// decimal text of an unsigned 32-bit integer. Each way this can fail is a
/// named error, never an abort.
pub fn decode_total(item: Option<Option<Vec<u8>>>) -> (r: Result<u32, StoreError>)
    ensures
        r == decode_total_spec(
            match item {
                None => None,
                Some(None) => Some(None),
                Some(Some(b)) => Some(Some(b@)),
            },
        ),
{
    match item {
        None => Err(StoreError::RecordMissing),
        Some(None) => Err(StoreError::AttributeMissing),
        Some(Some(b)) => match parse_u32(b.as_slice()) {
            Some(n) => Ok(n),
            None => Err(StoreError::NotNumeric),
        },
    }
}

/// Computes the attribute value a durable add writes back: the decimal text
/// of `current + delta`. The durable add is a read-modify-write — it reads
/// the current total, computes the sum locally, and writes the sum back —
/// not an atomic increment. A sum past the counter's domain is a named
/// error, never an abort.
pub fn durable_write_value(current: u32, delta: u32) -> (r: Result<Vec<u8>, StoreError>)
    ensures
        current + delta <= u32::MAX ==> (r matches Ok(v) && v@ == dec_digits(current + delta)),
        current + delta > u32::MAX ==> r == Err::<Vec<u8>, StoreError>(StoreError::Overflow),
{
    match current.checked_add(delta) {
        Some(t) => Ok(u32_to_dec(t)),
        None => Err(StoreError::Overflow),
    }
}

/// The value a durable add writes back, read again, is exactly the total the
/// add computed: the write-then-confirm step of the protocol is lossless.
pub proof fn lemma_durable_confirmation(t: int)
    requires
        0 <= t <= u32::MAX,
    ensures
        decode_total_spec(Some(Some(dec_digits(t)))) == Ok::<u32, StoreError>(t as u32),
{
    lemma_dec_roundtrip(t);
}

/// The sum of a batch of deltas.
pub open spec fn sum_deltas(deltas: Seq<u32>) -> int
    decreases deltas.len(),
{
    if deltas.len() == 0 {
        0
    } else {
        sum_deltas(deltas.drop_last()) + deltas.last()
    }
}

/// The summing step, for folds over a batch of deltas.
spec fn sum_step() -> spec_fn(u32, int) -> int {
    |d: u32, acc: int| acc + d
}

/// A sum of deltas is never negative.
pub proof fn lemma_sum_deltas_nonneg(deltas: Seq<u32>)
    ensures
        sum_deltas(deltas) >= 0,
    decreases deltas.len(),
{
    if deltas.len() > 0 {
        lemma_sum_deltas_nonneg(deltas.drop_last());
    }
}

/// The recursive sum agrees with folding the summing step.
proof fn lemma_sum_deltas_is_fold(deltas: Seq<u32>)
    ensures
        sum_deltas(deltas) == deltas.fold_right(sum_step(), 0),
    decreases deltas.len(),
{
    let f = sum_step();
    if deltas.len() > 0 {
        lemma_sum_deltas_is_fold(deltas.drop_last());
        assert(commutative_foldr(f));
        deltas.drop_last().lemma_fold_right_commute_one(deltas.last(), f, 0);
    }
}

/// Two batches holding the same deltas have the same sum, in whatever order
/// the deltas come.
pub proof fn lemma_sum_deltas_permutation(d1: Seq<u32>, d2: Seq<u32>)
    requires
        d1.to_multiset() == d2.to_multiset(),
    ensures
        sum_deltas(d1) == sum_deltas(d2),
{
    let f = sum_step();
    assert(commutative_foldr(f));
    lemma_sum_deltas_is_fold(d1);
    lemma_sum_deltas_is_fold(d2);
    lemma_fold_right_permutation(d1, d2, f, 0);
}

/// The total after a batch of local adds lands, one after the other.
pub open spec fn local_total_after(t0: u32, deltas: Seq<u32>) -> u32
    decreases deltas.len(),
{
    if deltas.len() == 0 {
        t0
    } else {
        add_wrapped(local_total_after(t0, deltas.drop_last()), deltas.last())
    }
}

/// Local Store adds are exact: a batch of adds with deltas `deltas` starting
/// from total `t0` always yields a final total of exactly `t0` plus the sum
/// of the deltas, as long as that sum stays in the counter's domain.
pub proof fn lemma_local_adds_exact(t0: u32, deltas: Seq<u32>)
    requires
        t0 + sum_deltas(deltas) <= u32::MAX,
    ensures
        local_total_after(t0, deltas) == t0 + sum_deltas(deltas),
    decreases deltas.len(),
{
    if deltas.len() > 0 {
        lemma_sum_deltas_nonneg(deltas.drop_last());
        lemma_local_adds_exact(t0, deltas.drop_last());
    }
}

/// Local Store adds are linearizable: concurrent adds land in some total
/// order, and whatever that order is, the final total is the same — lost
/// updates cannot happen.
pub proof fn lemma_local_adds_order_independent(t0: u32, d1: Seq<u32>, d2: Seq<u32>)
    requires
        d1.to_multiset() == d2.to_multiset(),
        t0 + sum_deltas(d1) <= u32::MAX,
    ensures
        local_total_after(t0, d1) == local_total_after(t0, d2),
{
    lemma_sum_deltas_permutation(d1, d2);
    lemma_local_adds_exact(t0, d1);
    lemma_local_adds_exact(t0, d2);
}

/// One read-modify-write step of the durable add protocol: the total it read,
/// and the delta it adds. The value it writes back is `base + delta`.
pub struct RmwAdd {
    /// The total this add read before computing its write.
    pub base: u32,
    /// The delta this add wants to apply.
    pub delta: u32,
}

/// The value one read-modify-write add writes back.
pub open spec fn rmw_write(op: RmwAdd) -> int {
    op.base + op.delta
}

/// The total after a history of durable adds, in write order: the last value
/// written, or the initial total when nothing was written.
pub open spec fn rmw_total(t0: u32, ops: Seq<RmwAdd>) -> int {
    if ops.len() == 0 {
        t0 as int
    } else {
        rmw_write(ops.last())
    }
}

/// The read of step `i` saw a value that was really in the record: the
/// initial total, or the write of some earlier step.
pub open spec fn rmw_base_valid(t0: u32, ops: Seq<RmwAdd>, i: int) -> bool {
    ops[i].base == t0 || exists|j: int| 0 <= j < i && ops[i].base == rmw_write(#[trigger] ops[j])
}

/// Every read of the history saw a value that was really in the record. This
/// is all the durable backend guarantees under concurrency: overlapping adds
/// may read the same base and overwrite each other.
pub open spec fn rmw_bases_valid(t0: u32, ops: Seq<RmwAdd>) -> bool {
    forall|i: int| 0 <= i < ops.len() ==> #[trigger] rmw_base_valid(t0, ops, i)
}

/// The adds did not overlap: each read saw exactly the total left by the
/// step before it.
pub open spec fn rmw_sequential(t0: u32, ops: Seq<RmwAdd>) -> bool {
    forall|i: int| 0 <= i < ops.len() ==> (#[trigger] ops[i]).base == rmw_total(t0, ops.take(i))
}

/// The sum of the deltas of a history of durable adds.
pub open spec fn rmw_sum(ops: Seq<RmwAdd>) -> int
    decreases ops.len(),
{
    if ops.len() == 0 {
        0
    } else {
        rmw_sum(ops.drop_last()) + ops.last().delta
    }
}

proof fn lemma_rmw_sum_nonneg(ops: Seq<RmwAdd>)
    ensures
        rmw_sum(ops) >= 0,
    decreases ops.len(),
{
    if ops.len() > 0 {
        lemma_rmw_sum_nonneg(ops.drop_last());
    }
}

proof fn lemma_rmw_sum_prefix(ops: Seq<RmwAdd>, i: int)
    requires
        0 <= i <= ops.len(),
    ensures
        rmw_sum(ops.take(i)) <= rmw_sum(ops),
    decreases ops.len() - i,
{
    if i == ops.len() {
        assert(ops.take(i) =~= ops);
    } else {
        assert(ops.take(i + 1).drop_last() =~= ops.take(i));
        assert(ops.take(i + 1).last() == ops[i]);
        lemma_rmw_sum_prefix(ops, i + 1);
    }
}

/// Sequential durable adds are exact: when no adds overlap, the final total
/// is exactly the initial one plus the sum of the deltas.
pub proof fn lemma_durable_sequential_exact(t0: u32, ops: Seq<RmwAdd>)
    requires
        rmw_sequential(t0, ops),
    ensures
        rmw_total(t0, ops) == t0 + rmw_sum(ops),
    decreases ops.len(),
{
    if ops.len() > 0 {
        let prefix = ops.drop_last();
        assert forall|i: int| 0 <= i < prefix.len() implies (#[trigger] prefix[i]).base
            == rmw_total(t0, prefix.take(i)) by {
            assert(prefix[i] == ops[i]);
            assert(prefix.take(i) =~= ops.take(i));
        }
        lemma_durable_sequential_exact(t0, prefix);
        assert(ops.take(ops.len() - 1) =~= prefix);
        assert(ops.last().base == rmw_total(t0, prefix));
    }
}

proof fn lemma_rmw_write_bound(t0: u32, ops: Seq<RmwAdd>, i: int)
    requires
        rmw_bases_valid(t0, ops),
        0 <= i < ops.len(),
    ensures
        rmw_write(ops[i]) <= t0 + rmw_sum(ops.take(i + 1)),
    decreases i,
{
    assert(ops.take(i + 1).drop_last() =~= ops.take(i));
    assert(ops.take(i + 1).last() == ops[i]);
    assert(rmw_base_valid(t0, ops, i));
    if ops[i].base == t0 {
        lemma_rmw_sum_nonneg(ops.take(i));
    } else {
        let j = choose|j: int| 0 <= j < i && ops[i].base == rmw_write(#[trigger] ops[j]);
        lemma_rmw_write_bound(t0, ops, j);
        lemma_rmw_sum_prefix(ops.take(i), j + 1);
        assert(ops.take(i).take(j + 1) =~= ops.take(j + 1));
        lemma_rmw_sum_nonneg(ops.take(i));
    }
}

/// Durable adds under concurrency never over-count: whatever the
/// interleaving, the final total is at most the initial one plus the sum of
/// all requested deltas. (It may be less: overlapping adds lose updates.)
pub proof fn lemma_durable_concurrent_at_most(t0: u32, ops: Seq<RmwAdd>)
    requires
        rmw_bases_valid(t0, ops),
    ensures
        rmw_total(t0, ops) <= t0 + rmw_sum(ops),
{
    if ops.len() > 0 {
        lemma_rmw_write_bound(t0, ops, ops.len() - 1);
        assert(ops.take(ops.len() as int) =~= ops);
    }
}

/// The final total never falls below the last write that landed: it is at
/// least the delta of that write.
pub proof fn lemma_durable_total_at_least_last_delta(t0: u32, ops: Seq<RmwAdd>)
    requires
        ops.len() > 0,
    ensures
        rmw_total(t0, ops) >= ops.last().delta,
{
}

} // verus!
