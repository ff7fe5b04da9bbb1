use vstd::prelude::*;

verus! {

/// Largest value the bucket's budget accounting works with. Keeping the
/// capacity and the outstanding debt at or below this bound keeps the signed
/// balance inside `i64` at every step.
pub const MAX_BUDGET: u64 = 0x7fff_ffff_ffff_ffff;

/// A deterministic token bucket over an abstract integer clock.
///
/// Budget accrues at `rate` bytes per tick up to `capacity`; a consumption of
/// `n` bytes is charged immediately and may drive the balance negative, in
/// which case it counts as unresolved debt until refills bring the balance
/// back to zero. All duplicated handles of one limiter are modelled as shared
/// access to a single `Bucket` value, so the accounting below bounds the
/// *combined* bytes admitted through every stream drawing from it.
pub struct Bucket {
    /// Bytes of budget gained per clock tick.
    pub rate: u64,
    /// Cap on stored budget.
    pub capacity: u64,
    /// Stored budget; negative while charged consumptions await refills.
    pub balance: i64,
    /// Clock ticks observed since creation.
    pub elapsed: u64,
    /// Total bytes ever consumed from the bucket.
    pub consumed: u64,
    /// Bytes of consumptions charged but not yet observed as resolved by the
    /// stream that scheduled them.
    pub outstanding: u64,
}

impl Bucket {
    /// The accounting invariant. The last clause is the heart of the
    /// throughput bound: everything consumed so far is covered by the initial
    /// budget plus the budget accrued over elapsed time, less whatever budget
    /// is still stored.
    pub open spec fn wf(self) -> bool {
        &&& 1 <= self.rate
        &&& self.capacity <= MAX_BUDGET
        &&& self.outstanding <= MAX_BUDGET
        &&& -(self.outstanding as int) <= self.balance as int
        &&& self.balance as int <= self.capacity as int
        &&& self.consumed as int + self.balance as int
            <= self.capacity as int + self.rate as int * self.elapsed as int
    }

    /// A fresh bucket starts full, with no history.
    pub fn new(rate: u64, capacity: u64) -> (b: Bucket)
        requires
            1 <= rate,
            capacity <= MAX_BUDGET,
        ensures
            b.wf(),
            b.rate == rate,
            b.capacity == capacity,
            b.balance == capacity,
            b.elapsed == 0,
            b.consumed == 0,
            b.outstanding == 0,
    {
        Bucket { rate, capacity, balance: capacity as i64, elapsed: 0, consumed: 0, outstanding: 0 }
    }

    /// Advance the clock by `dt` ticks: budget accrues at `rate` per tick and
    /// is capped at `capacity`.
    pub fn refill(&mut self, dt: u64)
        requires
            old(self).wf(),
            old(self).elapsed + dt <= u64::MAX,
        ensures
            final(self).wf(),
            final(self).rate == old(self).rate,
            final(self).capacity == old(self).capacity,
            final(self).consumed == old(self).consumed,
            final(self).outstanding == old(self).outstanding,
            final(self).elapsed == old(self).elapsed + dt,
            final(self).balance as int == if old(self).balance as int + old(self).rate as int * dt as int
                >= old(self).capacity as int
            {
                old(self).capacity as int
            } else {
                old(self).balance as int + old(self).rate as int * dt as int
            },
    {
        proof {
            assert((self.rate as int) * (dt as int) <= 0xffff_ffff_ffff_ffff * 0xffff_ffff_ffff_ffff)
                by (nonlinear_arith)
                requires self.rate <= 0xffff_ffff_ffff_ffff && dt <= 0xffff_ffff_ffff_ffff,
            ;
            assert((self.rate as int) * ((self.elapsed as int) + (dt as int))
                == (self.rate as int) * (self.elapsed as int) + (self.rate as int) * (dt as int))
                by (nonlinear_arith);
            assert((self.rate as int) * (dt as int) >= 0) by (nonlinear_arith)
                requires self.rate >= 0 && dt >= 0,
            ;
        }
        let gain128: u128 = (self.rate as u128) * (dt as u128);
        let cap128: i128 = self.capacity as i128;
        let target: i128 = if gain128 >= (u64::MAX as u128) {
            // a gain this large always reaches the cap: the balance is never
            // below -MAX_BUDGET and the cap never above MAX_BUDGET
            cap128
        } else {
            (self.balance as i128) + (gain128 as i128)
        };
        if target >= cap128 {
            self.balance = self.capacity as i64;
        } else {
            self.balance = target as i64;
        }
        self.elapsed = self.elapsed + dt;
    }

    /// Debit `n` bytes. The charge is immediate and may drive the balance
    /// negative; the resulting debt is repaid by later refills. The caller
    /// records the same `n` as outstanding until it observes resolution.
    pub fn consume(&mut self, n: u64)
        requires
            old(self).wf(),
            old(self).outstanding + n <= MAX_BUDGET,
            old(self).consumed + n <= u64::MAX,
        ensures
            final(self).wf(),
            final(self).rate == old(self).rate,
            final(self).capacity == old(self).capacity,
            final(self).elapsed == old(self).elapsed,
            final(self).balance as int == old(self).balance as int - n as int,
            final(self).consumed == old(self).consumed + n,
            final(self).outstanding == old(self).outstanding + n,
    {
        self.balance = self.balance - (n as i64);
        self.consumed = self.consumed + n;
        self.outstanding = self.outstanding + n;
    }

    /// Retire `p` bytes of outstanding debt: called when the consumer that
    /// charged those bytes observes that the balance is non-negative again.
    pub fn settle(&mut self, p: u64)
        requires
            old(self).wf(),
            old(self).balance >= 0,
            p <= old(self).outstanding,
        ensures
            final(self).wf(),
            final(self).rate == old(self).rate,
            final(self).capacity == old(self).capacity,
            final(self).elapsed == old(self).elapsed,
            final(self).balance == old(self).balance,
            final(self).consumed == old(self).consumed,
            final(self).outstanding == old(self).outstanding - p,
    {
        self.outstanding = self.outstanding - p;
    }

    /// Whether a previously charged consumption has resolved: the bucket is
    /// out of debt.
    pub fn has_budget(&self) -> (r: bool)
        ensures
            r == (self.balance >= 0),
    {
        self.balance >= 0
    }

    /// Throughput bound: whatever sequence of refills and consumptions led to
    /// this state, the bytes admitted through the bucket never exceed the
    /// initial budget plus the budget accrued over the elapsed time, plus the
    /// debt still in flight. With one stream the in-flight debt is at most one
    /// write's size; with several streams sharing the bucket it is at most one
    /// write's size per stream — the rate term is never multiplied.
    pub proof fn lemma_throughput_bound(self)
        requires
            self.wf(),
        ensures
            self.consumed as int
                <= self.capacity as int + self.rate as int * self.elapsed as int
                    + self.outstanding as int,
    {
    }
}

} // verus!
