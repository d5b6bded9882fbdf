use vstd::prelude::*;

verus! {

/// `x`, or `u64::MAX` where `x` exceeds it.
pub open spec fn saturated(x: int) -> int {
    if x > u64::MAX {
        u64::MAX as int
    } else {
        x
    }
}

/// The weight of an extrinsic: its base weight plus the weights of its storage reads and
/// writes, saturated at `u64::MAX`.
pub open spec fn extrinsic_weight(base: u64, db: RuntimeDbWeight, reads: u64, writes: u64) -> int {
    saturated(base + db.read * reads + db.write * writes)
}

/// The weight of one storage read and of one storage write in the runtime's database.
#[derive(Clone, Copy, Debug, PartialEq, Eq)]
pub struct RuntimeDbWeight {
    pub read: u64,
    pub write: u64,
}

/// `x * y`, or `u64::MAX` where it would overflow.
fn saturating_mul(x: u64, y: u64) -> (r: u64)
    ensures
        r == saturated(x * y),
{
    match x.checked_mul(y) {
        Some(p) => p,
        None => u64::MAX,
    }
}

impl RuntimeDbWeight {
    /// The weight of `r` storage reads, saturated.
    pub fn reads(&self, r: u64) -> (w: u64)
        ensures
            w == saturated(self.read * r),
    {
        saturating_mul(self.read, r)
    }

    /// The weight of `w` storage writes, saturated.
    pub fn writes(&self, w: u64) -> (r: u64)
        ensures
            r == saturated(self.write * w),
    {
        saturating_mul(self.write, w)
    }
}

/// Adding saturated, non-negative terms one at a time gives the saturated total.
pub proof fn lemma_saturating_steps(base: u64, db: RuntimeDbWeight, reads: u64, writes: u64)
    ensures
        saturated(saturated(base + saturated(db.read * reads)) + saturated(db.write * writes))
            == extrinsic_weight(base, db, reads, writes),
{
    assert(db.read * reads >= 0) by (nonlinear_arith);
    assert(db.write * writes >= 0) by (nonlinear_arith);
}

/// The weight of `base` plus `reads` reads and `writes` writes, added as the weight
/// tables do: one saturating step at a time.
fn weigh(base: u64, db: &RuntimeDbWeight, reads: u64, writes: u64) -> (r: u64)
    ensures
        r == extrinsic_weight(base, *db, reads, writes),
{
    proof {
        lemma_saturating_steps(base, *db, reads, writes);
    }
    base.saturating_add(db.reads(reads)).saturating_add(db.writes(writes))
}

/// The weights of the lightening-redeem pallet's extrinsics, measured on a runtime whose
/// database costs `db_weight`.
pub struct WeightInfo {
    pub db_weight: RuntimeDbWeight,
}

impl WeightInfo {
    /// Three reads and three writes over a base of 89 467 000.
    pub fn add_ksm_to_pool(&self) -> (r: u64)
        ensures
            r == extrinsic_weight(89_467_000, self.db_weight, 3, 3),
    {
        weigh(89_467_000, &self.db_weight, 3, 3)
    }

    /// Nine reads and eight writes over a base of 189 565 000.
    pub fn exchange_for_ksm(&self) -> (r: u64)
        ensures
            r == extrinsic_weight(189_565_000, self.db_weight, 9, 8),
    {
        weigh(189_565_000, &self.db_weight, 9, 8)
    }

    /// One read and one write over a base of 25 427 000.
    pub fn edit_exchange_price(&self) -> (r: u64)
        ensures
            r == extrinsic_weight(25_427_000, self.db_weight, 1, 1),
    {
        weigh(25_427_000, &self.db_weight, 1, 1)
    }

    /// One read and one write over a base of 25 718 000.
    pub fn edit_release_per_day(&self) -> (r: u64)
        ensures
            r == extrinsic_weight(25_718_000, self.db_weight, 1, 1),
    {
        weigh(25_718_000, &self.db_weight, 1, 1)
    }

    /// One read and one write over a base of 25 608 000.
    pub fn edit_release_start_and_end_block(&self) -> (r: u64)
        ensures
            r == extrinsic_weight(25_608_000, self.db_weight, 1, 1),
    {
        weigh(25_608_000, &self.db_weight, 1, 1)
    }

    /// One read over a base of 5 009 000.
    pub fn on_initialize(&self) -> (r: u64)
        ensures
            r == extrinsic_weight(5_009_000, self.db_weight, 1, 0),
    {
        proof {
            lemma_saturating_steps(5_009_000, self.db_weight, 1, 0);
        }
        5_009_000u64.saturating_add(self.db_weight.reads(1))
    }
}

} // verus!
