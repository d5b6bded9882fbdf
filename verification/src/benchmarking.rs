use vstd::prelude::*;

use crate::dispatch::{DispatchError, RawOrigin};

verus! {

/// Reasons for moving funds out of an account, as bit flags.
#[derive(Clone, Copy, Debug, PartialEq, Eq)]
pub struct WithdrawReasons {
    pub bits: u8,
}

impl WithdrawReasons {
    /// In order to transfer ownership.
    pub fn transfer() -> (r: WithdrawReasons)
        ensures
            r.bits == 0b0000_0010,
    {
        WithdrawReasons { bits: 0b0000_0010 }
    }

    /// In order to reserve some funds for a later return or repatriation.
    pub fn reserve() -> (r: WithdrawReasons)
        ensures
            r.bits == 0b0000_0100,
    {
        WithdrawReasons { bits: 0b0000_0100 }
    }

    /// The reasons in either set.
    pub fn union(&self, other: &WithdrawReasons) -> (r: WithdrawReasons)
        ensures
            r.bits == self.bits | other.bits,
    {
        WithdrawReasons { bits: self.bits | other.bits }
    }
}

/// A lock that the vesting benchmarks put on an account before they run.
#[derive(Clone, Copy, Debug, PartialEq, Eq)]
pub struct Lock {
    pub id: [u8; 8],
    pub amount: u128,
    pub reasons: WithdrawReasons,
}

/// The amount that each benchmark lock holds.
pub const LOCKED: u128 = 100;

/// Whether `lock` is the `i`-th benchmark lock: its identifier is eight bytes of `i`, it
/// holds 100 and it stops transfers and reserves.
pub open spec fn is_benchmark_lock(lock: Lock, i: u8) -> bool {
    &&& lock.id@ == Seq::new(8, |j: int| i)
    &&& lock.amount == 100
    &&& lock.reasons.bits == 0b0000_0110
}

/// The identifier made of eight bytes of `id`.
fn lock_identifier(id: u8) -> (r: [u8; 8])
    ensures
        r@ == Seq::new(8, |j: int| id),
{
    let r = [id; 8];
    assert(r@ =~= Seq::new(8, |j: int| id));
    r
}

/// The locks that the benchmarks put on an account, one for each identifier below `n`,
/// in increasing order.
pub fn benchmark_locks(n: u8) -> (r: Vec<Lock>)
    ensures
        r@.len() == n,
        forall|i: int| 0 <= i < n ==> is_benchmark_lock(#[trigger] r@[i], i as u8),
        forall|i: int| 0 <= i < n ==> (#[trigger] r@[i]).id@ == Seq::new(8, |j: int| i as u8),
        forall|i: int, k: int| 0 <= i < n && 0 <= k < n && i != k ==> (#[trigger] r@[i]).id@
            != (#[trigger] r@[k]).id@,
{
    let reasons = WithdrawReasons::transfer().union(&WithdrawReasons::reserve());
    assert(0b0000_0010u8 | 0b0000_0100u8 == 0b0000_0110u8) by (bit_vector);
    let mut locks: Vec<Lock> = Vec::new();
    let mut id: u8 = 0;
    while id < n
        invariant
            id <= n,
            reasons.bits == 0b0000_0110,
            locks@.len() == id,
            forall|i: int| 0 <= i < id ==> is_benchmark_lock(#[trigger] locks@[i], i as u8),
        decreases n - id,
    {
        locks.push(Lock { id: lock_identifier(id), amount: LOCKED, reasons });
        id = id + 1;
    }
    proof {
        lemma_benchmark_lock_ids(locks@, n);
    }
    locks
}

/// The benchmark locks are told apart by their identifiers: the `i`-th one is named by
/// eight bytes of `i`, so no two of the first `n` share an identifier and none replaces
/// another.
pub proof fn lemma_benchmark_lock_ids(locks: Seq<Lock>, n: u8)
    requires
        locks.len() == n,
        forall|i: int| 0 <= i < n ==> is_benchmark_lock(#[trigger] locks[i], i as u8),
    ensures
        forall|i: int| 0 <= i < n ==> (#[trigger] locks[i]).id@ == Seq::new(8, |j: int| i as u8),
        forall|i: int, k: int| 0 <= i < n && 0 <= k < n && i != k ==> (#[trigger] locks[i]).id@
            != (#[trigger] locks[k]).id@,
        forall|i: int| 0 <= i < n ==> (#[trigger] locks[i]).amount == 100 && locks[i].reasons.bits
            == 0b0000_0110,
{
    assert forall|i: int, k: int| 0 <= i < n && 0 <= k < n && i != k implies (
    #[trigger] locks[i]).id@ != (#[trigger] locks[k]).id@ by {
        assert(locks[i].id@[0] == i as u8);
        assert(locks[k].id@[0] == k as u8);
    }
}

/// The history of the locks that a currency has been asked to set, oldest first, each
/// with its account.
pub type LockHistory<A> = Seq<(A, Lock)>;

/// A currency whose balances can be locked; the runtime implements it. `lock_calls` is
/// the history of the locks it has been asked to set, each with the account it is on.
pub trait LockableCurrency<A> {
    /// The locks set so far, oldest first, each with its account.
    spec fn lock_calls(&self) -> Seq<(A, Lock)>;

    /// Puts the lock `id` on `amount` of the balance of `who`, for `reasons`, replacing any
    /// lock with the same identifier.
    fn set_lock(&mut self, id: [u8; 8], who: &A, amount: u128, reasons: WithdrawReasons)
        ensures
            final(self).lock_calls() == old(self).lock_calls().push(
                (*who, Lock { id, amount, reasons }),
            ),
    ;
}

/// Puts the benchmark locks with identifiers below `n` on the account `who`, in
/// increasing order of identifier.
pub fn add_locks<A, C: LockableCurrency<A>>(currency: &mut C, who: &A, n: u8)
    ensures
        final(currency).lock_calls().len() == old(currency).lock_calls().len() + n,
        final(currency).lock_calls().subrange(0, old(currency).lock_calls().len() as int)
            == old(currency).lock_calls(),
        forall|i: int|
            0 <= i < n ==> {
                let set = #[trigger] final(currency).lock_calls().subrange(
                    old(currency).lock_calls().len() as int,
                    final(currency).lock_calls().len() as int,
                )[i];
                set.0 == *who && is_benchmark_lock(set.1, i as u8)
            },
        forall|i: int|
            0 <= i < n ==> (#[trigger] final(currency).lock_calls().subrange(
                old(currency).lock_calls().len() as int,
                final(currency).lock_calls().len() as int,
            )[i]).1.id@ == Seq::new(8, |j: int| i as u8),
{
    let ghost before = currency.lock_calls();
    let locks = benchmark_locks(n);
    let mut i: usize = 0;
    while i < locks.len()
        invariant
            i <= locks@.len(),
            locks@.len() == n,
            forall|j: int| 0 <= j < n ==> is_benchmark_lock(#[trigger] locks@[j], j as u8),
            currency.lock_calls().len() == before.len() + i,
            currency.lock_calls().subrange(0, before.len() as int) == before,
            forall|j: int|
                0 <= j < i ==> currency.lock_calls().subrange(
                    before.len() as int,
                    currency.lock_calls().len() as int,
                )[j] == (*who, #[trigger] locks@[j]),
        decreases locks.len() - i,
    {
        let lock = locks[i];
        let ghost prior = currency.lock_calls();
        currency.set_lock(lock.id, who, lock.amount, lock.reasons);
        proof {
            let now = currency.lock_calls();
            assert(now.subrange(0, before.len() as int) =~= before) by {
                assert(forall|k: int| 0 <= k < before.len() ==> now[k] == prior[k]);
                assert(forall|k: int|
                    0 <= k < before.len() ==> prior.subrange(0, before.len() as int)[k] == prior[k]);
            }
            assert forall|j: int| 0 <= j < i + 1 implies now.subrange(
                before.len() as int,
                now.len() as int,
            )[j] == (*who, #[trigger] locks@[j]) by {
                if j < i {
                    assert(prior.subrange(before.len() as int, prior.len() as int)[j]
                        == prior[before.len() + j]);
                } else {
                    assert(lock == (Lock { id: lock.id, amount: lock.amount, reasons: lock.reasons }));
                }
            }
        }
        i = i + 1;
    }
    assert forall|j: int| 0 <= j < n implies {
        let set = #[trigger] currency.lock_calls().subrange(
            before.len() as int,
            currency.lock_calls().len() as int,
        )[j];
        set.0 == *who && is_benchmark_lock(set.1, j as u8)
    } by {
        assert(is_benchmark_lock(locks@[j], j as u8));
        assert((locks@[j]).id@ == Seq::new(8, |k: int| j as u8));
    }
}

/// A vesting schedule: `locked` is released `per_block` from `starting_block` on.
#[derive(Clone, Copy, Debug, PartialEq, Eq)]
pub struct VestingInfo {
    pub locked: u128,
    pub per_block: u128,
    pub starting_block: u32,
}

/// The schedule that the vesting benchmarks give an account.
pub fn benchmark_schedule() -> (r: VestingInfo)
    ensures
        r == (VestingInfo { locked: 100, per_block: 10, starting_block: 1 }),
{
    VestingInfo { locked: 100, per_block: 10, starting_block: 1 }
}

/// A request that the vesting benchmarks made of the chain, with the chain's answer.
pub enum VestingCall<A> {
    SetBlockNumber(u32),
    InitVestingStartAt { origin: RawOrigin<A>, start: u32, result: Result<(), DispatchError> },
    AddVestingSchedule { who: A, schedule: VestingInfo, result: Result<(), DispatchError> },
}

/// The history of the requests that the chain has received from the vesting benchmarks,
/// oldest first.
pub type VestingHistory<A> = Seq<VestingCall<A>>;

/// What the vesting benchmarks need of the chain; the benchmarked runtime implements it.
/// `vesting_calls` is the history of the requests it has received, each with its answer.
pub trait VestingBenchmarks<A> {
    /// The requests received so far, oldest first.
    spec fn vesting_calls(&self) -> Seq<VestingCall<A>>;

    /// Sets the current block number.
    fn set_block_number(&mut self, n: u32)
        ensures
            final(self).vesting_calls() == old(self).vesting_calls().push(
                VestingCall::SetBlockNumber(n),
            ),
    ;

    /// Starts vesting at block `start`; dispatched with the given origin.
    fn init_vesting_start_at(&mut self, origin: RawOrigin<A>, start: u32) -> (r: Result<
        (),
        DispatchError,
    >)
        ensures
            final(self).vesting_calls() == old(self).vesting_calls().push(
                VestingCall::InitVestingStartAt { origin, start, result: r },
            ),
    ;

    /// Gives `who` the vesting schedule `schedule`.
    fn add_vesting_schedule(&mut self, who: &A, schedule: VestingInfo) -> (r: Result<
        (),
        DispatchError,
    >)
        ensures
            final(self).vesting_calls() == old(self).vesting_calls().push(
                VestingCall::AddVestingSchedule { who: *who, schedule, result: r },
            ),
    ;
}

/// Whether `steps` are the requests that the vesting setup makes for `who`, in order, and
/// `r` its result: the block number set to 0, then vesting started at block 0 as root,
/// and, where that succeeds, the benchmark schedule given to `who`. The first failure is
/// the result, and nothing before it is undone.
pub open spec fn vesting_setup_steps<A>(who: A, steps: Seq<VestingCall<A>>, r: Result<
    (),
    DispatchError,
>) -> bool {
    &&& steps.len() >= 2
    &&& steps[0] == VestingCall::<A>::SetBlockNumber(0)
    &&& match steps[1] {
        VestingCall::InitVestingStartAt { origin, start, result } => {
            &&& origin == RawOrigin::<A>::Root
            &&& start == 0
            &&& match result {
                Err(e) => steps.len() == 2 && r == Err::<(), DispatchError>(e),
                Ok(_) => steps.len() == 3 && match steps[2] {
                    VestingCall::AddVestingSchedule { who: w, schedule, result: added } => {
                        &&& w == who
                        &&& schedule == (VestingInfo { locked: 100, per_block: 10, starting_block: 1 })
                        &&& r == added
                    },
                    _ => false,
                },
            }
        },
        _ => false,
    }
}

/// Gives `who` the benchmark vesting schedule: sets the block number to 0, starts vesting
/// at block 0 as root, then adds the schedule; the first failure is returned.
pub fn add_vesting_schedule<A, V: VestingBenchmarks<A>>(chain: &mut V, who: &A) -> (r: Result<
    (),
    DispatchError,
>)
    ensures
        final(chain).vesting_calls().len() >= old(chain).vesting_calls().len(),
        final(chain).vesting_calls().subrange(0, old(chain).vesting_calls().len() as int)
            == old(chain).vesting_calls(),
        vesting_setup_steps(
            *who,
            final(chain).vesting_calls().subrange(
                old(chain).vesting_calls().len() as int,
                final(chain).vesting_calls().len() as int,
            ),
            r,
        ),
{
    let ghost before = chain.vesting_calls();
    chain.set_block_number(0);
    let started = chain.init_vesting_start_at(RawOrigin::Root, 0);
    let ghost c1 = chain.vesting_calls();
    assert(c1.subrange(before.len() as int, c1.len() as int) =~= seq![
        VestingCall::SetBlockNumber(0),
        VestingCall::InitVestingStartAt { origin: RawOrigin::Root, start: 0, result: started },
    ]);
    assert(c1.subrange(0, before.len() as int) =~= before);
    if started.is_err() {
        return started;
    }
    let schedule = benchmark_schedule();
    let added = chain.add_vesting_schedule(who, schedule);
    let ghost c2 = chain.vesting_calls();
    assert(c2.subrange(before.len() as int, c2.len() as int) =~= seq![
        VestingCall::SetBlockNumber(0),
        VestingCall::InitVestingStartAt { origin: RawOrigin::Root, start: 0, result: started },
        VestingCall::AddVestingSchedule { who: *who, schedule, result: added },
    ]);
    assert(c2.subrange(0, before.len() as int) =~= before);
    added
}

} // verus!
