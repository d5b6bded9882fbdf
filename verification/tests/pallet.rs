use std::collections::HashMap;

use erc20_app::{
    ensure_signed, CallHistory, ChannelId, Config, CurrencyId, DispatchError, Error, Event, GenesisConfig,
    OutboundPayload, Pallet, RawOrigin, TokenSymbol, H160, U256,
};

const VETH: CurrencyId = CurrencyId::Token(TokenSymbol::VETH);

/// A runtime with a ledger of free balances, an outbound queue, accounts that speak for
/// Ethereum addresses, and storage transactions that snapshot the whole state.
#[derive(Clone, Default)]
struct TestRuntime {
    balances: HashMap<u64, u128>,
    outbound: Vec<(ChannelId, u64, H160, OutboundPayload<u64>)>,
    ethereum_accounts: HashMap<u64, H160>,
    refuse_submit: bool,
    snapshots: Vec<(HashMap<u64, u128>, Vec<(ChannelId, u64, H160, OutboundPayload<u64>)>)>,
    commits: usize,
    rollbacks: usize,
    log: Vec<&'static str>,
}

const BALANCE_TOO_LOW: DispatchError = DispatchError::Other(1);
const QUEUE_FULL: DispatchError = DispatchError::Other(2);

impl Config<u64> for TestRuntime {
    type Source = u64;

    fn runtime_calls(&self) -> CallHistory<u64, u64> {
        unreachable!()
    }

    fn withdraw(&mut self, currency_id: CurrencyId, who: &u64, amount: u128) -> Result<(), DispatchError> {
        self.log.push("withdraw");
        assert_eq!(currency_id, VETH);
        let free = self.balances.get(who).copied().unwrap_or(0);
        if free < amount {
            return Err(BALANCE_TOO_LOW);
        }
        self.balances.insert(*who, free - amount);
        Ok(())
    }

    fn deposit(&mut self, currency_id: CurrencyId, who: &u64, amount: u128) -> Result<(), DispatchError> {
        self.log.push("deposit");
        assert_eq!(currency_id, VETH);
        let free = self.balances.get(who).copied().unwrap_or(0);
        self.balances.insert(*who, free.checked_add(amount).ok_or(DispatchError::Other(3))?);
        Ok(())
    }

    fn submit(
        &mut self,
        channel_id: ChannelId,
        who: &u64,
        target: &H160,
        payload: &OutboundPayload<u64>,
    ) -> Result<(), DispatchError> {
        self.log.push("submit");
        if self.refuse_submit {
            return Err(QUEUE_FULL);
        }
        self.outbound.push((channel_id, *who, *target, *payload));
        Ok(())
    }

    fn ensure_call_origin(&mut self, origin: &RawOrigin<u64>) -> Option<H160> {
        self.log.push("origin");
        match origin {
            RawOrigin::Signed(who) => self.ethereum_accounts.get(who).copied(),
            _ => None,
        }
    }

    fn lookup(&mut self, source: &u64) -> Option<u64> {
        self.log.push("lookup");
        if *source == 0 {
            None
        } else {
            Some(*source)
        }
    }

    fn start_transaction(&mut self) {
        self.log.push("start");
        self.snapshots.push((self.balances.clone(), self.outbound.clone()));
    }

    fn commit_transaction(&mut self) {
        self.log.push("commit");
        self.snapshots.pop();
        self.commits += 1;
    }

    fn rollback_transaction(&mut self) {
        self.log.push("rollback");
        let (balances, outbound) = self.snapshots.pop().unwrap();
        self.balances = balances;
        self.outbound = outbound;
        self.rollbacks += 1;
    }
}

fn addr(b: u8) -> H160 {
    H160::from_bytes([b; 20])
}

fn bridged_pallet() -> Pallet<u64> {
    let mut pallet = Pallet::new(u128::MAX);
    GenesisConfig { address: addr(0xaa) }.build(&mut pallet);
    pallet
}

fn runtime_with(account: u64, balance: u128) -> TestRuntime {
    let mut runtime = TestRuntime::default();
    runtime.balances.insert(account, balance);
    runtime
}

#[test]
fn genesis_default_is_zero_address() {
    let genesis = GenesisConfig::default();
    assert_eq!(genesis.address, H160::zero());
    assert_eq!(genesis.address.bytes, [0u8; 20]);
}

#[test]
fn genesis_build_stores_address() {
    let mut pallet: Pallet<u64> = Pallet::new(1000);
    assert_eq!(pallet.address(), H160::zero());
    GenesisConfig { address: addr(7) }.build(&mut pallet);
    assert_eq!(pallet.address(), addr(7));
    assert_eq!(pallet.max_balance(), 1000);
    assert!(pallet.events().is_empty());
}

#[test]
fn burn_withdraws_submits_and_emits() {
    let mut pallet = bridged_pallet();
    let mut runtime = runtime_with(1, 500);
    let amount = U256::from_u128(200);
    let r = pallet.burn(&mut runtime, RawOrigin::Signed(1), ChannelId::Basic, addr(1), addr(2), amount);
    assert_eq!(r, Ok(()));
    assert_eq!(runtime.balances[&1], 300);
    assert_eq!(
        runtime.outbound,
        vec![(
            ChannelId::Basic,
            1,
            addr(0xaa),
            OutboundPayload { token: addr(1), sender: 1, recipient: addr(2), amount }
        )]
    );
    assert_eq!(pallet.events(), &vec![Event::Burned(addr(1), 1, addr(2), amount)]);
    assert_eq!(runtime.commits, 1);
    assert_eq!(runtime.rollbacks, 0);
    assert_eq!(runtime.log, vec!["start", "withdraw", "submit", "commit"]);
}

#[test]
fn burn_unsigned_is_bad_origin() {
    let mut pallet = bridged_pallet();
    let mut runtime = runtime_with(1, 500);
    for origin in [RawOrigin::Root, RawOrigin::Unsigned] {
        let r = pallet.burn(&mut runtime, origin, ChannelId::Basic, addr(1), addr(2), U256::from_u128(5));
        assert_eq!(r, Err(DispatchError::BadOrigin));
    }
    assert_eq!(runtime.log, vec!["start", "rollback", "start", "rollback"]);
    assert!(pallet.events().is_empty());
    assert_eq!(runtime.balances[&1], 500);
    assert!(runtime.outbound.is_empty());
}

#[test]
fn burn_unsigned_with_huge_amount_is_bad_origin() {
    let mut pallet = bridged_pallet();
    let mut runtime = runtime_with(1, 500);
    let huge = U256 { words: [0, 0, 1, 0] };
    let r = pallet.burn(&mut runtime, RawOrigin::Root, ChannelId::Basic, addr(1), addr(2), huge);
    assert_eq!(r, Err(DispatchError::BadOrigin));
}

#[test]
fn burn_over_max_balance_is_convert_failure() {
    let mut pallet: Pallet<u64> = Pallet::new(u64::MAX as u128);
    let mut runtime = runtime_with(1, u128::MAX);
    let amount = U256::from_u128(u64::MAX as u128 + 1);
    let r = pallet.burn(&mut runtime, RawOrigin::Signed(1), ChannelId::Incentivized, addr(1), addr(2), amount);
    assert_eq!(r, Err(DispatchError::Module(Error::ConvertFailure)));
    assert!(pallet.events().is_empty());
    assert_eq!(runtime.balances[&1], u128::MAX);
}

#[test]
fn burn_with_low_balance_keeps_ledger_error() {
    let mut pallet = bridged_pallet();
    let mut runtime = runtime_with(1, 10);
    let r = pallet.burn(&mut runtime, RawOrigin::Signed(1), ChannelId::Basic, addr(1), addr(2), U256::from_u128(11));
    assert_eq!(r, Err(BALANCE_TOO_LOW));
    assert!(pallet.events().is_empty());
    assert_eq!(runtime.balances[&1], 10);
    assert_eq!(runtime.rollbacks, 1);
    assert_eq!(runtime.log, vec!["start", "withdraw", "rollback"]);
}

#[test]
fn burn_refused_by_router_rolls_back_withdraw() {
    let mut pallet = bridged_pallet();
    let mut runtime = runtime_with(1, 500);
    runtime.refuse_submit = true;
    let r = pallet.burn(&mut runtime, RawOrigin::Signed(1), ChannelId::Basic, addr(1), addr(2), U256::from_u128(100));
    assert_eq!(r, Err(QUEUE_FULL));
    assert_eq!(runtime.log, vec!["start", "withdraw", "submit", "rollback"]);
    assert_eq!(runtime.balances[&1], 500);
    assert!(pallet.events().is_empty());
    assert_eq!(runtime.rollbacks, 1);
    assert_eq!(runtime.commits, 0);
}

#[test]
fn mint_by_registered_address_deposits_and_emits() {
    let mut pallet = bridged_pallet();
    let mut runtime = TestRuntime::default();
    runtime.ethereum_accounts.insert(9, addr(0xaa));
    let amount = U256::from_u128(77);
    let r = pallet.mint(&mut runtime, RawOrigin::Signed(9), addr(1), addr(3), 4, amount);
    assert_eq!(r, Ok(()));
    assert_eq!(runtime.log, vec!["start", "origin", "lookup", "deposit", "commit"]);
    assert_eq!(runtime.balances[&4], 77);
    assert_eq!(pallet.events(), &vec![Event::Minted(addr(1), addr(3), 4, amount)]);
}

#[test]
fn mint_by_other_address_is_bad_origin() {
    let mut pallet = bridged_pallet();
    let mut runtime = TestRuntime::default();
    runtime.ethereum_accounts.insert(9, addr(0xab));
    let r = pallet.mint(&mut runtime, RawOrigin::Signed(9), addr(1), addr(3), 4, U256::from_u128(77));
    assert_eq!(r, Err(DispatchError::BadOrigin));
    assert_eq!(runtime.log, vec!["start", "origin", "rollback"]);
    assert!(runtime.balances.is_empty());
    assert!(pallet.events().is_empty());
}

#[test]
fn mint_origin_refused_by_runtime() {
    let mut pallet = bridged_pallet();
    let mut runtime = TestRuntime::default();
    let r = pallet.mint(&mut runtime, RawOrigin::Root, addr(1), addr(3), 4, U256::from_u128(77));
    assert_eq!(r, Err(DispatchError::BadOrigin));
    assert!(pallet.events().is_empty());
}

#[test]
fn mint_to_unknown_account_cannot_lookup() {
    let mut pallet = bridged_pallet();
    let mut runtime = TestRuntime::default();
    runtime.ethereum_accounts.insert(9, addr(0xaa));
    let r = pallet.mint(&mut runtime, RawOrigin::Signed(9), addr(1), addr(3), 0, U256::from_u128(77));
    assert_eq!(r, Err(DispatchError::CannotLookup));
    assert_eq!(runtime.log, vec!["start", "origin", "lookup", "rollback"]);
    assert!(pallet.events().is_empty());
}

#[test]
fn mint_over_max_balance_is_convert_failure() {
    let mut pallet: Pallet<u64> = Pallet::new(1000);
    GenesisConfig { address: addr(0xaa) }.build(&mut pallet);
    let mut runtime = TestRuntime::default();
    runtime.ethereum_accounts.insert(9, addr(0xaa));
    let r = pallet.mint(&mut runtime, RawOrigin::Signed(9), addr(1), addr(3), 4, U256::from_u128(1001));
    assert_eq!(r, Err(DispatchError::Module(Error::ConvertFailure)));
    assert!(runtime.balances.is_empty());
    assert!(pallet.events().is_empty());
}

#[test]
fn mint_before_genesis_needs_zero_address() {
    let mut pallet: Pallet<u64> = Pallet::new(u128::MAX);
    let mut runtime = TestRuntime::default();
    runtime.ethereum_accounts.insert(9, addr(0xaa));
    runtime.ethereum_accounts.insert(8, H160::zero());
    let r = pallet.mint(&mut runtime, RawOrigin::Signed(9), addr(1), addr(3), 4, U256::from_u128(1));
    assert_eq!(r, Err(DispatchError::BadOrigin));
    let r = pallet.mint(&mut runtime, RawOrigin::Signed(8), addr(1), addr(3), 4, U256::from_u128(1));
    assert_eq!(r, Ok(()));
}

#[test]
fn burn_then_mint_round_trip() {
    let mut pallet = bridged_pallet();
    let mut runtime = runtime_with(1, 1000);
    runtime.ethereum_accounts.insert(9, addr(0xaa));
    let amount = U256::from_u128(400);
    assert_eq!(pallet.burn(&mut runtime, RawOrigin::Signed(1), ChannelId::Basic, addr(1), addr(2), amount), Ok(()));
    assert_eq!(pallet.mint(&mut runtime, RawOrigin::Signed(9), addr(1), addr(2), 1, amount), Ok(()));
    assert_eq!(runtime.balances[&1], 1000);
    assert_eq!(
        pallet.events(),
        &vec![Event::Burned(addr(1), 1, addr(2), amount), Event::Minted(addr(1), addr(2), 1, amount)]
    );
    assert_eq!(pallet.address(), addr(0xaa));
}

#[test]
fn check_burn_and_authorize_mint_decide() {
    let pallet = bridged_pallet();
    assert_eq!(pallet.check_burn(&RawOrigin::Signed(3), &U256::from_u128(12)), Ok((3, 12)));
    assert_eq!(pallet.check_burn(&RawOrigin::Root, &U256::from_u128(12)), Err(DispatchError::BadOrigin));
    assert_eq!(pallet.authorize_mint(Some(addr(0xaa))), Ok(addr(0xaa)));
    assert_eq!(pallet.authorize_mint(Some(addr(0xab))), Err(DispatchError::BadOrigin));
    assert_eq!(pallet.authorize_mint(None), Err(DispatchError::BadOrigin));
    let small: Pallet<u64> = Pallet::new(10);
    assert_eq!(small.to_balance(&U256::from_u128(10)), Ok(10));
    assert_eq!(small.to_balance(&U256::from_u128(11)), Err(DispatchError::Module(Error::ConvertFailure)));
}

#[test]
fn ensure_signed_gives_signer() {
    assert_eq!(ensure_signed(&RawOrigin::Signed(42u64)), Ok(42));
    assert_eq!(ensure_signed::<u64>(&RawOrigin::Root), Err(DispatchError::BadOrigin));
    assert_eq!(ensure_signed::<u64>(&RawOrigin::Unsigned), Err(DispatchError::BadOrigin));
}

#[test]
fn mint_sender_is_not_checked() {
    let amount = U256::from_u128(5);
    let mut results = Vec::new();
    for sender in [addr(3), addr(4)] {
        let mut pallet = bridged_pallet();
        let mut runtime = TestRuntime::default();
        runtime.ethereum_accounts.insert(9, addr(0xaa));
        let r = pallet.mint(&mut runtime, RawOrigin::Signed(9), addr(1), sender, 4, amount);
        assert_eq!(pallet.events(), &vec![Event::Minted(addr(1), sender, 4, amount)]);
        assert_eq!(runtime.log, vec!["start", "origin", "lookup", "deposit", "commit"]);
        results.push((r, runtime.balances[&4]));
    }
    assert_eq!(results[0], results[1]);
    assert_eq!(results[0], (Ok(()), 5));
}
