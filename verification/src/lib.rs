//! Bridged ERC20 token assets on a Substrate chain: burning a balance here sends an
//! unlock message to Ethereum, and the bridge's registered contract address mints
//! balances back. Alongside sit the weight formulas of the lightening-redeem pallet and
//! the setup steps of the vesting pallet's benchmarks.
mod primitives;

pub use primitives::{lemma_fits_u128, word, zero_address, ChannelId, CurrencyId, TokenSymbol, H160, U256};
mod dispatch;

pub use dispatch::{ensure_signed, DispatchError, Error, RawOrigin};
mod pallet;

pub use pallet::{
    balance_of, burn_check, burn_steps, lemma_genesis_address_alone_mints, lemma_only_registered_address_mints,
    lemma_other_address_is_refused, lemma_balance_is_whole_amount, lemma_burn_requests,
    lemma_mint_requests, lemma_mint_only_deposits, lemma_sender_is_not_checked,
    mint_authorization, mint_steps, transaction, transaction_steps, veth, CallHistory, RuntimeCall, Config, Event, GenesisConfig, OutboundPayload, Pallet, PalletView,
};
mod weights;

pub use weights::{
    extrinsic_weight, lemma_saturating_steps, saturated, RuntimeDbWeight, WeightInfo,
};
mod benchmarking;

pub use benchmarking::{
    add_locks, add_vesting_schedule, benchmark_locks, is_benchmark_lock, benchmark_schedule,
    LockableCurrency, Lock, VestingBenchmarks, VestingCall, VestingInfo, WithdrawReasons, LOCKED,
    vesting_setup_steps, lemma_benchmark_lock_ids, LockHistory, VestingHistory,
};
