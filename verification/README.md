# erc20_app

A verified library for bridged ERC20 token assets on a Substrate chain.

- `src/primitives.rs`: Ethereum addresses (`H160`), 256-bit amounts (`U256`), bridge
  channels and currency identifiers.
- `src/dispatch.rs`: origins, `ensure_signed`, dispatch and pallet errors.
- `src/pallet.rs`: the pallet: `burn`, `mint`, the genesis address, and the runtime
  interface (`Config`) that a runtime implements.
- `src/weights.rs`: the lightening-redeem pallet's extrinsic weights, saturated at
  `u64::MAX`.
- `src/benchmarking.rs`: the locks and vesting schedule that the vesting benchmarks set up.
- `app/lib.rs`: conversions to and from the Substrate crates' types.
