use vstd::prelude::*;

use crate::dispatch::{ensure_signed, DispatchError, Error, RawOrigin};
use crate::primitives::{zero_address, ChannelId, CurrencyId, TokenSymbol, H160, U256};

verus! {

/// The events that the pallet deposits.
#[derive(Clone, Copy, Debug, PartialEq, Eq)]
pub enum Event<A> {
    /// `(token, sender, recipient, amount)`: the sender burned `amount` to be unlocked for
    /// the Ethereum `recipient`.
    Burned(H160, A, H160, U256),
    /// `(token, sender, recipient, amount)`: the Ethereum `sender` minted `amount` to the
    /// `recipient` account.
    Minted(H160, H160, A, U256),
}

/// The message that a burn sends over the bridge to unlock tokens on Ethereum.
#[derive(Clone, Copy, Debug, PartialEq, Eq)]
pub struct OutboundPayload<A> {
    pub token: H160,
    pub sender: A,
    pub recipient: H160,
    pub amount: U256,
}

/// A request that the pallet made of the runtime, with the runtime's answer.
pub enum RuntimeCall<A, S> {
    StartTransaction,
    CommitTransaction,
    RollbackTransaction,
    Withdraw { currency_id: CurrencyId, who: A, amount: u128, result: Result<(), DispatchError> },
    Deposit { currency_id: CurrencyId, who: A, amount: u128, result: Result<(), DispatchError> },
    Submit {
        channel_id: ChannelId,
        who: A,
        target: H160,
        payload: OutboundPayload<A>,
        result: Result<(), DispatchError>,
    },
    CallOrigin { origin: RawOrigin<A>, result: Option<H160> },
    Lookup { source: S, result: Option<A> },
}

/// The history of the requests that a runtime has received, oldest first.
pub type CallHistory<A, S> = Seq<RuntimeCall<A, S>>;

/// What the pallet needs of the runtime it is configured into. The runtime implements it:
/// its multi-currency ledger (`withdraw`, `deposit`), its outbound bridge router
/// (`submit`), the origin that may mint (`ensure_call_origin`), its account lookup
/// (`lookup`) and its storage transactions. What each request answers is the runtime's
/// own affair; `runtime_calls` is the history of the requests it has received, each with
/// the answer it gave.
pub trait Config<A> {
    /// How the runtime names an account in a call, before it is looked up.
    type Source;

    /// The requests received so far, oldest first, each with its answer.
    spec fn runtime_calls(&self) -> Seq<RuntimeCall<A, Self::Source>>;

    /// Takes `amount` of `currency_id` from the free balance of `who`.
    fn withdraw(&mut self, currency_id: CurrencyId, who: &A, amount: u128) -> (r: Result<
        (),
        DispatchError,
    >)
        ensures
            final(self).runtime_calls() == old(self).runtime_calls().push(
                RuntimeCall::Withdraw { currency_id, who: *who, amount, result: r },
            ),
    ;

    /// Adds `amount` of `currency_id` to the free balance of `who`.
    fn deposit(&mut self, currency_id: CurrencyId, who: &A, amount: u128) -> (r: Result<
        (),
        DispatchError,
    >)
        ensures
            final(self).runtime_calls() == old(self).runtime_calls().push(
                RuntimeCall::Deposit { currency_id, who: *who, amount, result: r },
            ),
    ;

    /// Sends `payload`, on behalf of `who`, to the Ethereum contract at `target` over the
    /// given channel.
    fn submit(
        &mut self,
        channel_id: ChannelId,
        who: &A,
        target: &H160,
        payload: &OutboundPayload<A>,
    ) -> (r: Result<(), DispatchError>)
        ensures
            final(self).runtime_calls() == old(self).runtime_calls().push(
                RuntimeCall::Submit { channel_id, who: *who, target: *target, payload: *payload, result: r },
            ),
    ;

    /// The Ethereum address on whose behalf the call was made, or `None` where the origin
    /// may not make it.
    fn ensure_call_origin(&mut self, origin: &RawOrigin<A>) -> (r: Option<H160>)
        ensures
            final(self).runtime_calls() == old(self).runtime_calls().push(
                RuntimeCall::CallOrigin { origin: *origin, result: r },
            ),
    ;

    /// The account that `source` names, or `None` where it names none.
    fn lookup(&mut self, source: &Self::Source) -> (r: Option<A>)
        ensures
            final(self).runtime_calls() == old(self).runtime_calls().push(
                RuntimeCall::Lookup { source: *source, result: r },
            ),
    ;

    /// Opens a storage transaction.
    fn start_transaction(&mut self)
        ensures
            final(self).runtime_calls() == old(self).runtime_calls().push(
                RuntimeCall::StartTransaction,
            ),
    ;

    /// Keeps the changes made since the matching `start_transaction`.
    fn commit_transaction(&mut self)
        ensures
            final(self).runtime_calls() == old(self).runtime_calls().push(
                RuntimeCall::CommitTransaction,
            ),
    ;

    /// Undoes the changes made since the matching `start_transaction`.
    fn rollback_transaction(&mut self)
        ensures
            final(self).runtime_calls() == old(self).runtime_calls().push(
                RuntimeCall::RollbackTransaction,
            ),
    ;
}

/// The pallet's storage, as specifications see it.
pub struct PalletView<A> {
    /// The Ethereum contract address of the bridged token app.
    pub address: Seq<u8>,
    /// The largest value of the runtime's balance type.
    pub max_balance: u128,
    /// The events deposited so far, oldest first.
    pub events: Seq<Event<A>>,
}

/// The ERC20 app pallet: its storage and the events it has deposited.
pub struct Pallet<A> {
    address: H160,
    max_balance: u128,
    events: Vec<Event<A>>,
}

impl<A> View for Pallet<A> {
    type V = PalletView<A>;

    closed spec fn view(&self) -> PalletView<A> {
        PalletView { address: self.address@, max_balance: self.max_balance, events: self.events@ }
    }
}

/// The amount as a balance: `ConvertFailure` where it exceeds the largest balance.
pub open spec fn balance_of(max_balance: u128, amount: U256) -> Result<u128, DispatchError> {
    if amount.value() <= max_balance {
        Ok(amount.value() as u128)
    } else {
        Err(DispatchError::Module(Error::ConvertFailure))
    }
}

/// What a burn checks before it touches the runtime: the signer and the amount as a
/// balance.
pub open spec fn burn_check<A>(max_balance: u128, origin: RawOrigin<A>, amount: U256) -> Result<
    (A, u128),
    DispatchError,
> {
    match origin {
        RawOrigin::Signed(who) => match balance_of(max_balance, amount) {
            Ok(value) => Ok((who, value)),
            Err(e) => Err(e),
        },
        _ => Err(DispatchError::BadOrigin),
    }
}

/// Whether the caller that the runtime's call origin resolved to may mint: only the
/// registered contract address may; an origin that resolves to no address may not either.
pub open spec fn mint_authorization(address: Seq<u8>, caller: Option<H160>) -> Result<
    H160,
    DispatchError,
> {
    match caller {
        Some(who) => if who@ == address {
            Ok(who)
        } else {
            Err(DispatchError::BadOrigin)
        },
        None => Err(DispatchError::BadOrigin),
    }
}

/// The currency that the pallet deals in: bridged ether.
pub open spec fn veth() -> CurrencyId {
    CurrencyId::Token(TokenSymbol::VETH)
}

/// Whether `steps` are the requests that a burn makes of the runtime, in order, and `r`
/// is its result: none where its own checks refuse it; else the withdraw of the signer's
/// converted amount of bridged ether, and, where that succeeds, the submit of the unlock
/// message to the registered address. The first failure is the result.
pub open spec fn burn_steps<A, S>(
    max_balance: u128,
    address: Seq<u8>,
    origin: RawOrigin<A>,
    channel_id: ChannelId,
    token: H160,
    recipient: H160,
    amount: U256,
    steps: Seq<RuntimeCall<A, S>>,
    r: Result<(), DispatchError>,
) -> bool {
    match burn_check(max_balance, origin, amount) {
        Err(e) => steps.len() == 0 && r == Err::<(), DispatchError>(e),
        Ok((who, value)) => steps.len() >= 1 && match steps[0] {
            RuntimeCall::Withdraw { currency_id, who: w, amount: v, result } => {
                &&& currency_id == veth()
                &&& w == who
                &&& v == value
                &&& match result {
                    Err(e) => steps.len() == 1 && r == Err::<(), DispatchError>(e),
                    Ok(_) => steps.len() == 2 && match steps[1] {
                        RuntimeCall::Submit { channel_id: c, who: w2, target, payload, result: sent } => {
                            &&& c == channel_id
                            &&& w2 == who
                            &&& target@ == address
                            &&& payload == (OutboundPayload { token, sender: who, recipient, amount })
                            &&& r == sent
                        },
                        _ => false,
                    },
                }
            },
            _ => false,
        },
    }
}

/// Whether `steps` are the requests that a mint makes of the runtime, in order, and `r`
/// is its result: the call-origin check first; where the registered address is the
/// caller, the lookup of `recipient`; where that names an account and the amount fits the
/// balance type, the deposit of the amount of bridged ether to it. The first failure is
/// the result, and on success `events_after` is `events_before` with the `Minted` event
/// for the account looked up.
pub open spec fn mint_steps<A, S>(
    max_balance: u128,
    address: Seq<u8>,
    origin: RawOrigin<A>,
    token: H160,
    sender: H160,
    recipient: S,
    amount: U256,
    steps: Seq<RuntimeCall<A, S>>,
    r: Result<(), DispatchError>,
    events_before: Seq<Event<A>>,
    events_after: Seq<Event<A>>,
) -> bool {
    steps.len() >= 1 && match steps[0] {
        RuntimeCall::CallOrigin { origin: o, result: caller } => o == origin && match mint_authorization(
            address,
            caller,
        ) {
            Err(e) => steps.len() == 1 && r == Err::<(), DispatchError>(e),
            Ok(_) => steps.len() >= 2 && match steps[1] {
                RuntimeCall::Lookup { source, result: found } => source == recipient && match found {
                    None => steps.len() == 2 && r == Err::<(), DispatchError>(DispatchError::CannotLookup),
                    Some(account) => match balance_of(max_balance, amount) {
                        Err(e) => steps.len() == 2 && r == Err::<(), DispatchError>(e),
                        Ok(value) => steps.len() == 3 && match steps[2] {
                            RuntimeCall::Deposit { currency_id, who, amount: v, result } => {
                                &&& currency_id == veth()
                                &&& who == account
                                &&& v == value
                                &&& r == result
                                &&& r is Ok ==> events_after == events_before.push(
                                    Event::Minted(token, sender, account, amount),
                                )
                            },
                            _ => false,
                        },
                    },
                },
                _ => false,
            },
        },
        _ => false,
    }
}

/// Whether the requests from `before` to `after` are one storage transaction: `after`
/// extends `before` by an opening, some steps, and a commit where `r` is a success or a
/// rollback where it is a failure.
pub open spec fn transaction<A, S>(
    before: Seq<RuntimeCall<A, S>>,
    after: Seq<RuntimeCall<A, S>>,
    r: Result<(), DispatchError>,
) -> bool {
    &&& after.len() >= before.len() + 2
    &&& after.subrange(0, before.len() as int) == before
    &&& after[before.len() as int] == RuntimeCall::<A, S>::StartTransaction
    &&& after.last() == (if r is Ok {
        RuntimeCall::<A, S>::CommitTransaction
    } else {
        RuntimeCall::<A, S>::RollbackTransaction
    })
}

/// The steps of the transaction from `before` to `after`: what lies between its opening
/// and its closing.
pub open spec fn transaction_steps<A, S>(
    before: Seq<RuntimeCall<A, S>>,
    after: Seq<RuntimeCall<A, S>>,
) -> Seq<RuntimeCall<A, S>> {
    after.subrange(before.len() as int + 1, after.len() - 1)
}

impl<A: Copy> Pallet<A> {
    /// Fresh storage: the address is the zero address, no event has been deposited, and
    /// `max_balance` is the largest value of the runtime's balance type.
    pub fn new(max_balance: u128) -> (r: Pallet<A>)
        ensures
            r@.address == zero_address(),
            r@.max_balance == max_balance,
            r@.events == Seq::<Event<A>>::empty(),
    {
        Pallet { address: H160::zero(), max_balance, events: Vec::new() }
    }

    /// The Ethereum contract address of the bridged token app.
    pub fn address(&self) -> (r: H160)
        ensures
            r@ == self@.address,
    {
        self.address
    }

    /// The largest value of the runtime's balance type.
    pub fn max_balance(&self) -> (r: u128)
        ensures
            r == self@.max_balance,
    {
        self.max_balance
    }

    /// The events deposited so far, oldest first.
    pub fn events(&self) -> (r: &Vec<Event<A>>)
        ensures
            r@ == self@.events,
    {
        &self.events
    }

    /// The amount as a balance of the runtime, or `ConvertFailure`.
    pub fn to_balance(&self, amount: &U256) -> (r: Result<u128, DispatchError>)
        requires
            amount.fits_u128(),
        ensures
            r == balance_of(self@.max_balance, *amount),
            amount.value() <= self@.max_balance ==> r == Ok::<u128, DispatchError>(
                amount.value() as u128,
            ),
            amount.value() > self@.max_balance ==> r == Err::<u128, DispatchError>(
                DispatchError::Module(Error::ConvertFailure),
            ),
    {
        let value = amount.as_u128();
        if value <= self.max_balance {
            Ok(value)
        } else {
            Err(DispatchError::Module(Error::ConvertFailure))
        }
    }

    /// The signer of a burn and the amount as a balance, or why the burn is refused before
    /// the runtime is asked anything.
    pub fn check_burn(&self, origin: &RawOrigin<A>, amount: &U256) -> (r: Result<
        (A, u128),
        DispatchError,
    >)
        requires
            origin is Signed ==> amount.fits_u128(),
        ensures
            r == burn_check(self@.max_balance, *origin, *amount),
            *origin matches RawOrigin::Signed(who) ==> (amount.value() <= self@.max_balance ==> r
                == Ok::<(A, u128), DispatchError>((who, amount.value() as u128))),
    {
        match ensure_signed(origin) {
            Ok(who) => match self.to_balance(amount) {
                Ok(value) => Ok((who, value)),
                Err(e) => Err(e),
            },
            Err(e) => Err(e),
        }
    }

    /// The message that a burn by `who` sends, and the contract it is addressed to: the
    /// registered address.
    pub fn unlock_message(&self, who: A, token: H160, recipient: H160, amount: U256) -> (r: (
        H160,
        OutboundPayload<A>,
    ))
        ensures
            r.0@ == self@.address,
            r.1 == (OutboundPayload { token, sender: who, recipient, amount }),
    {
        (self.address, OutboundPayload { token, sender: who, recipient, amount })
    }

    /// Whether the caller that the runtime's call origin resolved to may mint.
    pub fn authorize_mint(&self, caller: Option<H160>) -> (r: Result<H160, DispatchError>)
        ensures
            r == mint_authorization(self@.address, caller),
    {
        match caller {
            Some(who) => if who.same_as(&self.address) {
                Ok(who)
            } else {
                Err(DispatchError::BadOrigin)
            },
            None => Err(DispatchError::BadOrigin),
        }
    }
}


impl<A: Copy> Pallet<A> {
    /// Burns `amount` of the signer's bridged ether and sends the bridge a message to
    /// unlock it for `recipient` on Ethereum, addressed to the registered contract.
    /// In one storage transaction it withdraws the balance, then submits the message; the
    /// first failure is returned and the transaction rolled back, and on success it is
    /// committed and a `Burned` event is deposited.
    pub fn burn<R: Config<A>>(
        &mut self,
        runtime: &mut R,
        origin: RawOrigin<A>,
        channel_id: ChannelId,
        token: H160,
        recipient: H160,
        amount: U256,
    ) -> (r: Result<(), DispatchError>)
        requires
            origin is Signed ==> amount.fits_u128(),
        ensures
            final(self)@.address == old(self)@.address,
            final(self)@.max_balance == old(self)@.max_balance,
            transaction(old(runtime).runtime_calls(), final(runtime).runtime_calls(), r),
            burn_steps(
                old(self)@.max_balance,
                old(self)@.address,
                origin,
                channel_id,
                token,
                recipient,
                amount,
                transaction_steps(old(runtime).runtime_calls(), final(runtime).runtime_calls()),
                r,
            ),
            burn_check(old(self)@.max_balance, origin, amount) matches Err(e) ==> r == Err::<
                (),
                DispatchError,
            >(e),
            r is Ok ==> (burn_check(old(self)@.max_balance, origin, amount) matches Ok((who, _))
                && final(self)@.events == old(self)@.events.push(
                Event::Burned(token, who, recipient, amount),
            )),
            forall|i: int|
                0 <= i < transaction_steps(old(runtime).runtime_calls(), final(runtime).runtime_calls()).len() ==> (#[trigger] transaction_steps(old(runtime).runtime_calls(), final(runtime).runtime_calls())[i] matches RuntimeCall::Submit {
                    channel_id: c,
                    ..
                } ==> c == channel_id),
            forall|i: int|
                0 <= i < transaction_steps(old(runtime).runtime_calls(), final(runtime).runtime_calls()).len() ==> (#[trigger] transaction_steps(old(runtime).runtime_calls(), final(runtime).runtime_calls())[i] matches RuntimeCall::Withdraw {
                    amount: v,
                    ..
                } ==> v == amount.value()),
            r is Err ==> final(self)@.events == old(self)@.events,
    {
        let ghost before = runtime.runtime_calls();
        runtime.start_transaction();
        let ghost opened = runtime.runtime_calls();
        let r = self.burn_in_transaction(runtime, origin, channel_id, token, recipient, amount);
        let ghost stepped = runtime.runtime_calls();
        match r {
            Ok(()) => runtime.commit_transaction(),
            Err(_) => runtime.rollback_transaction(),
        }
        proof {
            let after = runtime.runtime_calls();
            assert forall|i: int| 0 <= i < opened.len() implies after[i] == opened[i] by {
                assert(stepped.subrange(0, opened.len() as int)[i] == opened[i]);
            }
            assert(after.subrange(0, before.len() as int) =~= before);
            assert(transaction_steps(before, after) =~= stepped.subrange(
                opened.len() as int,
                stepped.len() as int,
            ));
            lemma_burn_requests(
                old(self)@.max_balance,
                old(self)@.address,
                origin,
                channel_id,
                token,
                recipient,
                amount,
                transaction_steps(before, after),
                r,
            );
        }
        r
    }

    fn burn_in_transaction<R: Config<A>>(
        &mut self,
        runtime: &mut R,
        origin: RawOrigin<A>,
        channel_id: ChannelId,
        token: H160,
        recipient: H160,
        amount: U256,
    ) -> (r: Result<(), DispatchError>)
        requires
            origin is Signed ==> amount.fits_u128(),
        ensures
            final(self)@.address == old(self)@.address,
            final(self)@.max_balance == old(self)@.max_balance,
            final(runtime).runtime_calls().len() >= old(runtime).runtime_calls().len(),
            final(runtime).runtime_calls().subrange(0, old(runtime).runtime_calls().len() as int)
                == old(runtime).runtime_calls(),
            burn_steps(
                old(self)@.max_balance,
                old(self)@.address,
                origin,
                channel_id,
                token,
                recipient,
                amount,
                final(runtime).runtime_calls().subrange(
                    old(runtime).runtime_calls().len() as int,
                    final(runtime).runtime_calls().len() as int,
                ),
                r,
            ),
            burn_check(old(self)@.max_balance, origin, amount) matches Err(e) ==> r == Err::<
                (),
                DispatchError,
            >(e),
            r is Ok ==> (burn_check(old(self)@.max_balance, origin, amount) matches Ok((who, _))
                && final(self)@.events == old(self)@.events.push(
                Event::Burned(token, who, recipient, amount),
            )),
            forall|i: int|
                0 <= i < final(runtime).runtime_calls().subrange(old(runtime).runtime_calls().len() as int, final(runtime).runtime_calls().len() as int).len() ==> (#[trigger] final(runtime).runtime_calls().subrange(old(runtime).runtime_calls().len() as int, final(runtime).runtime_calls().len() as int)[i] matches RuntimeCall::Submit {
                    channel_id: c,
                    ..
                } ==> c == channel_id),
            forall|i: int|
                0 <= i < final(runtime).runtime_calls().subrange(old(runtime).runtime_calls().len() as int, final(runtime).runtime_calls().len() as int).len() ==> (#[trigger] final(runtime).runtime_calls().subrange(old(runtime).runtime_calls().len() as int, final(runtime).runtime_calls().len() as int)[i] matches RuntimeCall::Withdraw {
                    amount: v,
                    ..
                } ==> v == amount.value()),
            r is Err ==> final(self)@.events == old(self)@.events,
    {
        let ghost before = runtime.runtime_calls();
        let (who, value) = match self.check_burn(&origin, &amount) {
            Ok(checked) => checked,
            Err(e) => {
                assert(runtime.runtime_calls().subrange(before.len() as int, before.len() as int)
                    =~= Seq::<RuntimeCall<A, R::Source>>::empty());
                assert(runtime.runtime_calls().subrange(0, before.len() as int) =~= before);
                return Err(e);
            },
        };
        let withdrawn = runtime.withdraw(CurrencyId::Token(TokenSymbol::VETH), &who, value);
        let ghost after_withdraw = runtime.runtime_calls();
        assert(after_withdraw.subrange(before.len() as int, after_withdraw.len() as int) =~= seq![
            RuntimeCall::Withdraw { currency_id: veth(), who, amount: value, result: withdrawn },
        ]);
        assert(after_withdraw.subrange(0, before.len() as int) =~= before);
        match withdrawn {
            Ok(()) => {},
            Err(e) => return Err(e),
        }
        let (target, message) = self.unlock_message(who, token, recipient, amount);
        let sent = runtime.submit(channel_id, &who, &target, &message);
        let ghost after_submit = runtime.runtime_calls();
        assert(after_submit.subrange(before.len() as int, after_submit.len() as int) =~= seq![
            RuntimeCall::Withdraw { currency_id: veth(), who, amount: value, result: withdrawn },
            RuntimeCall::Submit { channel_id, who, target, payload: message, result: sent },
        ]);
        assert(after_submit.subrange(0, before.len() as int) =~= before);
        if sent.is_err() {
            return sent;
        }
        assert(sent->Ok_0 == ());
        self.events.push(Event::Burned(token, who, recipient, amount));
        Ok(())
    }

    /// Mints `amount` of bridged ether to the account that `recipient` names, on behalf of
    /// the Ethereum `sender`. In one storage transaction it asks the runtime which address
    /// the origin speaks for, and only the registered contract address may mint (any other
    /// origin gets `BadOrigin`); it then looks up the recipient (`CannotLookup` where that
    /// fails), converts the amount, and deposits it. The first failure is returned and the
    /// transaction rolled back; on success it is committed and a `Minted` event is
    /// deposited.
    pub fn mint<R: Config<A>>(
        &mut self,
        runtime: &mut R,
        origin: RawOrigin<A>,
        token: H160,
        sender: H160,
        recipient: R::Source,
        amount: U256,
    ) -> (r: Result<(), DispatchError>)
        requires
            amount.fits_u128(),
        ensures
            final(self)@.address == old(self)@.address,
            final(self)@.max_balance == old(self)@.max_balance,
            transaction(old(runtime).runtime_calls(), final(runtime).runtime_calls(), r),
            mint_steps(
                old(self)@.max_balance,
                old(self)@.address,
                origin,
                token,
                sender,
                recipient,
                amount,
                transaction_steps(old(runtime).runtime_calls(), final(runtime).runtime_calls()),
                r,
                old(self)@.events,
                final(self)@.events,
            ),
            r is Ok ==> {
                &&& balance_of(old(self)@.max_balance, amount) is Ok
                &&& final(self)@.events.len() == old(self)@.events.len() + 1
                &&& final(self)@.events.drop_last() == old(self)@.events
                &&& final(self)@.events.last() matches Event::Minted(t, s, _, a)
                &&& t == token && s == sender && a == amount
            },
            forall|i: int|
                0 <= i < transaction_steps(old(runtime).runtime_calls(), final(runtime).runtime_calls()).len() ==> (#[trigger] transaction_steps(old(runtime).runtime_calls(), final(runtime).runtime_calls())[i] matches RuntimeCall::Deposit {
                    amount: v,
                    ..
                } ==> v == amount.value()),
            r is Err ==> final(self)@.events == old(self)@.events,
    {
        let ghost before = runtime.runtime_calls();
        runtime.start_transaction();
        let ghost opened = runtime.runtime_calls();
        let r = self.mint_in_transaction(runtime, origin, token, sender, recipient, amount);
        let ghost stepped = runtime.runtime_calls();
        match r {
            Ok(()) => runtime.commit_transaction(),
            Err(_) => runtime.rollback_transaction(),
        }
        proof {
            let after = runtime.runtime_calls();
            assert forall|i: int| 0 <= i < opened.len() implies after[i] == opened[i] by {
                assert(stepped.subrange(0, opened.len() as int)[i] == opened[i]);
            }
            assert(after.subrange(0, before.len() as int) =~= before);
            assert(transaction_steps(before, after) =~= stepped.subrange(
                opened.len() as int,
                stepped.len() as int,
            ));
            lemma_mint_requests(
                old(self)@.max_balance,
                old(self)@.address,
                origin,
                token,
                sender,
                recipient,
                amount,
                transaction_steps(before, after),
                r,
                old(self)@.events,
                self@.events,
            );
        }
        r
    }

    fn mint_in_transaction<R: Config<A>>(
        &mut self,
        runtime: &mut R,
        origin: RawOrigin<A>,
        token: H160,
        sender: H160,
        recipient: R::Source,
        amount: U256,
    ) -> (r: Result<(), DispatchError>)
        requires
            amount.fits_u128(),
        ensures
            final(self)@.address == old(self)@.address,
            final(self)@.max_balance == old(self)@.max_balance,
            final(runtime).runtime_calls().len() >= old(runtime).runtime_calls().len(),
            final(runtime).runtime_calls().subrange(0, old(runtime).runtime_calls().len() as int)
                == old(runtime).runtime_calls(),
            mint_steps(
                old(self)@.max_balance,
                old(self)@.address,
                origin,
                token,
                sender,
                recipient,
                amount,
                final(runtime).runtime_calls().subrange(
                    old(runtime).runtime_calls().len() as int,
                    final(runtime).runtime_calls().len() as int,
                ),
                r,
                old(self)@.events,
                final(self)@.events,
            ),
            r is Ok ==> {
                &&& balance_of(old(self)@.max_balance, amount) is Ok
                &&& final(self)@.events.len() == old(self)@.events.len() + 1
                &&& final(self)@.events.drop_last() == old(self)@.events
                &&& final(self)@.events.last() matches Event::Minted(t, s, _, a)
                &&& t == token && s == sender && a == amount
            },
            forall|i: int|
                0 <= i < final(runtime).runtime_calls().subrange(old(runtime).runtime_calls().len() as int, final(runtime).runtime_calls().len() as int).len() ==> (#[trigger] final(runtime).runtime_calls().subrange(old(runtime).runtime_calls().len() as int, final(runtime).runtime_calls().len() as int)[i] matches RuntimeCall::Deposit {
                    amount: v,
                    ..
                } ==> v == amount.value()),
            r is Err ==> final(self)@.events == old(self)@.events,
    {
        let ghost before = runtime.runtime_calls();
        let caller = runtime.ensure_call_origin(&origin);
        let ghost c0 = runtime.runtime_calls();
        assert(c0.subrange(before.len() as int, c0.len() as int) =~= seq![
            RuntimeCall::CallOrigin { origin, result: caller },
        ]);
        assert(c0.subrange(0, before.len() as int) =~= before);
        match self.authorize_mint(caller) {
            Ok(_) => {},
            Err(e) => return Err(e),
        }
        let found = runtime.lookup(&recipient);
        let ghost c1 = runtime.runtime_calls();
        assert(c1.subrange(before.len() as int, c1.len() as int) =~= seq![
            RuntimeCall::CallOrigin { origin, result: caller },
            RuntimeCall::Lookup { source: recipient, result: found },
        ]);
        assert(c1.subrange(0, before.len() as int) =~= before);
        let account = match found {
            Some(account) => account,
            None => return Err(DispatchError::CannotLookup),
        };
        let value = match self.to_balance(&amount) {
            Ok(value) => value,
            Err(e) => return Err(e),
        };
        let deposited = runtime.deposit(CurrencyId::Token(TokenSymbol::VETH), &account, value);
        let ghost c2 = runtime.runtime_calls();
        assert(c2.subrange(before.len() as int, c2.len() as int) =~= seq![
            RuntimeCall::CallOrigin { origin, result: caller },
            RuntimeCall::Lookup { source: recipient, result: found },
            RuntimeCall::Deposit { currency_id: veth(), who: account, amount: value, result: deposited },
        ]);
        assert(c2.subrange(0, before.len() as int) =~= before);
        if deposited.is_err() {
            return deposited;
        }
        assert(deposited->Ok_0 == ());
        self.events.push(Event::Minted(token, sender, account, amount));
        Ok(())
    }
}

/// The pallet's genesis: the contract address that the chain starts with.
pub struct GenesisConfig {
    pub address: H160,
}

impl Default for GenesisConfig {
    /// The zero address.
    fn default() -> (r: GenesisConfig)
        ensures
            r.address@ == zero_address(),
    {
        GenesisConfig { address: H160::zero() }
    }
}

impl GenesisConfig {
    /// Writes the genesis address into the pallet's storage.
    pub fn build<A: Copy>(&self, pallet: &mut Pallet<A>)
        ensures
            final(pallet)@.address == self.address@,
            final(pallet)@.max_balance == old(pallet)@.max_balance,
            final(pallet)@.events == old(pallet)@.events,
    {
        pallet.address = self.address;
    }
}


/// Once the genesis address is in storage, a mint passes the origin check exactly when the
/// runtime's call origin resolves to that address; any other caller, and an origin that
/// resolves to no address, gets `BadOrigin`.
pub proof fn lemma_genesis_address_alone_mints<A>(
    genesis: GenesisConfig,
    storage: PalletView<A>,
    caller: Option<H160>,
)
    requires
        storage.address == genesis.address@,
    ensures
        mint_authorization(storage.address, caller) is Ok <==> (caller matches Some(who)
            && who@ == genesis.address@),
        mint_authorization(storage.address, caller) is Err ==> mint_authorization(
            storage.address,
            caller,
        ) == Err::<H160, DispatchError>(DispatchError::BadOrigin),
{
}

/// A mint succeeds only where the runtime resolved its origin to the registered address:
/// the first request of a successful mint is the call-origin check, answered with that
/// address.
pub proof fn lemma_only_registered_address_mints<A, S>(
    max_balance: u128,
    address: Seq<u8>,
    origin: RawOrigin<A>,
    token: H160,
    sender: H160,
    recipient: S,
    amount: U256,
    steps: Seq<RuntimeCall<A, S>>,
    r: Result<(), DispatchError>,
    events_before: Seq<Event<A>>,
    events_after: Seq<Event<A>>,
)
    requires
        mint_steps(
            max_balance,
            address,
            origin,
            token,
            sender,
            recipient,
            amount,
            steps,
            r,
            events_before,
            events_after,
        ),
        r is Ok,
    ensures
        steps[0] matches RuntimeCall::CallOrigin { origin: o, result: Some(who) } && o == origin
            && who@ == address,
{
}

/// A mint whose origin the runtime resolves to an address other than the registered one
/// is refused with `BadOrigin` after that single request: the recipient is not looked up
/// and nothing is deposited.
pub proof fn lemma_other_address_is_refused<A, S>(
    max_balance: u128,
    address: Seq<u8>,
    origin: RawOrigin<A>,
    token: H160,
    sender: H160,
    recipient: S,
    amount: U256,
    steps: Seq<RuntimeCall<A, S>>,
    r: Result<(), DispatchError>,
    events_before: Seq<Event<A>>,
    events_after: Seq<Event<A>>,
)
    requires
        mint_steps(
            max_balance,
            address,
            origin,
            token,
            sender,
            recipient,
            amount,
            steps,
            r,
            events_before,
            events_after,
        ),
        steps[0] matches RuntimeCall::CallOrigin { result: Some(who), .. } && who@ != address,
    ensures
        r == Err::<(), DispatchError>(DispatchError::BadOrigin),
        steps.len() == 1,
{
}

/// A mint asks the runtime only to check its origin, look up its recipient and deposit
/// bridged ether to the account found: it never withdraws and never submits a message.
pub proof fn lemma_mint_only_deposits<A, S>(
    max_balance: u128,
    address: Seq<u8>,
    origin: RawOrigin<A>,
    token: H160,
    sender: H160,
    recipient: S,
    amount: U256,
    steps: Seq<RuntimeCall<A, S>>,
    r: Result<(), DispatchError>,
    events_before: Seq<Event<A>>,
    events_after: Seq<Event<A>>,
)
    requires
        mint_steps(
            max_balance,
            address,
            origin,
            token,
            sender,
            recipient,
            amount,
            steps,
            r,
            events_before,
            events_after,
        ),
    ensures
        forall|i: int|
            0 <= i < steps.len() ==> !(#[trigger] steps[i] is Withdraw) && !(steps[i] is Submit),
        forall|i: int|
            0 <= i < steps.len() && #[trigger] steps[i] is Deposit ==> {
                &&& i == 2
                &&& steps[i] matches RuntimeCall::Deposit { currency_id, who, .. }
                &&& currency_id == veth()
                &&& steps[1] matches RuntimeCall::Lookup { result: Some(found), .. }
                &&& who == found
            },
{
}

/// The Ethereum sender of a mint is not checked: two mints that get the same answers from
/// the runtime, and differ only in their sender, return the same result, and on success
/// deposit the same `Minted` event but for its sender.
pub proof fn lemma_sender_is_not_checked<A, S>(
    max_balance: u128,
    address: Seq<u8>,
    origin: RawOrigin<A>,
    token: H160,
    sender1: H160,
    sender2: H160,
    recipient: S,
    amount: U256,
    steps: Seq<RuntimeCall<A, S>>,
    r1: Result<(), DispatchError>,
    r2: Result<(), DispatchError>,
    events_before: Seq<Event<A>>,
    events_after1: Seq<Event<A>>,
    events_after2: Seq<Event<A>>,
)
    requires
        mint_steps(
            max_balance,
            address,
            origin,
            token,
            sender1,
            recipient,
            amount,
            steps,
            r1,
            events_before,
            events_after1,
        ),
        mint_steps(
            max_balance,
            address,
            origin,
            token,
            sender2,
            recipient,
            amount,
            steps,
            r2,
            events_before,
            events_after2,
        ),
    ensures
        r1 == r2,
        r1 is Ok ==> (steps[1] matches RuntimeCall::Lookup { result: Some(account), .. }
            && events_after1 == events_before.push(Event::Minted(token, sender1, account, amount))
            && events_after2 == events_before.push(Event::Minted(token, sender2, account, amount))),
{
}

/// Converting an amount to a balance keeps the whole 256-bit amount: it is `Ok` with the
/// amount's value exactly when that value is at most the largest balance, and
/// `ConvertFailure` exactly when it is larger.
pub proof fn lemma_balance_is_whole_amount(max_balance: u128, amount: U256)
    ensures
        amount.value() <= max_balance ==> balance_of(max_balance, amount) == Ok::<
            u128,
            DispatchError,
        >(amount.value() as u128),
        amount.value() > max_balance ==> balance_of(max_balance, amount) == Err::<
            u128,
            DispatchError,
        >(DispatchError::Module(Error::ConvertFailure)),
        balance_of(max_balance, amount) matches Ok(v) ==> v == amount.value(),
{
}

/// What a burn asks of the runtime, in terms of its arguments: it withdraws only from the
/// signer, only bridged ether, and exactly the amount given; it submits only over the
/// channel given, on behalf of the signer, to the registered address, a message that
/// carries the token, the signer, the recipient and the amount given. A signed burn
/// whose amount fits the balance type always starts with that withdraw; any other burn
/// asks nothing and fails; and a burn succeeds only after both requests.
pub proof fn lemma_burn_requests<A, S>(
    max_balance: u128,
    address: Seq<u8>,
    origin: RawOrigin<A>,
    channel_id: ChannelId,
    token: H160,
    recipient: H160,
    amount: U256,
    steps: Seq<RuntimeCall<A, S>>,
    r: Result<(), DispatchError>,
)
    requires
        burn_steps(max_balance, address, origin, channel_id, token, recipient, amount, steps, r),
    ensures
        forall|i: int|
            0 <= i < steps.len() ==> (#[trigger] steps[i] matches RuntimeCall::Withdraw {
                currency_id,
                who,
                amount: v,
                ..
            } ==> {
                &&& currency_id == veth()
                &&& v == amount.value()
                &&& origin == RawOrigin::Signed(who)
            }),
        forall|i: int|
            0 <= i < steps.len() ==> (#[trigger] steps[i] matches RuntimeCall::Submit {
                channel_id: c,
                who,
                target,
                payload,
                ..
            } ==> {
                &&& c == channel_id
                &&& target@ == address
                &&& origin == RawOrigin::Signed(who)
                &&& payload.sender == who
                &&& payload.token == token
                &&& payload.recipient == recipient
                &&& payload.amount == amount
            }),
        origin is Signed && amount.value() <= max_balance ==> steps.len() >= 1
            && steps[0] is Withdraw,
        !(origin is Signed) ==> steps.len() == 0 && r == Err::<(), DispatchError>(
            DispatchError::BadOrigin,
        ),
        origin is Signed && amount.value() > max_balance ==> steps.len() == 0 && r == Err::<
            (),
            DispatchError,
        >(DispatchError::Module(Error::ConvertFailure)),
        r is Ok ==> steps.len() == 2 && steps[0] is Withdraw && steps[1] is Submit,
{
    lemma_balance_is_whole_amount(max_balance, amount);
}

/// What a mint asks of the runtime, in terms of its arguments: any deposit is of bridged
/// ether and of exactly the amount given; an amount above the largest balance is never
/// deposited and the mint fails; and once the caller is the registered address and the
/// recipient is found, an amount that fits the balance type is always deposited.
pub proof fn lemma_mint_requests<A, S>(
    max_balance: u128,
    address: Seq<u8>,
    origin: RawOrigin<A>,
    token: H160,
    sender: H160,
    recipient: S,
    amount: U256,
    steps: Seq<RuntimeCall<A, S>>,
    r: Result<(), DispatchError>,
    events_before: Seq<Event<A>>,
    events_after: Seq<Event<A>>,
)
    requires
        mint_steps(
            max_balance,
            address,
            origin,
            token,
            sender,
            recipient,
            amount,
            steps,
            r,
            events_before,
            events_after,
        ),
    ensures
        forall|i: int|
            0 <= i < steps.len() ==> (#[trigger] steps[i] matches RuntimeCall::Deposit {
                currency_id,
                amount: v,
                ..
            } ==> currency_id == veth() && v == amount.value()),
        amount.value() > max_balance ==> steps.len() <= 2 && r is Err,
        amount.value() <= max_balance && steps.len() >= 2 ==> (steps[1] matches RuntimeCall::Lookup {
            result: Some(_),
            ..
        } ==> steps.len() == 3 && steps[2] is Deposit),
{
    lemma_balance_is_whole_amount(max_balance, amount);
}

} // verus!
