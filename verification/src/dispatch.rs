use vstd::prelude::*;

verus! {

/// The errors that the pallet itself raises.
#[derive(Clone, Copy, Debug, PartialEq, Eq)]
pub enum Error {
    /// The amount does not fit in the runtime's balance type.
    ConvertFailure,
}

/// Why a dispatched call failed.
#[derive(Clone, Copy, Debug, PartialEq, Eq)]
pub enum DispatchError {
    /// The runtime refused the call for a reason of its own, told by a code.
    Other(u32),
    /// An account could not be looked up.
    CannotLookup,
    /// The call came from an origin that may not make it.
    BadOrigin,
    /// One of this pallet's own errors.
    Module(Error),
}

/// The origin of a call as the system pallet sees it.
#[derive(Clone, Copy, Debug, PartialEq, Eq)]
pub enum RawOrigin<A> {
    /// The root of the chain.
    Root,
    /// A transaction signed by the given account.
    Signed(A),
    /// No origin: an unsigned transaction or an inherent.
    Unsigned,
}

/// The account that signed the call, or `BadOrigin` where the call was not signed.
pub fn ensure_signed<A: Copy>(origin: &RawOrigin<A>) -> (r: Result<A, DispatchError>)
    ensures
        match *origin {
            RawOrigin::Signed(who) => r == Ok::<A, DispatchError>(who),
            _ => r == Err::<A, DispatchError>(DispatchError::BadOrigin),
        },
{
    match origin {
        RawOrigin::Signed(who) => Ok(*who),
        _ => Err(DispatchError::BadOrigin),
    }
}

} // verus!
