use vstd::prelude::*;

verus! {

/// Who dispatched a call: the root, a signed account, or no one (an unsigned call).
#[derive(Clone, Copy, PartialEq, Eq, Debug)]
pub enum Origin {
    Root,
    Signed(u64),
    Unsigned,
}

impl Origin {
    /// The origin of a call signed by `who`.
    pub fn signed(who: u64) -> (o: Origin)
        ensures
            o == Origin::Signed(who),
    {
        Origin::Signed(who)
    }
}

/// The errors of the kitties pallet.
#[derive(Clone, Copy, PartialEq, Eq, Debug)]
pub enum Error {
    /// Every kitty index has been used.
    KittyCountOverflow,
    /// The sender does not own the kitty.
    NotKittyOwner,
    /// No kitty has that index.
    InvalidKityyId,
    /// A kitty cannot be bred with itself.
    RequireTwoDifferentCat,
    /// The price of a kitty could not be reserved.
    CreateKittyNeedDotsAsReserved,
}

/// Why a dispatchable call failed.
#[derive(Clone, Copy, PartialEq, Eq, Debug)]
pub enum DispatchError {
    /// The call was not signed.
    BadOrigin,
    /// The kitties pallet refused the call.
    Module(Error),
}

/// The account that signed a call, or `BadOrigin` when it was not signed.
pub fn ensure_signed(origin: Origin) -> (r: Result<u64, DispatchError>)
    ensures
        match origin {
            Origin::Signed(who) => r == Ok::<u64, DispatchError>(who),
            _ => r == Err::<u64, DispatchError>(DispatchError::BadOrigin),
        },
{
    match origin {
        Origin::Signed(who) => Ok(who),
        _ => Err(DispatchError::BadOrigin),
    }
}

} // verus!
