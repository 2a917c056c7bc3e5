use vstd::prelude::*;

verus! {

/// Why a registry operation was rejected. Every error is detected before any
/// write, so a rejected operation leaves the whole state untouched.
#[derive(Clone, Copy, Debug, PartialEq, Eq, Structural)]
pub enum Error {
    /// Allocating one more identifier would overflow the counter.
    KittiesCountOverflow,
    /// The caller does not own the asset it tried to act on.
    NotOwner,
    /// Breeding was asked to combine an asset with itself.
    SameParentIndex,
    /// No asset is registered under the given identifier.
    KittyNotExist,
    /// The bid offered for a listed asset is below its asking price.
    KittyBidPriceTooLow,
    /// The caller's free balance cannot cover the deposit or the bid.
    NotEnoughBalance,
    /// The asset has no listing price, so it cannot be bought.
    KittyNotForSale,
    /// The current owner tried to buy its own asset.
    OwnerCanNotBuy,
    /// The currency collaborator refused to move the bid from buyer to
    /// seller (it would leave a party below the existence threshold, or
    /// overflow the receiver); the failure is propagated unchanged.
    BalanceTransferFailed,
}

} // verus!
