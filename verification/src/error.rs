//! The named rejections of the escrow core.
//!
//! Every precondition violation aborts the whole operation with a distinct
//! reason; nothing is retried and no partial state change survives.

use vstd::prelude::*;

verus! {

/// A reason an operation was rejected.  Each operation's contract states
/// exactly which of these it returns, and on which inputs.
#[derive(Clone, Copy, Debug, PartialEq, Eq, Structural)]
pub enum EscrowError {
    /// A caller-supplied platform identifier does not name the real host
    /// facility (system program or token program).
    IncorrectProgramId,
    /// The identity that must authorize the operation has not signed.
    MissingRequiredSignature,
    /// Create: the target escrow account already holds state.
    AccountAlreadyInitialized,
    /// Accept/Cancel: no escrow record exists at the referenced address, or a
    /// token account that must exist does not.
    UninitializedAccount,
    /// The referenced escrow account is not the address derived from the
    /// offer terms and the disambiguation tag.
    EscrowAddressMismatch,
    /// Create: the locked-asset account's asset type differs from the
    /// descriptor's offered asset type.
    TempAssetTypeMismatch,
    /// Create: the locked-asset account's balance differs from the
    /// descriptor's offered quantity.
    TempBalanceMismatch,
    /// Create: the seller's receive account is not typed for the demanded
    /// asset.
    ReceiveAssetTypeMismatch,
    /// Accept: the buyer's paying account is not typed for the demanded
    /// asset.
    StrikeAssetTypeMismatch,
    /// Accept: the buyer's paying account holds less than the demanded
    /// quantity.
    InsufficientStrikeBalance,
    /// Accept: the buyer's receive account is not typed for the offered
    /// asset.
    BuyerReceiveTypeMismatch,
    /// A caller-supplied seller identity differs from the one recorded at
    /// creation.
    SellerMainMismatch,
    /// The caller-supplied locked-asset account differs from the one recorded
    /// at creation.
    SellerTempMismatch,
    /// The caller-supplied seller receive account differs from the one
    /// recorded at creation.
    SellerReceiveMismatch,
    /// The asset subsystem refused an authority claim: the acting identity
    /// does not control the account.
    OwnerMismatch,
    /// The asset subsystem refused a transfer between accounts of different
    /// asset types.
    MintMismatch,
    /// A balance is too small to fund a required movement.
    InsufficientFunds,
    /// A balance would exceed the largest representable quantity.
    Overflow,
    /// A locked-asset account cannot be closed while it still holds a
    /// balance.
    NonNativeHasBalance,
    /// An escrow record account holds data of the wrong length.
    MalformedRecord,
    /// A request names an operation this program does not define.
    InvalidInstructionData,
    /// A request is shorter than the operation's declared layout.
    MalformedInstruction,
}

} // verus!
