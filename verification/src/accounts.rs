//! The execution environment at the interface the escrow core consumes:
//! fungible-asset accounts with balances and transfer authority, rent-funded
//! participant accounts, and the fixed-size storage slot that holds an escrow
//! record.
//!
//! The asset operations here enforce the authority model: every movement of
//! funds or change of control names an acting identity, and is refused with a
//! named rejection unless that identity has signed and currently controls the
//! source account.  Each operation either applies all of its effects or,
//! when refused, leaves every account exactly as it was.

use vstd::prelude::*;
use crate::bytes_util::bytes_eq;
use crate::error::EscrowError;
use crate::state::Address;

verus! {

/// The mathematical value of a participant account.
pub ghost struct PartyV {
    pub key: Seq<u8>,
    pub is_signer: bool,
    pub lamports: u64,
}

/// A participant in an operation: an identity, whether it has signed the
/// current request, and the rent balance it holds.
pub struct Party {
    pub key: Address,
    pub is_signer: bool,
    pub lamports: u64,
}

impl View for Party {
    type V = PartyV;

    open spec fn view(&self) -> PartyV {
        PartyV { key: self.key@, is_signer: self.is_signer, lamports: self.lamports }
    }
}

impl Party {
    /// Well-formed: the identity is a 32-byte address.
    pub open spec fn wf(&self) -> bool {
        self.key.wf()
    }
}

/// The mathematical value of a fungible-asset account.
pub ghost struct TokenAccountV {
    pub key: Seq<u8>,
    pub mint: Seq<u8>,
    pub amount: u64,
    pub owner: Seq<u8>,
    pub initialized: bool,
    pub lamports: u64,
}

/// A fungible-asset account: its address, the asset type it holds, its
/// balance, and the single identity with transfer authority over it.
pub struct TokenAccount {
    pub key: Address,
    pub mint: Address,
    pub amount: u64,
    pub owner: Address,
    pub initialized: bool,
    pub lamports: u64,
}

impl View for TokenAccount {
    type V = TokenAccountV;

    open spec fn view(&self) -> TokenAccountV {
        TokenAccountV {
            key: self.key@,
            mint: self.mint@,
            amount: self.amount,
            owner: self.owner@,
            initialized: self.initialized,
            lamports: self.lamports,
        }
    }
}

impl TokenAccount {
    /// Well-formed: every address held by the account is 32 bytes.
    pub open spec fn wf(&self) -> bool {
        self.key.wf() && self.mint.wf() && self.owner.wf()
    }
}

/// The mathematical value of an escrow storage slot.
pub ghost struct EscrowSlotV {
    pub key: Seq<u8>,
    pub data: Seq<u8>,
    pub lamports: u64,
}

/// The fixed-size storage slot at the escrow-controlled address.  An empty
/// slot means no offer exists there; an active offer fills it with the
/// 176-byte escrow record.
pub struct EscrowSlot {
    pub key: Address,
    pub data: Vec<u8>,
    pub lamports: u64,
}

impl View for EscrowSlot {
    type V = EscrowSlotV;

    open spec fn view(&self) -> EscrowSlotV {
        EscrowSlotV { key: self.key@, data: self.data@, lamports: self.lamports }
    }
}

impl EscrowSlot {
    /// Well-formed: the slot's address is 32 bytes.
    pub open spec fn wf(&self) -> bool {
        self.key.wf()
    }
}

/// Why a transfer of `qty` units from `from` to `to`, acting as `auth`,
/// would be refused — or `None` when it is allowed.
pub open spec fn transfer_check(
    from: TokenAccountV,
    to: TokenAccountV,
    qty: u64,
    auth: PartyV,
) -> Option<EscrowError> {
    if !auth.is_signer {
        Some(EscrowError::MissingRequiredSignature)
    } else if !from.initialized || !to.initialized {
        Some(EscrowError::UninitializedAccount)
    } else if auth.key != from.owner {
        Some(EscrowError::OwnerMismatch)
    } else if from.mint != to.mint {
        Some(EscrowError::MintMismatch)
    } else if from.amount < qty {
        Some(EscrowError::InsufficientFunds)
    } else if to.amount + qty > u64::MAX {
        Some(EscrowError::Overflow)
    } else {
        None
    }
}

/// Moves `qty` units from `from` to `to`, authorized by `auth`.  Succeeds
/// exactly when `auth` has signed and controls `from`, the two accounts hold
/// the same asset, `from` covers the quantity, and `to` can absorb it; a
/// refused transfer moves nothing.
pub fn transfer(from: &mut TokenAccount, to: &mut TokenAccount, qty: u64, auth: &Party) -> (r:
    Result<(), EscrowError>)
    ensures
        (r matches Err(e) ==> transfer_check(old(from)@, old(to)@, qty, auth@) == Some(e)
            && *final(from) == *old(from) && *final(to) == *old(to)),
        (r is Ok ==> transfer_check(old(from)@, old(to)@, qty, auth@) is None
            && final(from)@ == (TokenAccountV {
            amount: (old(from)@.amount - qty) as u64,
            ..old(from)@
        }) && final(to)@ == (TokenAccountV { amount: (old(to)@.amount + qty) as u64, ..old(to)@ })),
{
    if !auth.is_signer {
        return Err(EscrowError::MissingRequiredSignature);
    }
    if !from.initialized || !to.initialized {
        return Err(EscrowError::UninitializedAccount);
    }
    if !auth.key.eq_addr(&from.owner) {
        return Err(EscrowError::OwnerMismatch);
    }
    if !from.mint.eq_addr(&to.mint) {
        return Err(EscrowError::MintMismatch);
    }
    if from.amount < qty {
        return Err(EscrowError::InsufficientFunds);
    }
    if qty > u64::MAX - to.amount {
        return Err(EscrowError::Overflow);
    }
    from.amount = from.amount - qty;
    to.amount = to.amount + qty;
    Ok(())
}

/// Why handing control of `acc` to a new authority, acting as `auth`, would
/// be refused — or `None` when it is allowed.
pub open spec fn set_authority_check(acc: TokenAccountV, auth: PartyV) -> Option<EscrowError> {
    if !auth.is_signer {
        Some(EscrowError::MissingRequiredSignature)
    } else if !acc.initialized {
        Some(EscrowError::UninitializedAccount)
    } else if auth.key != acc.owner {
        Some(EscrowError::OwnerMismatch)
    } else {
        None
    }
}

/// Hands transfer authority over `acc` to `new_owner`, authorized by `auth`.
/// No balance moves; only control changes.
pub fn set_authority(acc: &mut TokenAccount, new_owner: &Address, auth: &Party) -> (r: Result<
    (),
    EscrowError,
>)
    ensures
        (r matches Err(e) ==> set_authority_check(old(acc)@, auth@) == Some(e)
            && *final(acc) == *old(acc)),
        (r is Ok ==> set_authority_check(old(acc)@, auth@) is None
            && final(acc)@ == (TokenAccountV { owner: new_owner@, ..old(acc)@ })),
{
    if !auth.is_signer {
        return Err(EscrowError::MissingRequiredSignature);
    }
    if !acc.initialized {
        return Err(EscrowError::UninitializedAccount);
    }
    if !auth.key.eq_addr(&acc.owner) {
        return Err(EscrowError::OwnerMismatch);
    }
    acc.owner = new_owner.dup();
    Ok(())
}

/// Why closing `acc` and refunding its rent balance to `dest`, acting as
/// `auth`, would be refused — or `None` when it is allowed.
pub open spec fn close_check(acc: TokenAccountV, dest: PartyV, auth: PartyV) -> Option<
    EscrowError,
> {
    if !auth.is_signer {
        Some(EscrowError::MissingRequiredSignature)
    } else if !acc.initialized {
        Some(EscrowError::UninitializedAccount)
    } else if auth.key != acc.owner {
        Some(EscrowError::OwnerMismatch)
    } else if acc.amount != 0 {
        Some(EscrowError::NonNativeHasBalance)
    } else if dest.lamports + acc.lamports > u64::MAX {
        Some(EscrowError::Overflow)
    } else {
        None
    }
}

/// Closes an emptied asset account, returning its rent balance to `dest`,
/// authorized by `auth`.  An account still holding a balance cannot be
/// closed.
pub fn close_token_account(acc: &mut TokenAccount, dest: &mut Party, auth: &Party) -> (r: Result<
    (),
    EscrowError,
>)
    ensures
        (r matches Err(e) ==> close_check(old(acc)@, old(dest)@, auth@) == Some(e)
            && *final(acc) == *old(acc) && *final(dest) == *old(dest)),
        (r is Ok ==> close_check(old(acc)@, old(dest)@, auth@) is None
            && final(acc)@ == (TokenAccountV { initialized: false, lamports: 0, ..old(acc)@ })
            && final(dest)@ == (PartyV {
            lamports: (old(dest)@.lamports + old(acc)@.lamports) as u64,
            ..old(dest)@
        })),
{
    if !auth.is_signer {
        return Err(EscrowError::MissingRequiredSignature);
    }
    if !acc.initialized {
        return Err(EscrowError::UninitializedAccount);
    }
    if !auth.key.eq_addr(&acc.owner) {
        return Err(EscrowError::OwnerMismatch);
    }
    if acc.amount != 0 {
        return Err(EscrowError::NonNativeHasBalance);
    }
    if acc.lamports > u64::MAX - dest.lamports {
        return Err(EscrowError::Overflow);
    }
    dest.lamports = dest.lamports + acc.lamports;
    acc.lamports = 0;
    acc.initialized = false;
    Ok(())
}

/// Authority exclusivity: an account controlled by the escrow address cannot
/// be touched by any other identity — a transfer of its funds, a change of
/// its authority, or its closure, acting as anyone but that address, is
/// refused, whatever the other inputs.
pub proof fn lemma_authority_exclusive(
    from: TokenAccountV,
    to: TokenAccountV,
    qty: u64,
    auth: PartyV,
    dest: PartyV,
    escrow_key: Seq<u8>,
)
    requires
        from.owner == escrow_key,
        auth.key != escrow_key,
    ensures
        transfer_check(from, to, qty, auth) is Some,
        set_authority_check(from, auth) is Some,
        close_check(from, dest, auth) is Some,
{
}

} // verus!
