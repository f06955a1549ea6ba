//! The offer state machine: Create, Accept and Cancel.
//!
//! Per (descriptor, tag) key the escrow slot is either absent (empty) or
//! active (holding the 176-byte record).  Each operation validates every
//! account reference and every balance and authority fact before performing
//! any effect, so a rejected operation — always with a named reason — leaves
//! every account exactly as it was, and a successful one applies all of its
//! effects.

use vstd::prelude::*;
use crate::accounts::{
    close_check, close_token_account, set_authority, set_authority_check, transfer,
    transfer_check, EscrowSlot, EscrowSlotV, Party, PartyV, TokenAccount, TokenAccountV,
};
use crate::authority::{derive_escrow_address, derives_to};
use crate::error::EscrowError;
use crate::state::{
    sha256_of, spec_offer_bytes, spec_parse_record, spec_record_bytes, Address, EscrowPDA,
    EscrowRecord, OfferData, OfferTerms,
};

verus! {

/// The system program's identifier: the 32-byte zero address.
pub open spec fn is_system_program_id(k: Seq<u8>) -> bool {
    k == Seq::new(32, |i: int| 0u8)
}

/// Relies on `solana_sdk_ids::system_program::check_id`: true exactly of the
/// system program's address, which is the all-ones base58 string, i.e. 32
/// zero bytes.
#[verifier::external_body]
fn check_system_program(key: &[u8]) -> (r: bool)
    requires
        key@.len() == 32,
    ensures
        r == is_system_program_id(key@),
{
    let k: [u8; 32] = key.try_into().unwrap();
    solana_sdk_ids::system_program::check_id(&solana_program::pubkey::Pubkey::new_from_array(k))
}

/// Whether an address is the token subsystem's program identifier, a fixed
/// 32-byte constant.
pub uninterp spec fn is_token_program_id(k: Seq<u8>) -> bool;

/// Relies on `spl_token::check_id`: true exactly of the token program's
/// fixed address.
#[verifier::external_body]
fn check_token_program(key: &[u8]) -> (r: bool)
    requires
        key@.len() == 32,
    ensures
        r == is_token_program_id(key@),
{
    let k: [u8; 32] = key.try_into().unwrap();
    spl_token::check_id(&solana_program::pubkey::Pubkey::new_from_array(k))
}

/// The acting identity of the escrow-controlled address: the host signs for
/// it exactly when this program supplies the original derivation seeds.
pub open spec fn escrow_auth(key: Seq<u8>) -> PartyV {
    PartyV { key: key, is_signer: true, lamports: 0 }
}

/// The record a successful Create writes: the offer terms plus the three
/// participant accounts supplied by the seller.
pub open spec fn created_record(
    offer: OfferTerms,
    seller: PartyV,
    temp: TokenAccountV,
    receive: TokenAccountV,
) -> EscrowRecord {
    EscrowRecord {
        offer_data: offer,
        seller_main: seller.key,
        seller_temp: temp.key,
        seller_receive: receive.key,
    }
}

/// Why a Create would be refused — the first failing precondition, in the
/// order the checks are made — or `None` when it succeeds.
pub open spec fn create_check(
    program_id: Seq<u8>,
    seller: PartyV,
    temp: TokenAccountV,
    receive: TokenAccountV,
    slot: EscrowSlotV,
    sys_program: Seq<u8>,
    token_program: Seq<u8>,
    offer: OfferTerms,
    tag: Seq<u8>,
    min_rent: u64,
) -> Option<EscrowError> {
    if !is_system_program_id(sys_program) {
        Some(EscrowError::IncorrectProgramId)
    } else if !is_token_program_id(token_program) {
        Some(EscrowError::IncorrectProgramId)
    } else if !seller.is_signer {
        Some(EscrowError::MissingRequiredSignature)
    } else if slot.data.len() != 0 {
        Some(EscrowError::AccountAlreadyInitialized)
    } else if !derives_to(sha256_of(spec_offer_bytes(offer)), tag, program_id, slot.key) {
        Some(EscrowError::EscrowAddressMismatch)
    } else if temp.mint != offer.token_type {
        Some(EscrowError::TempAssetTypeMismatch)
    } else if temp.amount != offer.token_qty {
        Some(EscrowError::TempBalanceMismatch)
    } else if receive.mint != offer.strike_type {
        Some(EscrowError::ReceiveAssetTypeMismatch)
    } else if seller.lamports < min_rent {
        Some(EscrowError::InsufficientFunds)
    } else if slot.lamports + min_rent > u64::MAX {
        Some(EscrowError::Overflow)
    } else {
        set_authority_check(temp, seller)
    }
}

/// Create: opens an offer.  On success the escrow slot is funded and filled
/// with the record, and transfer authority over the locked-asset account
/// passes from the seller to the escrow-controlled address; the locked
/// balance itself does not move.  On any rejection nothing changes.
pub fn create_offer(
    program_id: &Address,
    seller: &mut Party,
    seller_temp: &mut TokenAccount,
    seller_receive: &TokenAccount,
    escrow_pda: &mut EscrowSlot,
    sys_program: &Address,
    token_program: &Address,
    offer_data: &OfferData,
    index_seed: &[u8],
    min_rent: u64,
) -> (r: Result<(), EscrowError>)
    requires
        program_id.wf(),
        old(seller).wf(),
        old(seller_temp).wf(),
        seller_receive.wf(),
        old(escrow_pda).wf(),
        sys_program.wf(),
        token_program.wf(),
        offer_data.wf(),
        index_seed@.len() == 28,
    ensures
        (r matches Err(e) ==> create_check(
            program_id@,
            old(seller)@,
            old(seller_temp)@,
            seller_receive@,
            old(escrow_pda)@,
            sys_program@,
            token_program@,
            offer_data@,
            index_seed@,
            min_rent,
        ) == Some(e) && *final(seller) == *old(seller) && *final(seller_temp) == *old(seller_temp)
            && *final(escrow_pda) == *old(escrow_pda)),
        (r is Ok ==> create_check(
            program_id@,
            old(seller)@,
            old(seller_temp)@,
            seller_receive@,
            old(escrow_pda)@,
            sys_program@,
            token_program@,
            offer_data@,
            index_seed@,
            min_rent,
        ) is None && final(seller)@ == (PartyV {
            lamports: (old(seller)@.lamports - min_rent) as u64,
            ..old(seller)@
        }) && final(seller_temp)@ == (TokenAccountV {
            owner: old(escrow_pda)@.key,
            ..old(seller_temp)@
        }) && final(escrow_pda)@ == (EscrowSlotV {
            data: spec_record_bytes(
                created_record(offer_data@, old(seller)@, old(seller_temp)@, seller_receive@),
            ),
            lamports: (old(escrow_pda)@.lamports + min_rent) as u64,
            ..old(escrow_pda)@
        })),
{
    if !check_system_program(sys_program.bytes.as_slice()) {
        return Err(EscrowError::IncorrectProgramId);
    }
    if !check_token_program(token_program.bytes.as_slice()) {
        return Err(EscrowError::IncorrectProgramId);
    }
    if !seller.is_signer {
        return Err(EscrowError::MissingRequiredSignature);
    }
    if escrow_pda.data.len() != 0 {
        return Err(EscrowError::AccountAlreadyInitialized);
    }
    let derived = derive_escrow_address(offer_data, index_seed, program_id);
    let derivation_hit = match &derived {
        Some(p) => p.0.eq_addr(&escrow_pda.key),
        None => false,
    };
    if !derivation_hit {
        return Err(EscrowError::EscrowAddressMismatch);
    }
    if !seller_temp.mint.eq_addr(&offer_data.token_type) {
        return Err(EscrowError::TempAssetTypeMismatch);
    }
    if seller_temp.amount != offer_data.token_qty {
        return Err(EscrowError::TempBalanceMismatch);
    }
    if !seller_receive.mint.eq_addr(&offer_data.strike_type) {
        return Err(EscrowError::ReceiveAssetTypeMismatch);
    }
    if seller.lamports < min_rent {
        return Err(EscrowError::InsufficientFunds);
    }
    if min_rent > u64::MAX - escrow_pda.lamports {
        return Err(EscrowError::Overflow);
    }
    if !seller_temp.initialized {
        return Err(EscrowError::UninitializedAccount);
    }
    if !seller.key.eq_addr(&seller_temp.owner) {
        return Err(EscrowError::OwnerMismatch);
    }
    // Effects: fund and fill the escrow slot, then delegate authority over
    // the locked account to the escrow-controlled address.
    seller.lamports = seller.lamports - min_rent;
    escrow_pda.lamports = escrow_pda.lamports + min_rent;
    let record = EscrowPDA {
        offer_data: offer_data.dup(),
        seller_main: seller.key.dup(),
        seller_temp: seller_temp.key.dup(),
        seller_receive: seller_receive.key.dup(),
    };
    record.pack_into_slice(&mut escrow_pda.data);
    let auth = Party { key: seller.key.dup(), is_signer: true, lamports: 0 };
    match set_authority(seller_temp, &escrow_pda.key, &auth) {
        Ok(()) => Ok(()),
        Err(e) => {
            proof {
                assert(false);
            }
            Err(e)
        },
    }
}

/// Why an Accept would be refused — the first failing precondition, in the
/// order the checks are made — or `None` when it succeeds.
pub open spec fn accept_check(
    program_id: Seq<u8>,
    buyer: PartyV,
    strike_acc: TokenAccountV,
    buyer_receive: TokenAccountV,
    slot: EscrowSlotV,
    seller: PartyV,
    seller_temp: TokenAccountV,
    seller_receive: TokenAccountV,
    sys_program: Seq<u8>,
    token_program: Seq<u8>,
    tag: Seq<u8>,
) -> Option<EscrowError> {
    let record = spec_parse_record(slot.data);
    if !is_system_program_id(sys_program) {
        Some(EscrowError::IncorrectProgramId)
    } else if !is_token_program_id(token_program) {
        Some(EscrowError::IncorrectProgramId)
    } else if !buyer.is_signer {
        Some(EscrowError::MissingRequiredSignature)
    } else if slot.data.len() == 0 {
        Some(EscrowError::UninitializedAccount)
    } else if slot.data.len() != 176 {
        Some(EscrowError::MalformedRecord)
    } else if strike_acc.mint != record.offer_data.strike_type {
        Some(EscrowError::StrikeAssetTypeMismatch)
    } else if strike_acc.amount < record.offer_data.strike_qty {
        Some(EscrowError::InsufficientStrikeBalance)
    } else if buyer_receive.mint != record.offer_data.token_type {
        Some(EscrowError::BuyerReceiveTypeMismatch)
    } else if seller.key != record.seller_main {
        Some(EscrowError::SellerMainMismatch)
    } else if seller_temp.key != record.seller_temp {
        Some(EscrowError::SellerTempMismatch)
    } else if seller_receive.key != record.seller_receive {
        Some(EscrowError::SellerReceiveMismatch)
    } else if !derives_to(
        sha256_of(spec_offer_bytes(record.offer_data)),
        tag,
        program_id,
        slot.key,
    ) {
        Some(EscrowError::EscrowAddressMismatch)
    } else if transfer_check(
        seller_temp,
        buyer_receive,
        record.offer_data.token_qty,
        escrow_auth(slot.key),
    ) is Some {
        transfer_check(seller_temp, buyer_receive, record.offer_data.token_qty, escrow_auth(slot.key))
    } else if transfer_check(strike_acc, seller_receive, record.offer_data.strike_qty, buyer)
        is Some {
        transfer_check(strike_acc, seller_receive, record.offer_data.strike_qty, buyer)
    } else if close_check(
        TokenAccountV {
            amount: (seller_temp.amount - record.offer_data.token_qty) as u64,
            ..seller_temp
        },
        seller,
        escrow_auth(slot.key),
    ) is Some {
        close_check(
            TokenAccountV {
                amount: (seller_temp.amount - record.offer_data.token_qty) as u64,
                ..seller_temp
            },
            seller,
            escrow_auth(slot.key),
        )
    } else if seller.lamports + seller_temp.lamports + slot.lamports > u64::MAX {
        Some(EscrowError::Overflow)
    } else {
        None
    }
}

/// Accept: settles an offer.  Exactly the offered quantity moves from the
/// locked account to the buyer's receive account, exactly the demanded
/// quantity moves from the buyer's paying account to the seller's receive
/// account (overpayment stays with the buyer), the emptied locked account is
/// closed, and the record slot is zeroed and reclaimed, its rent returned to
/// the seller.  On any rejection nothing changes.
pub fn accept_offer(
    program_id: &Address,
    buyer: &Party,
    strike_acc: &mut TokenAccount,
    buyer_receive: &mut TokenAccount,
    escrow_pda: &mut EscrowSlot,
    seller: &mut Party,
    seller_temp: &mut TokenAccount,
    seller_receive: &mut TokenAccount,
    sys_program: &Address,
    token_program: &Address,
    index_seed: &[u8],
) -> (r: Result<(), EscrowError>)
    requires
        program_id.wf(),
        buyer.wf(),
        old(strike_acc).wf(),
        old(buyer_receive).wf(),
        old(escrow_pda).wf(),
        old(seller).wf(),
        old(seller_temp).wf(),
        old(seller_receive).wf(),
        sys_program.wf(),
        token_program.wf(),
        index_seed@.len() == 28,
    ensures
        (r matches Err(e) ==> accept_check(
            program_id@,
            buyer@,
            old(strike_acc)@,
            old(buyer_receive)@,
            old(escrow_pda)@,
            old(seller)@,
            old(seller_temp)@,
            old(seller_receive)@,
            sys_program@,
            token_program@,
            index_seed@,
        ) == Some(e) && *final(strike_acc) == *old(strike_acc) && *final(buyer_receive) == *old(buyer_receive)
            && *final(escrow_pda) == *old(escrow_pda) && *final(seller) == *old(seller)
            && *final(seller_temp) == *old(seller_temp)
            && *final(seller_receive) == *old(seller_receive)),
        (r is Ok ==> accept_check(
            program_id@,
            buyer@,
            old(strike_acc)@,
            old(buyer_receive)@,
            old(escrow_pda)@,
            old(seller)@,
            old(seller_temp)@,
            old(seller_receive)@,
            sys_program@,
            token_program@,
            index_seed@,
        ) is None && ({
            let record = spec_parse_record(old(escrow_pda)@.data);
            &&& final(seller_temp)@ == (TokenAccountV {
                amount: 0,
                initialized: false,
                lamports: 0,
                ..old(seller_temp)@
            })
            &&& final(buyer_receive)@ == (TokenAccountV {
                amount: (old(buyer_receive)@.amount + record.offer_data.token_qty) as u64,
                ..old(buyer_receive)@
            })
            &&& final(strike_acc)@ == (TokenAccountV {
                amount: (old(strike_acc)@.amount - record.offer_data.strike_qty) as u64,
                ..old(strike_acc)@
            })
            &&& final(seller_receive)@ == (TokenAccountV {
                amount: (old(seller_receive)@.amount + record.offer_data.strike_qty) as u64,
                ..old(seller_receive)@
            })
            &&& final(escrow_pda)@ == (EscrowSlotV {
                data: Seq::empty(),
                lamports: 0,
                ..old(escrow_pda)@
            })
            &&& final(seller)@ == (PartyV {
                lamports: (old(seller)@.lamports + old(seller_temp)@.lamports
                    + old(escrow_pda)@.lamports) as u64,
                ..old(seller)@
            })
        })),
{
    if !check_system_program(sys_program.bytes.as_slice()) {
        return Err(EscrowError::IncorrectProgramId);
    }
    if !check_token_program(token_program.bytes.as_slice()) {
        return Err(EscrowError::IncorrectProgramId);
    }
    if !buyer.is_signer {
        return Err(EscrowError::MissingRequiredSignature);
    }
    if escrow_pda.data.len() == 0 {
        return Err(EscrowError::UninitializedAccount);
    }
    let record = match EscrowPDA::unpack_from_slice(escrow_pda.data.as_slice()) {
        Ok(rec) => rec,
        Err(e) => {
            return Err(e);
        },
    };
    if !strike_acc.mint.eq_addr(&record.offer_data.strike_type) {
        return Err(EscrowError::StrikeAssetTypeMismatch);
    }
    if strike_acc.amount < record.offer_data.strike_qty {
        return Err(EscrowError::InsufficientStrikeBalance);
    }
    if !buyer_receive.mint.eq_addr(&record.offer_data.token_type) {
        return Err(EscrowError::BuyerReceiveTypeMismatch);
    }
    if !seller.key.eq_addr(&record.seller_main) {
        return Err(EscrowError::SellerMainMismatch);
    }
    if !seller_temp.key.eq_addr(&record.seller_temp) {
        return Err(EscrowError::SellerTempMismatch);
    }
    if !seller_receive.key.eq_addr(&record.seller_receive) {
        return Err(EscrowError::SellerReceiveMismatch);
    }
    let derived = derive_escrow_address(&record.offer_data, index_seed, program_id);
    let derivation_hit = match &derived {
        Some(p) => p.0.eq_addr(&escrow_pda.key),
        None => false,
    };
    if !derivation_hit {
        return Err(EscrowError::EscrowAddressMismatch);
    }
    // Preconditions of the asset movements, checked before any of them runs.
    if !seller_temp.initialized || !buyer_receive.initialized {
        return Err(EscrowError::UninitializedAccount);
    }
    if !escrow_pda.key.eq_addr(&seller_temp.owner) {
        return Err(EscrowError::OwnerMismatch);
    }
    if !seller_temp.mint.eq_addr(&buyer_receive.mint) {
        return Err(EscrowError::MintMismatch);
    }
    if seller_temp.amount < record.offer_data.token_qty {
        return Err(EscrowError::InsufficientFunds);
    }
    if record.offer_data.token_qty > u64::MAX - buyer_receive.amount {
        return Err(EscrowError::Overflow);
    }
    if !strike_acc.initialized || !seller_receive.initialized {
        return Err(EscrowError::UninitializedAccount);
    }
    if !buyer.key.eq_addr(&strike_acc.owner) {
        return Err(EscrowError::OwnerMismatch);
    }
    if !strike_acc.mint.eq_addr(&seller_receive.mint) {
        return Err(EscrowError::MintMismatch);
    }
    if record.offer_data.strike_qty > u64::MAX - seller_receive.amount {
        return Err(EscrowError::Overflow);
    }
    if seller_temp.amount != record.offer_data.token_qty {
        return Err(EscrowError::NonNativeHasBalance);
    }
    if seller_temp.lamports > u64::MAX - seller.lamports {
        return Err(EscrowError::Overflow);
    }
    let refunded = seller.lamports + seller_temp.lamports;
    if escrow_pda.lamports > u64::MAX - refunded {
        return Err(EscrowError::Overflow);
    }
    // Effects, all of whose preconditions now hold.
    let auth = Party { key: escrow_pda.key.dup(), is_signer: true, lamports: 0 };
    match transfer(seller_temp, buyer_receive, record.offer_data.token_qty, &auth) {
        Ok(()) => (),
        Err(e) => {
            proof {
                assert(false);
            }
            return Err(e);
        },
    }
    match transfer(strike_acc, seller_receive, record.offer_data.strike_qty, buyer) {
        Ok(()) => (),
        Err(e) => {
            proof {
                assert(false);
            }
            return Err(e);
        },
    }
    match close_token_account(seller_temp, seller, &auth) {
        Ok(()) => (),
        Err(e) => {
            proof {
                assert(false);
            }
            return Err(e);
        },
    }
    escrow_pda.data = Vec::new();
    seller.lamports = seller.lamports + escrow_pda.lamports;
    escrow_pda.lamports = 0;
    Ok(())
}

/// Why a Cancel would be refused — the first failing precondition, in the
/// order the checks are made — or `None` when it succeeds.
pub open spec fn cancel_check(
    program_id: Seq<u8>,
    seller: PartyV,
    seller_temp: TokenAccountV,
    seller_receive_key: Seq<u8>,
    slot: EscrowSlotV,
    sys_program: Seq<u8>,
    token_program: Seq<u8>,
    tag: Seq<u8>,
) -> Option<EscrowError> {
    let record = spec_parse_record(slot.data);
    if !is_system_program_id(sys_program) {
        Some(EscrowError::IncorrectProgramId)
    } else if !is_token_program_id(token_program) {
        Some(EscrowError::IncorrectProgramId)
    } else if slot.data.len() == 0 {
        Some(EscrowError::UninitializedAccount)
    } else if slot.data.len() != 176 {
        Some(EscrowError::MalformedRecord)
    } else if seller.key != record.seller_main {
        Some(EscrowError::SellerMainMismatch)
    } else if seller_temp.key != record.seller_temp {
        Some(EscrowError::SellerTempMismatch)
    } else if seller_receive_key != record.seller_receive {
        Some(EscrowError::SellerReceiveMismatch)
    } else if !seller.is_signer {
        Some(EscrowError::MissingRequiredSignature)
    } else if !derives_to(
        sha256_of(spec_offer_bytes(record.offer_data)),
        tag,
        program_id,
        slot.key,
    ) {
        Some(EscrowError::EscrowAddressMismatch)
    } else if set_authority_check(seller_temp, escrow_auth(slot.key)) is Some {
        set_authority_check(seller_temp, escrow_auth(slot.key))
    } else if seller.lamports + slot.lamports > u64::MAX {
        Some(EscrowError::Overflow)
    } else {
        None
    }
}

/// Cancel: aborts an offer.  Transfer authority over the locked account
/// returns from the escrow-controlled address to the seller — no asset
/// moves, and the locked balance is not re-examined — and the record slot is
/// zeroed and reclaimed, its rent returned to the seller.  On any rejection
/// nothing changes.
pub fn cancel_offer(
    program_id: &Address,
    seller: &mut Party,
    seller_temp: &mut TokenAccount,
    seller_receive: &Address,
    escrow_pda: &mut EscrowSlot,
    sys_program: &Address,
    token_program: &Address,
    index_seed: &[u8],
) -> (r: Result<(), EscrowError>)
    requires
        program_id.wf(),
        old(seller).wf(),
        old(seller_temp).wf(),
        seller_receive.wf(),
        old(escrow_pda).wf(),
        sys_program.wf(),
        token_program.wf(),
        index_seed@.len() == 28,
    ensures
        (r matches Err(e) ==> cancel_check(
            program_id@,
            old(seller)@,
            old(seller_temp)@,
            seller_receive@,
            old(escrow_pda)@,
            sys_program@,
            token_program@,
            index_seed@,
        ) == Some(e) && *final(seller) == *old(seller) && *final(seller_temp) == *old(seller_temp)
            && *final(escrow_pda) == *old(escrow_pda)),
        (r is Ok ==> cancel_check(
            program_id@,
            old(seller)@,
            old(seller_temp)@,
            seller_receive@,
            old(escrow_pda)@,
            sys_program@,
            token_program@,
            index_seed@,
        ) is None && final(seller_temp)@ == (TokenAccountV {
            owner: old(seller)@.key,
            ..old(seller_temp)@
        }) && final(escrow_pda)@ == (EscrowSlotV {
            data: Seq::empty(),
            lamports: 0,
            ..old(escrow_pda)@
        }) && final(seller)@ == (PartyV {
            lamports: (old(seller)@.lamports + old(escrow_pda)@.lamports) as u64,
            ..old(seller)@
        })),
{
    if !check_system_program(sys_program.bytes.as_slice()) {
        return Err(EscrowError::IncorrectProgramId);
    }
    if !check_token_program(token_program.bytes.as_slice()) {
        return Err(EscrowError::IncorrectProgramId);
    }
    if escrow_pda.data.len() == 0 {
        return Err(EscrowError::UninitializedAccount);
    }
    let record = match EscrowPDA::unpack_from_slice(escrow_pda.data.as_slice()) {
        Ok(rec) => rec,
        Err(e) => {
            return Err(e);
        },
    };
    if !seller.key.eq_addr(&record.seller_main) {
        return Err(EscrowError::SellerMainMismatch);
    }
    if !seller_temp.key.eq_addr(&record.seller_temp) {
        return Err(EscrowError::SellerTempMismatch);
    }
    if !seller_receive.eq_addr(&record.seller_receive) {
        return Err(EscrowError::SellerReceiveMismatch);
    }
    if !seller.is_signer {
        return Err(EscrowError::MissingRequiredSignature);
    }
    let derived = derive_escrow_address(&record.offer_data, index_seed, program_id);
    let derivation_hit = match &derived {
        Some(p) => p.0.eq_addr(&escrow_pda.key),
        None => false,
    };
    if !derivation_hit {
        return Err(EscrowError::EscrowAddressMismatch);
    }
    if !seller_temp.initialized {
        return Err(EscrowError::UninitializedAccount);
    }
    if !escrow_pda.key.eq_addr(&seller_temp.owner) {
        return Err(EscrowError::OwnerMismatch);
    }
    if escrow_pda.lamports > u64::MAX - seller.lamports {
        return Err(EscrowError::Overflow);
    }
    // Effects: hand control back to the seller, then reclaim the slot.
    let auth = Party { key: escrow_pda.key.dup(), is_signer: true, lamports: 0 };
    match set_authority(seller_temp, &seller.key, &auth) {
        Ok(()) => (),
        Err(e) => {
            proof {
                assert(false);
            }
            return Err(e);
        },
    }
    escrow_pda.data = Vec::new();
    seller.lamports = seller.lamports + escrow_pda.lamports;
    escrow_pda.lamports = 0;
    Ok(())
}

/// Idempotent closure: once the slot at an address is empty — as it is after
/// a successful Accept or Cancel — a second Accept or Cancel against that
/// slot is refused as "record not found", and the operations' contracts then
/// leave every account untouched.
pub proof fn lemma_closed_record_rejects(
    program_id: Seq<u8>,
    buyer: PartyV,
    strike_acc: TokenAccountV,
    buyer_receive: TokenAccountV,
    slot: EscrowSlotV,
    seller: PartyV,
    seller_temp: TokenAccountV,
    seller_receive: TokenAccountV,
    sys_program: Seq<u8>,
    token_program: Seq<u8>,
    tag: Seq<u8>,
)
    requires
        slot.data.len() == 0,
    ensures
        (is_system_program_id(sys_program) && is_token_program_id(token_program)
            && buyer.is_signer) ==> accept_check(
            program_id,
            buyer,
            strike_acc,
            buyer_receive,
            slot,
            seller,
            seller_temp,
            seller_receive,
            sys_program,
            token_program,
            tag,
        ) == Some(EscrowError::UninitializedAccount),
        (is_system_program_id(sys_program) && is_token_program_id(token_program)) ==> cancel_check(
            program_id,
            seller,
            seller_temp,
            seller_receive.key,
            slot,
            sys_program,
            token_program,
            tag,
        ) == Some(EscrowError::UninitializedAccount),
{
}

/// Re-offer after cancel: once the slot is reclaimed, a new Create with the
/// same descriptor and tag — or any other — is accepted again whenever its
/// own preconditions hold, and the record it writes is built from the new
/// operation's inputs alone.
pub proof fn lemma_reoffer_after_cancel(
    program_id: Seq<u8>,
    seller: PartyV,
    temp: TokenAccountV,
    receive: TokenAccountV,
    slot: EscrowSlotV,
    sys_program: Seq<u8>,
    token_program: Seq<u8>,
    offer: OfferTerms,
    tag: Seq<u8>,
    min_rent: u64,
)
    requires
        slot.data.len() == 0,
        seller.is_signer,
        temp.mint == offer.token_type,
        temp.amount == offer.token_qty,
        receive.mint == offer.strike_type,
        min_rent <= seller.lamports,
        slot.lamports + min_rent <= u64::MAX,
        temp.initialized,
        temp.owner == seller.key,
    ensures
        (is_system_program_id(sys_program) && is_token_program_id(token_program) && derives_to(
            sha256_of(spec_offer_bytes(offer)),
            tag,
            program_id,
            slot.key,
        )) ==> create_check(
            program_id,
            seller,
            temp,
            receive,
            slot,
            sys_program,
            token_program,
            offer,
            tag,
            min_rent,
        ) is None,
{
}

} // verus!
