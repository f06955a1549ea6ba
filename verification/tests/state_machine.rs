//! End-to-end runs of the offer state machine over the modeled environment,
//! with the real digest, derivation and program-id checks linked in.

use escrow::accounts::{close_token_account, transfer, EscrowSlot, Party, TokenAccount};
use escrow::authority::derive_escrow_address;
use escrow::error::EscrowError;
use escrow::processor::{accept_offer, cancel_offer, create_offer};
use escrow::state::{Address, EscrowPDA, OfferData};

fn addr(b: u8) -> Address {
    Address { bytes: vec![b; 32] }
}

fn offer_data(token: u8, token_qty: u64, strike: u8, strike_qty: u64) -> OfferData {
    OfferData {
        token_type: addr(token),
        token_qty,
        strike_type: addr(strike),
        strike_qty,
    }
}

struct TestEnv {
    program_id: Address,
    seller: Party,
    seller_temp: TokenAccount,
    seller_receive: TokenAccount,
    escrow_pda: EscrowSlot,
    sys_program: Address,
    token_program: Address,
    offer: OfferData,
    tag: [u8; 28],
    min_rent: u64,
    buyer: Party,
    strike_acc: TokenAccount,
    buyer_receive: TokenAccount,
}

const TEMP_RENT: u64 = 2_039_280;
const RECORD_RENT: u64 = 2_000_000;

fn init_env() -> TestEnv {
    let program_id = addr(99);
    let offer = offer_data(1, 5, 2, 5);
    let tag = [7u8; 28];
    let (pda, _bump) =
        derive_escrow_address(&offer, &tag, &program_id).expect("no derivable address");
    TestEnv {
        seller: Party { key: addr(10), is_signer: true, lamports: 100_000_000 },
        seller_temp: TokenAccount {
            key: addr(11),
            mint: addr(1),
            amount: 5,
            owner: addr(10),
            initialized: true,
            lamports: TEMP_RENT,
        },
        seller_receive: TokenAccount {
            key: addr(12),
            mint: addr(2),
            amount: 0,
            owner: addr(10),
            initialized: true,
            lamports: TEMP_RENT,
        },
        escrow_pda: EscrowSlot { key: pda, data: vec![], lamports: 0 },
        sys_program: Address { bytes: vec![0u8; 32] },
        token_program: Address { bytes: spl_token::id().to_bytes().to_vec() },
        buyer: Party { key: addr(20), is_signer: true, lamports: 50_000_000 },
        strike_acc: TokenAccount {
            key: addr(21),
            mint: addr(2),
            amount: 5,
            owner: addr(20),
            initialized: true,
            lamports: TEMP_RENT,
        },
        buyer_receive: TokenAccount {
            key: addr(22),
            mint: addr(1),
            amount: 0,
            owner: addr(20),
            initialized: true,
            lamports: TEMP_RENT,
        },
        program_id,
        offer,
        tag,
        min_rent: RECORD_RENT,
    }
}

fn do_create(env: &mut TestEnv) -> Result<(), EscrowError> {
    create_offer(
        &env.program_id,
        &mut env.seller,
        &mut env.seller_temp,
        &env.seller_receive,
        &mut env.escrow_pda,
        &env.sys_program,
        &env.token_program,
        &env.offer,
        &env.tag,
        env.min_rent,
    )
}

fn do_accept(env: &mut TestEnv) -> Result<(), EscrowError> {
    accept_offer(
        &env.program_id,
        &env.buyer,
        &mut env.strike_acc,
        &mut env.buyer_receive,
        &mut env.escrow_pda,
        &mut env.seller,
        &mut env.seller_temp,
        &mut env.seller_receive,
        &env.sys_program,
        &env.token_program,
        &env.tag,
    )
}

fn do_cancel(env: &mut TestEnv) -> Result<(), EscrowError> {
    cancel_offer(
        &env.program_id,
        &mut env.seller,
        &mut env.seller_temp,
        &env.seller_receive.key,
        &mut env.escrow_pda,
        &env.sys_program,
        &env.token_program,
        &env.tag,
    )
}

#[test]
fn test_offer_accept() {
    let mut env = init_env();
    do_create(&mut env).unwrap();

    // The record holds exactly the terms and accounts of the request.
    let expected = EscrowPDA {
        offer_data: offer_data(1, 5, 2, 5),
        seller_main: addr(10),
        seller_temp: addr(11),
        seller_receive: addr(12),
    };
    let stored = EscrowPDA::unpack_from_slice(&env.escrow_pda.data).unwrap();
    assert_eq!(stored, expected);
    assert_eq!(env.escrow_pda.lamports, RECORD_RENT);
    assert_eq!(env.seller.lamports, 100_000_000 - RECORD_RENT);
    // Authority over the locked account now lies with the escrow address...
    assert!(env.seller_temp.owner.eq_addr(&env.escrow_pda.key));
    assert_eq!(env.seller_temp.amount, 5);

    // ...so the seller can no longer move the locked funds.
    let mut stash = TokenAccount {
        key: addr(30),
        mint: addr(1),
        amount: 0,
        owner: addr(10),
        initialized: true,
        lamports: TEMP_RENT,
    };
    let seller_auth =
        Party { key: env.seller.key.dup(), is_signer: true, lamports: 0 };
    assert_eq!(
        transfer(&mut env.seller_temp, &mut stash, 5, &seller_auth).unwrap_err(),
        EscrowError::OwnerMismatch
    );
    assert_eq!(env.seller_temp.amount, 5);
    assert_eq!(stash.amount, 0);

    do_accept(&mut env).unwrap();
    // Exactly 5 of asset A to the buyer, exactly 5 of asset B to the seller.
    assert_eq!(env.buyer_receive.amount, 5);
    assert_eq!(env.strike_acc.amount, 0);
    assert_eq!(env.seller_receive.amount, 5);
    // The locked account was emptied and closed, the record reclaimed, and
    // both rent balances returned to the seller.
    assert!(!env.seller_temp.initialized);
    assert_eq!(env.seller_temp.amount, 0);
    assert!(env.escrow_pda.data.is_empty());
    assert_eq!(env.escrow_pda.lamports, 0);
    assert_eq!(env.seller.lamports, 100_000_000 + TEMP_RENT);

    // A second Accept finds no record and moves nothing.
    assert_eq!(do_accept(&mut env).unwrap_err(), EscrowError::UninitializedAccount);
    assert_eq!(env.buyer_receive.amount, 5);
    assert_eq!(env.seller_receive.amount, 5);
}

#[test]
fn test_offer_cancel() {
    let mut env = init_env();
    do_create(&mut env).unwrap();
    do_cancel(&mut env).unwrap();

    // Control of the locked account is back with the seller, its balance
    // untouched, and the record is gone with its rent returned.
    assert!(env.seller_temp.owner.eq_addr(&env.seller.key));
    assert_eq!(env.seller_temp.amount, 5);
    assert!(env.escrow_pda.data.is_empty());
    assert_eq!(env.escrow_pda.lamports, 0);
    assert_eq!(env.seller.lamports, 100_000_000);

    // The seller can now move the funds out and close the account.
    let mut stash = TokenAccount {
        key: addr(30),
        mint: addr(1),
        amount: 0,
        owner: addr(10),
        initialized: true,
        lamports: TEMP_RENT,
    };
    let seller_auth =
        Party { key: env.seller.key.dup(), is_signer: true, lamports: 0 };
    transfer(&mut env.seller_temp, &mut stash, 5, &seller_auth).unwrap();
    assert_eq!(stash.amount, 5);
    close_token_account(&mut env.seller_temp, &mut env.seller, &seller_auth).unwrap();
    assert!(!env.seller_temp.initialized);
    assert_eq!(env.seller.lamports, 100_000_000 + TEMP_RENT);

    // A second Cancel finds no record.
    assert_eq!(do_cancel(&mut env).unwrap_err(), EscrowError::UninitializedAccount);
}

#[test]
fn test_cancel_recreate() {
    let mut env = init_env();
    do_create(&mut env).unwrap();
    do_cancel(&mut env).unwrap();

    // The same descriptor and tag can be offered again: the slot was fully
    // reclaimed, and the new record is built from the new request alone.
    do_create(&mut env).unwrap();
    let stored = EscrowPDA::unpack_from_slice(&env.escrow_pda.data).unwrap();
    assert!(stored.seller_main.eq_addr(&env.seller.key));
    assert!(env.seller_temp.owner.eq_addr(&env.escrow_pda.key));

    do_accept(&mut env).unwrap();
    assert_eq!(env.buyer_receive.amount, 5);
    assert_eq!(env.seller_receive.amount, 5);
    assert!(env.escrow_pda.data.is_empty());
}

#[test]
fn create_rejects_underfunded_lock() {
    // The descriptor demands 5 locked, the account holds 4: a terms
    // violation, and no account is created.
    let mut env = init_env();
    env.seller_temp.amount = 4;
    assert_eq!(do_create(&mut env).unwrap_err(), EscrowError::TempBalanceMismatch);
    assert!(env.escrow_pda.data.is_empty());
    assert_eq!(env.escrow_pda.lamports, 0);
    assert_eq!(env.seller.lamports, 100_000_000);
    assert!(env.seller_temp.owner.eq_addr(&env.seller.key));
}

#[test]
fn create_rejections_are_named() {
    let mut env = init_env();
    env.sys_program = addr(5);
    assert_eq!(do_create(&mut env).unwrap_err(), EscrowError::IncorrectProgramId);

    let mut env = init_env();
    env.token_program = addr(5);
    assert_eq!(do_create(&mut env).unwrap_err(), EscrowError::IncorrectProgramId);

    let mut env = init_env();
    env.seller.is_signer = false;
    assert_eq!(do_create(&mut env).unwrap_err(), EscrowError::MissingRequiredSignature);

    let mut env = init_env();
    env.escrow_pda.data = vec![1u8; 176];
    assert_eq!(do_create(&mut env).unwrap_err(), EscrowError::AccountAlreadyInitialized);

    let mut env = init_env();
    env.escrow_pda.key = addr(33);
    assert_eq!(do_create(&mut env).unwrap_err(), EscrowError::EscrowAddressMismatch);

    let mut env = init_env();
    env.seller_temp.mint = addr(3);
    assert_eq!(do_create(&mut env).unwrap_err(), EscrowError::TempAssetTypeMismatch);

    let mut env = init_env();
    env.seller_receive.mint = addr(3);
    assert_eq!(do_create(&mut env).unwrap_err(), EscrowError::ReceiveAssetTypeMismatch);

    let mut env = init_env();
    env.seller.lamports = RECORD_RENT - 1;
    assert_eq!(do_create(&mut env).unwrap_err(), EscrowError::InsufficientFunds);

    let mut env = init_env();
    env.seller_temp.initialized = false;
    assert_eq!(do_create(&mut env).unwrap_err(), EscrowError::UninitializedAccount);

    let mut env = init_env();
    env.seller_temp.owner = addr(50);
    assert_eq!(do_create(&mut env).unwrap_err(), EscrowError::OwnerMismatch);
}

#[test]
fn accept_rejections_are_named() {
    let mut env = init_env();
    do_create(&mut env).unwrap();
    env.strike_acc.mint = addr(3);
    assert_eq!(do_accept(&mut env).unwrap_err(), EscrowError::StrikeAssetTypeMismatch);

    let mut env = init_env();
    do_create(&mut env).unwrap();
    env.strike_acc.amount = 4;
    assert_eq!(do_accept(&mut env).unwrap_err(), EscrowError::InsufficientStrikeBalance);
    assert_eq!(env.strike_acc.amount, 4);
    assert_eq!(env.buyer_receive.amount, 0);

    let mut env = init_env();
    do_create(&mut env).unwrap();
    env.buyer_receive.mint = addr(3);
    assert_eq!(do_accept(&mut env).unwrap_err(), EscrowError::BuyerReceiveTypeMismatch);

    let mut env = init_env();
    do_create(&mut env).unwrap();
    env.seller.key = addr(40);
    assert_eq!(do_accept(&mut env).unwrap_err(), EscrowError::SellerMainMismatch);

    let mut env = init_env();
    do_create(&mut env).unwrap();
    env.seller_temp.key = addr(41);
    assert_eq!(do_accept(&mut env).unwrap_err(), EscrowError::SellerTempMismatch);

    let mut env = init_env();
    do_create(&mut env).unwrap();
    env.seller_receive.key = addr(42);
    assert_eq!(do_accept(&mut env).unwrap_err(), EscrowError::SellerReceiveMismatch);

    let mut env = init_env();
    do_create(&mut env).unwrap();
    env.buyer.is_signer = false;
    assert_eq!(do_accept(&mut env).unwrap_err(), EscrowError::MissingRequiredSignature);

    // A wrong tag re-derives a different address: the offer is not found.
    let mut env = init_env();
    do_create(&mut env).unwrap();
    env.tag = [8u8; 28];
    assert_eq!(do_accept(&mut env).unwrap_err(), EscrowError::EscrowAddressMismatch);
    assert_eq!(env.buyer_receive.amount, 0);
    assert_eq!(env.seller_receive.amount, 0);

    // A record of the wrong length is malformed input.
    let mut env = init_env();
    env.escrow_pda.data = vec![1u8; 100];
    assert_eq!(do_accept(&mut env).unwrap_err(), EscrowError::MalformedRecord);
    assert_eq!(do_cancel(&mut env).unwrap_err(), EscrowError::MalformedRecord);

    // A receive balance that cannot absorb the offered quantity stops the
    // whole settlement before anything moves.
    let mut env = init_env();
    do_create(&mut env).unwrap();
    env.buyer_receive.amount = u64::MAX;
    assert_eq!(do_accept(&mut env).unwrap_err(), EscrowError::Overflow);
    assert_eq!(env.strike_acc.amount, 5);
    assert_eq!(env.seller_receive.amount, 0);
    assert!(!env.escrow_pda.data.is_empty());
}

#[test]
fn accept_takes_only_the_demanded_quantity() {
    // Overpayment is accepted: only the demanded quantity moves, the excess
    // stays with the buyer.
    let mut env = init_env();
    env.strike_acc.amount = 9;
    do_create(&mut env).unwrap();
    do_accept(&mut env).unwrap();
    assert_eq!(env.strike_acc.amount, 4);
    assert_eq!(env.seller_receive.amount, 5);
    assert_eq!(env.buyer_receive.amount, 5);
}

#[test]
fn cancel_rejections_are_named() {
    let mut env = init_env();
    do_create(&mut env).unwrap();
    env.seller.is_signer = false;
    assert_eq!(do_cancel(&mut env).unwrap_err(), EscrowError::MissingRequiredSignature);

    let mut env = init_env();
    do_create(&mut env).unwrap();
    env.seller.key = addr(40);
    assert_eq!(do_cancel(&mut env).unwrap_err(), EscrowError::SellerMainMismatch);

    let mut env = init_env();
    do_create(&mut env).unwrap();
    env.seller_temp.key = addr(41);
    assert_eq!(do_cancel(&mut env).unwrap_err(), EscrowError::SellerTempMismatch);

    let mut env = init_env();
    do_create(&mut env).unwrap();
    env.seller_receive.key = addr(42);
    assert_eq!(do_cancel(&mut env).unwrap_err(), EscrowError::SellerReceiveMismatch);

    let mut env = init_env();
    do_create(&mut env).unwrap();
    env.tag = [8u8; 28];
    assert_eq!(do_cancel(&mut env).unwrap_err(), EscrowError::EscrowAddressMismatch);
    assert!(!env.escrow_pda.data.is_empty());
}

#[test]
fn cancel_ignores_the_locked_balance() {
    // Cancel is authority transfer only: it succeeds even if the locked
    // balance no longer matches the descriptor.
    let mut env = init_env();
    do_create(&mut env).unwrap();
    env.seller_temp.amount = 3;
    do_cancel(&mut env).unwrap();
    assert!(env.seller_temp.owner.eq_addr(&env.seller.key));
    assert_eq!(env.seller_temp.amount, 3);
    assert!(env.escrow_pda.data.is_empty());
}

#[test]
fn derivation_matches_host_and_is_deterministic() {
    let program_id = addr(99);
    let offer = offer_data(1, 5, 2, 5);
    let tag = [7u8; 28];
    let (a1, b1) = derive_escrow_address(&offer, &tag, &program_id).unwrap();
    let (a2, b2) = derive_escrow_address(&offer, &tag, &program_id).unwrap();
    assert!(a1.eq_addr(&a2));
    assert_eq!(b1, b2);

    // The same derivation made directly through the host library.
    let seed = offer.get_seed();
    let pid = solana_program::pubkey::Pubkey::new_from_array([99u8; 32]);
    let (direct, direct_bump) =
        solana_program::pubkey::Pubkey::find_program_address(&[&seed, &tag], &pid);
    assert_eq!(a1.bytes, direct.to_bytes().to_vec());
    assert_eq!(b1, direct_bump);

    // Another tag names another escrow address.
    let (a3, _b3) = derive_escrow_address(&offer, &[9u8; 28], &program_id).unwrap();
    assert!(!a1.eq_addr(&a3));
}
