//! Round trips of the persisted layouts, the instruction decoder, and the
//! derivation seed.

use escrow::error::EscrowError;
use escrow::instruction::{decode_instruction, InstructionType};
use escrow::state::{get_seed, Address, EscrowPDA, OfferData};

fn addr(b: u8) -> Address {
    Address { bytes: vec![b; 32] }
}

fn offer(token: u8, token_qty: u64, strike: u8, strike_qty: u64) -> OfferData {
    OfferData {
        token_type: addr(token),
        token_qty,
        strike_type: addr(strike),
        strike_qty,
    }
}

#[test]
fn offer_round_trip_simple() {
    let o = offer(1, 5, 2, 5);
    let bytes = o.to_bytes();
    assert_eq!(bytes.len(), 80);
    let back = OfferData::from_bytes(&bytes);
    assert_eq!(back, o);
}

#[test]
fn offer_round_trip_extremal() {
    let cases: Vec<(u64, u64)> = vec![(0, 0), (0, u64::MAX), (u64::MAX, 0), (u64::MAX, u64::MAX), (1, 0x0123_4567_89ab_cdef)];
    for (a, b) in cases {
        let o = offer(0xAA, a, 0x55, b);
        let back = OfferData::from_bytes(&o.to_bytes());
        assert_eq!(back, o);
    }
}

#[test]
fn offer_layout_is_little_endian() {
    let o = offer(3, 0x0102_0304_0506_0708, 4, 1);
    let bytes = o.to_bytes();
    assert_eq!(&bytes[0..32], &[3u8; 32]);
    assert_eq!(&bytes[32..40], &[0x08, 0x07, 0x06, 0x05, 0x04, 0x03, 0x02, 0x01]);
    assert_eq!(&bytes[40..72], &[4u8; 32]);
    assert_eq!(&bytes[72..80], &[1, 0, 0, 0, 0, 0, 0, 0]);
}

#[test]
fn record_round_trip() {
    let rec = EscrowPDA {
        offer_data: offer(1, u64::MAX, 2, 0),
        seller_main: addr(10),
        seller_temp: addr(11),
        seller_receive: addr(12),
    };
    let mut bytes: Vec<u8> = Vec::new();
    rec.pack_into_slice(&mut bytes);
    assert_eq!(bytes.len(), 176);
    let back = EscrowPDA::unpack_from_slice(&bytes).unwrap();
    assert_eq!(back, rec);
}

#[test]
fn record_layout() {
    let rec = EscrowPDA {
        offer_data: offer(1, 5, 2, 7),
        seller_main: addr(10),
        seller_temp: addr(11),
        seller_receive: addr(12),
    };
    let mut bytes: Vec<u8> = Vec::new();
    rec.pack_into_slice(&mut bytes);
    assert_eq!(&bytes[0..32], &[10u8; 32]);
    assert_eq!(&bytes[32..64], &[11u8; 32]);
    assert_eq!(&bytes[64..96], &[12u8; 32]);
    assert_eq!(&bytes[96..176], &rec.offer_data.to_bytes()[..]);
}

#[test]
fn record_rejects_short_and_long_buffers() {
    assert_eq!(
        EscrowPDA::unpack_from_slice(&[0u8; 175]).unwrap_err(),
        EscrowError::MalformedRecord
    );
    assert_eq!(
        EscrowPDA::unpack_from_slice(&[0u8; 177]).unwrap_err(),
        EscrowError::MalformedRecord
    );
    assert_eq!(EscrowPDA::unpack_from_slice(&[]).unwrap_err(), EscrowError::MalformedRecord);
}

#[test]
fn decode_offer_instruction() {
    let o = offer(1, 5, 2, 9);
    let mut data = vec![0u8];
    data.extend_from_slice(&o.to_bytes());
    data.extend_from_slice(&[7u8; 28]);
    assert_eq!(data.len(), 109);
    match decode_instruction(&data).unwrap() {
        InstructionType::OFFER { offer_data, index_seed } => {
            assert_eq!(offer_data, o);
            assert_eq!(index_seed, vec![7u8; 28]);
        }
        _ => panic!("decoded the wrong operation"),
    }
}

#[test]
fn decode_accept_and_cancel_instructions() {
    let mut data = vec![1u8];
    data.extend_from_slice(&[9u8; 28]);
    match decode_instruction(&data).unwrap() {
        InstructionType::ACCEPT { index_seed } => assert_eq!(index_seed, vec![9u8; 28]),
        _ => panic!("decoded the wrong operation"),
    }
    data[0] = 2;
    match decode_instruction(&data).unwrap() {
        InstructionType::CANCEL { index_seed } => assert_eq!(index_seed, vec![9u8; 28]),
        _ => panic!("decoded the wrong operation"),
    }
}

#[test]
fn decode_rejects_bad_requests() {
    assert_eq!(decode_instruction(&[]).unwrap_err(), EscrowError::MalformedInstruction);
    assert_eq!(decode_instruction(&[0u8; 108]).unwrap_err(), EscrowError::MalformedInstruction);
    assert_eq!(decode_instruction(&[0u8; 110]).unwrap_err(), EscrowError::MalformedInstruction);
    assert_eq!(decode_instruction(&[1u8; 28]).unwrap_err(), EscrowError::MalformedInstruction);
    assert_eq!(decode_instruction(&[2u8; 30]).unwrap_err(), EscrowError::MalformedInstruction);
    let mut data = vec![3u8];
    data.extend_from_slice(&[0u8; 28]);
    assert_eq!(decode_instruction(&data).unwrap_err(), EscrowError::InvalidInstructionData);
}

#[test]
fn seed_matches_known_digest() {
    // SHA-256 of the empty string and of "abc", from the published test
    // vectors.
    let empty = get_seed(&[]);
    let expected_empty: [u8; 32] = [
        0xe3, 0xb0, 0xc4, 0x42, 0x98, 0xfc, 0x1c, 0x14, 0x9a, 0xfb, 0xf4, 0xc8, 0x99, 0x6f,
        0xb9, 0x24, 0x27, 0xae, 0x41, 0xe4, 0x64, 0x9b, 0x93, 0x4c, 0xa4, 0x95, 0x99, 0x1b,
        0x78, 0x52, 0xb8, 0x55,
    ];
    assert_eq!(empty, expected_empty.to_vec());

    let abc = get_seed(&[0x61, 0x62, 0x63]);
    let expected_abc: [u8; 32] = [
        0xba, 0x78, 0x16, 0xbf, 0x8f, 0x01, 0xcf, 0xea, 0x41, 0x41, 0x40, 0xde, 0x5d, 0xae,
        0x22, 0x23, 0xb0, 0x03, 0x61, 0xa3, 0x96, 0x17, 0x7a, 0x9c, 0xb4, 0x10, 0xff, 0x61,
        0xf2, 0x00, 0x15, 0xad,
    ];
    assert_eq!(abc, expected_abc.to_vec());
}

#[test]
fn offer_seed_is_digest_of_encoding() {
    let o = offer(1, 5, 2, 5);
    assert_eq!(o.get_seed(), get_seed(&o.to_bytes()));
    // Distinct terms give distinct seeds.
    let o2 = offer(1, 6, 2, 5);
    assert_ne!(o.get_seed(), o2.get_seed());
}
