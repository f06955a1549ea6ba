//! The wire form of a request: one operation byte, then the operation's
//! fixed layout.  A buffer of the wrong length is malformed input and an
//! unknown operation byte names no operation; both are fatal, named
//! rejections.

use vstd::prelude::*;
use crate::bytes_util::copy_range;
use crate::error::EscrowError;
use crate::state::{spec_parse_offer, OfferData};
use vstd::slice::slice_subrange;

verus! {

/// One decoded request: the operation and its inputs.  `index_seed` is the
/// caller's 28-byte disambiguation tag.
#[allow(non_camel_case_types)]
#[derive(Debug)]
pub enum InstructionType {
    OFFER { offer_data: OfferData, index_seed: Vec<u8> },
    ACCEPT { index_seed: Vec<u8> },
    CANCEL { index_seed: Vec<u8> },
}

/// Decodes a raw request.  Operation 0 (Create) carries the 80-byte offer
/// descriptor and the 28-byte tag; operations 1 (Accept) and 2 (Cancel)
/// carry the tag alone.  Exactly the declared lengths are accepted.
pub fn decode_instruction(instruction_data: &[u8]) -> (r: Result<InstructionType, EscrowError>)
    ensures
        instruction_data@.len() == 0 ==> r === Err(EscrowError::MalformedInstruction),
        (instruction_data@.len() > 0 && instruction_data@[0] == 0) ==> (
        if instruction_data@.len() == 109 {
            r matches Ok(InstructionType::OFFER { offer_data, index_seed })
                && offer_data@ == spec_parse_offer(instruction_data@.subrange(1, 81))
                && offer_data.wf() && index_seed@ == instruction_data@.subrange(81, 109)
        } else {
            r === Err(EscrowError::MalformedInstruction)
        }),
        (instruction_data@.len() > 0 && instruction_data@[0] == 1) ==> (
        if instruction_data@.len() == 29 {
            r matches Ok(InstructionType::ACCEPT { index_seed }) && index_seed@
                == instruction_data@.subrange(1, 29)
        } else {
            r === Err(EscrowError::MalformedInstruction)
        }),
        (instruction_data@.len() > 0 && instruction_data@[0] == 2) ==> (
        if instruction_data@.len() == 29 {
            r matches Ok(InstructionType::CANCEL { index_seed }) && index_seed@
                == instruction_data@.subrange(1, 29)
        } else {
            r === Err(EscrowError::MalformedInstruction)
        }),
        (instruction_data@.len() > 0 && instruction_data@[0] > 2) ==> r === Err(
            EscrowError::InvalidInstructionData,
        ),
{
    if instruction_data.len() == 0 {
        return Err(EscrowError::MalformedInstruction);
    }
    let op = instruction_data[0];
    if op == 0 {
        if instruction_data.len() != 109 {
            return Err(EscrowError::MalformedInstruction);
        }
        let offer_data = OfferData::from_bytes(slice_subrange(instruction_data, 1, 81));
        let index_seed = copy_range(instruction_data, 81, 109);
        Ok(InstructionType::OFFER { offer_data, index_seed })
    } else if op == 1 {
        if instruction_data.len() != 29 {
            return Err(EscrowError::MalformedInstruction);
        }
        Ok(InstructionType::ACCEPT { index_seed: copy_range(instruction_data, 1, 29) })
    } else if op == 2 {
        if instruction_data.len() != 29 {
            return Err(EscrowError::MalformedInstruction);
        }
        Ok(InstructionType::CANCEL { index_seed: copy_range(instruction_data, 1, 29) })
    } else {
        Err(EscrowError::InvalidInstructionData)
    }
}

} // verus!
