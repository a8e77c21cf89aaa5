use vstd::prelude::*;
use vstd::bytes::{spec_u64_from_le_bytes, u64_from_le_bytes};
use vstd::slice::slice_subrange;
use crate::error::EscrowError;

verus! {

/// The three operations, selected by the first byte of the operation data.
#[derive(Clone, Copy, Debug, PartialEq, Eq, Structural)]
pub enum EscrowInstructions {
    Make,
    Take,
    Refund,
}

/// The operation that tag byte `value` selects.
pub open spec fn instruction_of(value: u8) -> Result<EscrowInstructions, EscrowError> {
    if value == 0 {
        Ok(EscrowInstructions::Make)
    } else if value == 1 {
        Ok(EscrowInstructions::Take)
    } else if value == 2 {
        Ok(EscrowInstructions::Refund)
    } else {
        Err(EscrowError::InvalidOperation)
    }
}

impl EscrowInstructions {
    /// Decodes an operation tag: 0 opens, 1 fulfills, 2 cancels.
    pub fn try_from(value: &u8) -> (r: Result<EscrowInstructions, EscrowError>)
        ensures
            r == instruction_of(*value),
    {
        match *value {
            0 => Ok(EscrowInstructions::Make),
            1 => Ok(EscrowInstructions::Take),
            2 => Ok(EscrowInstructions::Refund),
            _ => Err(EscrowError::InvalidOperation),
        }
    }
}

/// Length of the payload of an Open.
pub const MAKE_LEN: usize = 24;

/// The payload of an Open: the seed of the escrow, the amount of asset A deposited and the
/// amount of asset B asked for.
#[derive(Clone, Copy, Debug, PartialEq, Eq, Structural)]
pub struct Make {
    pub seed: u64,
    pub amount: u64,
    pub receive: u64,
}

/// The payload that `data` encodes: three little-endian integers, and nothing else.
pub open spec fn make_of(data: Seq<u8>) -> Result<Make, EscrowError> {
    if data.len() == MAKE_LEN {
        Ok(Make {
            seed: spec_u64_from_le_bytes(data.subrange(0, 8)),
            amount: spec_u64_from_le_bytes(data.subrange(8, 16)),
            receive: spec_u64_from_le_bytes(data.subrange(16, 24)),
        })
    } else {
        Err(EscrowError::MalformedPayload)
    }
}

impl Make {
    /// Decodes the payload of an Open.
    pub fn try_from(data: &[u8]) -> (r: Result<Make, EscrowError>)
        ensures
            r == make_of(data@),
    {
        if data.len() != MAKE_LEN {
            return Err(EscrowError::MalformedPayload);
        }
        let seed = u64_from_le_bytes(slice_subrange(data, 0, 8));
        let amount = u64_from_le_bytes(slice_subrange(data, 8, 16));
        let receive = u64_from_le_bytes(slice_subrange(data, 16, 24));
        Ok(Make { seed, amount, receive })
    }
}

} // verus!
