use vstd::prelude::*;
use vstd::slice::slice_subrange;
use crate::account::AccountHandle;
use crate::address::Address;
use crate::derivation::{program_id, program_id_bytes};
use crate::error::EscrowError;
use crate::instructions::{instruction_of, EscrowInstructions};
use crate::make::make_outcome;
use crate::plan::Effect;
use crate::refund::refund_outcome;
use crate::take::take_outcome;

verus! {

/// What the operation `data` with handles `accounts`, addressed to `program`, gives.
pub open spec fn instruction_outcome(program: Seq<u8>, accounts: Seq<AccountHandle>, data: Seq<u8>) -> Result<Seq<Effect>, EscrowError> {
    if program != program_id_bytes() {
        Err(EscrowError::IncorrectProgramId)
    } else if data.len() == 0 {
        Err(EscrowError::InvalidOperation)
    } else {
        match instruction_of(data[0]) {
            Err(e) => Err(e),
            Ok(EscrowInstructions::Make) => make_outcome(accounts, data.drop_first()),
            Ok(EscrowInstructions::Take) => take_outcome(accounts),
            Ok(EscrowInstructions::Refund) => refund_outcome(accounts),
        }
    }
}

/// Decodes the operation tag and routes to Open, Fulfill or Cancel.
pub fn process_instruction(program: &Address, accounts: &Vec<AccountHandle>, data: &[u8]) -> (r: Result<Vec<Effect>, EscrowError>)
    ensures
        match r {
            Ok(plan) => instruction_outcome(program@, accounts@, data@) == Ok::<Seq<Effect>, EscrowError>(plan@),
            Err(e) => instruction_outcome(program@, accounts@, data@) == Err::<Seq<Effect>, EscrowError>(e),
        },
{
    if !program.same(&program_id()) {
        return Err(EscrowError::IncorrectProgramId);
    }
    if data.len() == 0 {
        return Err(EscrowError::InvalidOperation);
    }
    let rest = slice_subrange(data, 1, data.len());
    assert(rest@ =~= data@.drop_first());
    match EscrowInstructions::try_from(&data[0]) {
        Err(e) => Err(e),
        Ok(EscrowInstructions::Make) => crate::make::process(accounts, rest),
        Ok(EscrowInstructions::Take) => crate::take::process(accounts),
        Ok(EscrowInstructions::Refund) => crate::refund::process(accounts),
    }
}

} // verus!
