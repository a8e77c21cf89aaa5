use vstd::prelude::*;
use crate::account::AccountHandle;
use crate::address::Address;
use crate::derivation::{
    check_eq_program_derived_address, check_eq_program_derived_address_and_get_bump,
    derivation_check, escrow_seeds, escrow_seeds_of, program_id, program_id_bytes, vault_seeds, vault_seeds_of,
};
use crate::error::EscrowError;
use crate::instructions::{make_of, Make};
use crate::plan::{Effect, EscrowSigner};
use crate::state::{Escrow, ESCROW_LEN};
use crate::token::{is_supported_custodian, is_supported_custodian_spec, mint_decimals, mint_decimals_of, token_account_owner, token_account_owner_of};

verus! {

/// What creating the record of an Open gives: the creation step, or why it is refused.
pub open spec fn init_outcome(seed: u64, receive: u64, mint_a: Address, mint_b: Address, maker: AccountHandle, escrow: AccountHandle) -> Result<Effect, EscrowError> {
    match derivation_check(escrow_seeds_of(maker.key@, seed), program_id_bytes(), escrow.key@) {
        Ok(bump) => Ok(Effect::CreateEscrow {
            payer: maker.key,
            escrow: escrow.key,
            signer: EscrowSigner { maker: maker.key, seed, bump },
            space: ESCROW_LEN as u64,
            record: Escrow { seed, maker: maker.key, mint_a, mint_b, receive },
        }),
        Err(e) => Err(e),
    }
}

/// What the deposit of an Open gives: the maker's transfer into the vault, or why it is
/// refused.
pub open spec fn deposit_outcome(
    escrow_address: Address,
    token_program: Address,
    amount: u64,
    maker_ta_a: AccountHandle,
    mint_a: AccountHandle,
    vault: AccountHandle,
    maker: AccountHandle,
) -> Result<Effect, EscrowError> {
    match derivation_check(vault_seeds_of(escrow_address@), program_id_bytes(), vault.key@) {
        Err(e) => Err(e),
        Ok(_) => if !is_supported_custodian_spec(token_program@) {
            Err(EscrowError::UnsupportedCustodian)
        } else {
            match token_account_owner_of(vault.data@) {
                None => Err(EscrowError::InvalidAccountData),
                Some(authority) => if authority != escrow_address@ {
                    Err(EscrowError::AddressMismatch)
                } else {
                    match mint_decimals_of(mint_a.data@) {
                        None => Err(EscrowError::InvalidAccountData),
                        Some(decimals) => Ok(Effect::Transfer {
                            token_program,
                            source: maker_ta_a.key,
                            mint: mint_a.key,
                            destination: vault.key,
                            authority: maker.key,
                            amount,
                            decimals,
                            escrow_signer: None,
                        }),
                    }
                },
            }
        },
    }
}

/// What an Open with handles `accounts` and payload `data` gives: the steps that create
/// the record and fill the vault, or why it is refused.
pub open spec fn make_outcome(accounts: Seq<AccountHandle>, data: Seq<u8>) -> Result<Seq<Effect>, EscrowError> {
    match make_of(data) {
        Err(e) => Err(e),
        Ok(m) => if accounts.len() != 8 {
            Err(EscrowError::MissingHandles)
        } else {
            match init_outcome(m.seed, m.receive, accounts[1].key, accounts[2].key, accounts[0], accounts[4]) {
                Err(e) => Err(e),
                Ok(create) => match deposit_outcome(accounts[4].key, accounts[6].key, m.amount, accounts[3], accounts[1], accounts[5], accounts[0]) {
                    Err(e) => Err(e),
                    Ok(transfer) => Ok(seq![create, transfer]),
                },
            }
        },
    }
}

impl Escrow {
    /// Checks that `escrow` is the address derived from the maker and `seed`, and gives the
    /// step that creates the record there.
    pub fn init(seed: u64, receive: u64, mint_a: Address, mint_b: Address, maker: &AccountHandle, escrow: &AccountHandle) -> (r: Result<Effect, EscrowError>)
        ensures
            r == init_outcome(seed, receive, mint_a, mint_b, *maker, *escrow),
    {
        let seeds = escrow_seeds(&maker.key, seed);
        let bump = match check_eq_program_derived_address_and_get_bump(&seeds, &program_id(), &escrow.key) {
            Ok(b) => b,
            Err(e) => return Err(e),
        };
        Ok(Effect::CreateEscrow {
            payer: maker.key,
            escrow: escrow.key,
            signer: EscrowSigner { maker: maker.key, seed, bump },
            space: ESCROW_LEN as u64,
            record: Escrow { seed, maker: maker.key, mint_a, mint_b, receive },
        })
    }

    /// Checks the vault (its derived address, its custodian, its authority) and gives the
    /// maker's transfer of `amount` of asset A into it.
    pub fn deposit(
        escrow_address: &Address,
        token_program: &Address,
        amount: u64,
        maker_ta_a: &AccountHandle,
        mint_a: &AccountHandle,
        vault: &AccountHandle,
        maker: &AccountHandle,
    ) -> (r: Result<Effect, EscrowError>)
        ensures
            r == deposit_outcome(*escrow_address, *token_program, amount, *maker_ta_a, *mint_a, *vault, *maker),
    {
        let seeds = vault_seeds(escrow_address);
        match check_eq_program_derived_address(&seeds, &program_id(), &vault.key) {
            Ok(()) => {},
            Err(e) => return Err(e),
        }
        if !is_supported_custodian(token_program) {
            return Err(EscrowError::UnsupportedCustodian);
        }
        match token_account_owner(&vault.data) {
            None => return Err(EscrowError::InvalidAccountData),
            Some(authority) => if !authority.same(escrow_address) {
                return Err(EscrowError::AddressMismatch);
            },
        }
        let decimals = match mint_decimals(&mint_a.data) {
            Some(d) => d,
            None => return Err(EscrowError::InvalidAccountData),
        };
        Ok(Effect::Transfer {
            token_program: *token_program,
            source: maker_ta_a.key,
            mint: mint_a.key,
            destination: vault.key,
            authority: maker.key,
            amount,
            decimals,
            escrow_signer: None,
        })
    }
}

/// Open: handles are maker, asset A, asset B, the maker's asset-A account, escrow slot,
/// vault, token program and system program; the payload is seed, amount and receive.
pub fn process(accounts: &Vec<AccountHandle>, data: &[u8]) -> (r: Result<Vec<Effect>, EscrowError>)
    ensures
        match r {
            Ok(plan) => make_outcome(accounts@, data@) == Ok::<Seq<Effect>, EscrowError>(plan@),
            Err(e) => make_outcome(accounts@, data@) == Err::<Seq<Effect>, EscrowError>(e),
        },
{
    let m = match Make::try_from(data) {
        Ok(m) => m,
        Err(e) => return Err(e),
    };
    if accounts.len() != 8 {
        return Err(EscrowError::MissingHandles);
    }
    let maker = &accounts[0];
    let mint_a = &accounts[1];
    let mint_b = &accounts[2];
    let maker_ta_a = &accounts[3];
    let escrow = &accounts[4];
    let vault = &accounts[5];
    let token_program = &accounts[6];
    let create = match Escrow::init(m.seed, m.receive, mint_a.key, mint_b.key, maker, escrow) {
        Ok(c) => c,
        Err(e) => return Err(e),
    };
    let transfer = match Escrow::deposit(&escrow.key, &token_program.key, m.amount, maker_ta_a, mint_a, vault, maker) {
        Ok(t) => t,
        Err(e) => return Err(e),
    };
    let plan = vec![create, transfer];
    assert(plan@ =~= seq![create, transfer]);
    Ok(plan)
}

} // verus!
