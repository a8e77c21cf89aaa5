use vstd::prelude::*;
use crate::account::AccountHandle;
use crate::address::Address;
use crate::derivation::{check_eq_program_derived_address, derivation_check, program_id, program_id_bytes, vault_seeds, vault_seeds_of};
use crate::error::EscrowError;
use crate::plan::{Effect, EscrowSigner};
use crate::state::{load_outcome, Escrow, EscrowView};
use crate::token::{is_supported_custodian, is_supported_custodian_spec, mint_decimals, mint_decimals_of, token_account_amount, token_amount_of};

verus! {

/// What cancelling the loaded record `e` gives: the return of the whole vault to the maker
/// and the closing of vault and record; or why it is refused.
pub open spec fn refund_effects(
    e: EscrowView,
    bump: u8,
    token_program: Address,
    mint_a: AccountHandle,
    maker: AccountHandle,
    escrow: AccountHandle,
    vault: AccountHandle,
    maker_ta_a: AccountHandle,
) -> Result<Seq<Effect>, EscrowError> {
    match derivation_check(vault_seeds_of(escrow.key@), program_id_bytes(), vault.key@) {
        Err(err) => Err(err),
        Ok(_) => if mint_a.key@ != e.mint_a {
            Err(EscrowError::AssetMismatch)
        } else if !is_supported_custodian_spec(token_program@) {
            Err(EscrowError::UnsupportedCustodian)
        } else {
            match (mint_decimals_of(mint_a.data@), token_amount_of(vault.data@)) {
                (Some(decimals), Some(amount)) => {
                    let signer = EscrowSigner { maker: maker.key, seed: e.seed, bump };
                    Ok(seq![
                        Effect::Transfer {
                            token_program,
                            source: vault.key,
                            mint: mint_a.key,
                            destination: maker_ta_a.key,
                            authority: escrow.key,
                            amount,
                            decimals,
                            escrow_signer: Some(signer),
                        },
                        Effect::CloseVault { token_program, vault: vault.key, destination: maker.key, authority: escrow.key, signer },
                        Effect::CloseEscrow { escrow: escrow.key, beneficiary: maker.key },
                    ])
                },
                _ => Err(EscrowError::InvalidAccountData),
            }
        },
    }
}

/// What a Cancel with handles `accounts` gives.
pub open spec fn refund_outcome(accounts: Seq<AccountHandle>) -> Result<Seq<Effect>, EscrowError> {
    if accounts.len() != 7 {
        Err(EscrowError::MissingHandles)
    } else if !accounts[0].is_signer {
        Err(EscrowError::Unauthorized)
    } else {
        match load_outcome(accounts[0].key@, accounts[3]@) {
            Err(err) => Err(err),
            Ok((e, bump)) => refund_effects(e, bump, accounts[5].key, accounts[1], accounts[0], accounts[3], accounts[4], accounts[2]),
        }
    }
}

impl Escrow {
    /// Checks the vault and asset A against the loaded record and gives, in order: the
    /// transfer of the whole vault back to the maker, the closing of the vault and the
    /// destruction of the record.
    pub fn refund(
        escrow_data: Escrow,
        bump: u8,
        token_program: &Address,
        mint_a: &AccountHandle,
        maker: &AccountHandle,
        escrow: &AccountHandle,
        vault: &AccountHandle,
        maker_ta_a: &AccountHandle,
    ) -> (r: Result<Vec<Effect>, EscrowError>)
        ensures
            match r {
                Ok(plan) => refund_effects(escrow_data@, bump, *token_program, *mint_a, *maker, *escrow, *vault, *maker_ta_a)
                    == Ok::<Seq<Effect>, EscrowError>(plan@),
                Err(err) => refund_effects(escrow_data@, bump, *token_program, *mint_a, *maker, *escrow, *vault, *maker_ta_a)
                    == Err::<Seq<Effect>, EscrowError>(err),
            },
    {
        let seeds = vault_seeds(&escrow.key);
        match check_eq_program_derived_address(&seeds, &program_id(), &vault.key) {
            Ok(()) => {},
            Err(err) => return Err(err),
        }
        if !mint_a.key.same(&escrow_data.mint_a) {
            return Err(EscrowError::AssetMismatch);
        }
        if !is_supported_custodian(token_program) {
            return Err(EscrowError::UnsupportedCustodian);
        }
        let decimals = mint_decimals(&mint_a.data);
        let amount = token_account_amount(&vault.data);
        match (decimals, amount) {
            (Some(decimals), Some(amount)) => {
                let signer = EscrowSigner { maker: maker.key, seed: escrow_data.seed, bump };
                let plan = vec![
                    Effect::Transfer {
                        token_program: *token_program,
                        source: vault.key,
                        mint: mint_a.key,
                        destination: maker_ta_a.key,
                        authority: escrow.key,
                        amount,
                        decimals,
                        escrow_signer: Some(signer),
                    },
                    Effect::CloseVault { token_program: *token_program, vault: vault.key, destination: maker.key, authority: escrow.key, signer },
                    Effect::CloseEscrow { escrow: escrow.key, beneficiary: maker.key },
                ];
                assert(plan@ =~= refund_effects(escrow_data@, bump, *token_program, *mint_a, *maker, *escrow, *vault, *maker_ta_a)->Ok_0);
                Ok(plan)
            },
            _ => Err(EscrowError::InvalidAccountData),
        }
    }
}

/// Cancel: handles are maker (who must sign), asset A, the maker's asset-A account, escrow
/// slot, vault, token program and system program.
pub fn process(accounts: &Vec<AccountHandle>) -> (r: Result<Vec<Effect>, EscrowError>)
    ensures
        match r {
            Ok(plan) => refund_outcome(accounts@) == Ok::<Seq<Effect>, EscrowError>(plan@),
            Err(err) => refund_outcome(accounts@) == Err::<Seq<Effect>, EscrowError>(err),
        },
{
    if accounts.len() != 7 {
        return Err(EscrowError::MissingHandles);
    }
    let maker = &accounts[0];
    if !maker.is_signer {
        return Err(EscrowError::Unauthorized);
    }
    let escrow = &accounts[3];
    let (escrow_data, bump) = match Escrow::get_data_and_bump(&maker.key, escrow) {
        Ok(loaded) => loaded,
        Err(err) => return Err(err),
    };
    Escrow::refund(escrow_data, bump, &accounts[5].key, &accounts[1], maker, escrow, &accounts[4], &accounts[2])
}

} // verus!
