use vstd::prelude::*;
use crate::account::AccountHandle;
use crate::address::Address;
use crate::derivation::{check_eq_program_derived_address, derivation_check, program_id, program_id_bytes, vault_seeds, vault_seeds_of};
use crate::error::EscrowError;
use crate::plan::{Effect, EscrowSigner};
use crate::state::{load_outcome, Escrow, EscrowView};
use crate::token::{is_supported_custodian, is_supported_custodian_spec, mint_decimals, mint_decimals_of, token_account_amount, token_amount_of};

verus! {

/// What fulfilling the loaded record `e` gives: the taker's payment, the release of the
/// vault to the taker, and the closing of vault and record; or why it is refused.
pub open spec fn take_effects(
    e: EscrowView,
    bump: u8,
    token_program: Address,
    mint_a: AccountHandle,
    mint_b: AccountHandle,
    maker: AccountHandle,
    taker: AccountHandle,
    escrow: AccountHandle,
    vault: AccountHandle,
    maker_ta_b: AccountHandle,
    taker_ta_a: AccountHandle,
    taker_ta_b: AccountHandle,
) -> Result<Seq<Effect>, EscrowError> {
    match derivation_check(vault_seeds_of(escrow.key@), program_id_bytes(), vault.key@) {
        Err(err) => Err(err),
        Ok(_) => if mint_a.key@ != e.mint_a || mint_b.key@ != e.mint_b {
            Err(EscrowError::AssetMismatch)
        } else if !is_supported_custodian_spec(token_program@) {
            Err(EscrowError::UnsupportedCustodian)
        } else {
            match (mint_decimals_of(mint_a.data@), mint_decimals_of(mint_b.data@), token_amount_of(vault.data@)) {
                (Some(decimals_a), Some(decimals_b), Some(amount)) => {
                    let signer = EscrowSigner { maker: maker.key, seed: e.seed, bump };
                    Ok(seq![
                        Effect::Transfer {
                            token_program,
                            source: taker_ta_b.key,
                            mint: mint_b.key,
                            destination: maker_ta_b.key,
                            authority: taker.key,
                            amount: e.receive,
                            decimals: decimals_b,
                            escrow_signer: None,
                        },
                        Effect::Transfer {
                            token_program,
                            source: vault.key,
                            mint: mint_a.key,
                            destination: taker_ta_a.key,
                            authority: escrow.key,
                            amount,
                            decimals: decimals_a,
                            escrow_signer: Some(signer),
                        },
                        Effect::CloseVault { token_program, vault: vault.key, destination: maker.key, authority: escrow.key, signer },
                        Effect::CloseEscrow { escrow: escrow.key, beneficiary: maker.key },
                    ])
                },
                _ => Err(EscrowError::InvalidAccountData),
            }
        },
    }
}

/// What a Fulfill with handles `accounts` gives.
pub open spec fn take_outcome(accounts: Seq<AccountHandle>) -> Result<Seq<Effect>, EscrowError> {
    if accounts.len() != 11 {
        Err(EscrowError::MissingHandles)
    } else {
        match load_outcome(accounts[1].key@, accounts[7]@) {
            Err(err) => Err(err),
            Ok((e, bump)) => take_effects(
                e, bump, accounts[9].key, accounts[2], accounts[3], accounts[1], accounts[0],
                accounts[7], accounts[8], accounts[6], accounts[4], accounts[5],
            ),
        }
    }
}

impl Escrow {
    /// Checks the vault and the assets against the loaded record and gives, in order: the
    /// taker's payment of `receive` of asset B to the maker, the transfer of the whole vault
    /// to the taker, the closing of the vault and the destruction of the record.
    pub fn take(
        escrow_data: Escrow,
        bump: u8,
        token_program: &Address,
        mint_a: &AccountHandle,
        mint_b: &AccountHandle,
        maker: &AccountHandle,
        taker: &AccountHandle,
        escrow: &AccountHandle,
        vault: &AccountHandle,
        maker_ta_b: &AccountHandle,
        taker_ta_a: &AccountHandle,
        taker_ta_b: &AccountHandle,
    ) -> (r: Result<Vec<Effect>, EscrowError>)
        ensures
            match r {
                Ok(plan) => take_effects(escrow_data@, bump, *token_program, *mint_a, *mint_b, *maker, *taker, *escrow, *vault, *maker_ta_b, *taker_ta_a, *taker_ta_b)
                    == Ok::<Seq<Effect>, EscrowError>(plan@),
                Err(err) => take_effects(escrow_data@, bump, *token_program, *mint_a, *mint_b, *maker, *taker, *escrow, *vault, *maker_ta_b, *taker_ta_a, *taker_ta_b)
                    == Err::<Seq<Effect>, EscrowError>(err),
            },
    {
        let seeds = vault_seeds(&escrow.key);
        match check_eq_program_derived_address(&seeds, &program_id(), &vault.key) {
            Ok(()) => {},
            Err(err) => return Err(err),
        }
        if !mint_a.key.same(&escrow_data.mint_a) || !mint_b.key.same(&escrow_data.mint_b) {
            return Err(EscrowError::AssetMismatch);
        }
        if !is_supported_custodian(token_program) {
            return Err(EscrowError::UnsupportedCustodian);
        }
        let decimals_a = mint_decimals(&mint_a.data);
        let decimals_b = mint_decimals(&mint_b.data);
        let amount = token_account_amount(&vault.data);
        match (decimals_a, decimals_b, amount) {
            (Some(decimals_a), Some(decimals_b), Some(amount)) => {
                let signer = EscrowSigner { maker: maker.key, seed: escrow_data.seed, bump };
                let plan = vec![
                    Effect::Transfer {
                        token_program: *token_program,
                        source: taker_ta_b.key,
                        mint: mint_b.key,
                        destination: maker_ta_b.key,
                        authority: taker.key,
                        amount: escrow_data.receive,
                        decimals: decimals_b,
                        escrow_signer: None,
                    },
                    Effect::Transfer {
                        token_program: *token_program,
                        source: vault.key,
                        mint: mint_a.key,
                        destination: taker_ta_a.key,
                        authority: escrow.key,
                        amount,
                        decimals: decimals_a,
                        escrow_signer: Some(signer),
                    },
                    Effect::CloseVault { token_program: *token_program, vault: vault.key, destination: maker.key, authority: escrow.key, signer },
                    Effect::CloseEscrow { escrow: escrow.key, beneficiary: maker.key },
                ];
                assert(plan@ =~= take_effects(escrow_data@, bump, *token_program, *mint_a, *mint_b, *maker, *taker, *escrow, *vault, *maker_ta_b, *taker_ta_a, *taker_ta_b)->Ok_0);
                Ok(plan)
            },
            _ => Err(EscrowError::InvalidAccountData),
        }
    }
}

/// Fulfill: handles are taker, maker, asset A, asset B, the taker's asset-A and asset-B
/// accounts, the maker's asset-B account, escrow slot, vault, token program and system
/// program.
pub fn process(accounts: &Vec<AccountHandle>) -> (r: Result<Vec<Effect>, EscrowError>)
    ensures
        match r {
            Ok(plan) => take_outcome(accounts@) == Ok::<Seq<Effect>, EscrowError>(plan@),
            Err(err) => take_outcome(accounts@) == Err::<Seq<Effect>, EscrowError>(err),
        },
{
    if accounts.len() != 11 {
        return Err(EscrowError::MissingHandles);
    }
    let maker = &accounts[1];
    let escrow = &accounts[7];
    let (escrow_data, bump) = match Escrow::get_data_and_bump(&maker.key, escrow) {
        Ok(loaded) => loaded,
        Err(err) => return Err(err),
    };
    Escrow::take(
        escrow_data, bump, &accounts[9].key, &accounts[2], &accounts[3], maker, &accounts[0],
        escrow, &accounts[8], &accounts[6], &accounts[4], &accounts[5],
    )
}

} // verus!
