use std::collections::HashMap;

use native_escrow::account::AccountHandle;
use native_escrow::address::Address;
use native_escrow::derivation::{
    check_eq_program_derived_address, check_eq_program_derived_address_and_get_bump, escrow_seeds, program_id,
    vault_seeds,
};
use native_escrow::error::EscrowError;
use native_escrow::instructions::{EscrowInstructions, Make};
use native_escrow::plan::Effect;
use native_escrow::processor::process_instruction;
use native_escrow::state::{Escrow, ESCROW_LEN};
use native_escrow::token::is_supported_custodian;
use solana_program::program_option::COption;
use solana_program::program_pack::Pack;
use solana_program::pubkey::Pubkey;
use spl_token::state::{Account, AccountState, Mint};

const SEED: u64 = 1337;
const AMOUNT: u64 = 100000;
const RECEIVE: u64 = 100000;
const DECIMALS_A: u8 = 6;
const DECIMALS_B: u8 = 9;

fn addr(k: &Pubkey) -> Address {
    Address::new(k.to_bytes())
}

fn pid() -> Pubkey {
    Pubkey::new_from_array(program_id().bytes)
}

fn mint_data(decimals: u8) -> Vec<u8> {
    let mint = Mint {
        mint_authority: COption::Some(Pubkey::new_unique()),
        supply: 100_000_000_000,
        decimals,
        is_initialized: true,
        freeze_authority: COption::None,
    };
    let mut data = vec![0u8; Mint::LEN];
    Mint::pack(mint, &mut data).unwrap();
    data
}

fn token_data(mint: &Pubkey, owner: &Pubkey, amount: u64) -> Vec<u8> {
    let account = Account {
        mint: *mint,
        owner: *owner,
        amount,
        delegate: COption::None,
        state: AccountState::Initialized,
        is_native: COption::None,
        delegated_amount: 0,
        close_authority: COption::None,
    };
    let mut data = vec![0u8; Account::LEN];
    Account::pack(account, &mut data).unwrap();
    data
}

fn handle(key: &Pubkey, owner: &Pubkey, is_signer: bool, data: Vec<u8>) -> AccountHandle {
    AccountHandle { key: addr(key), owner: addr(owner), is_signer, data }
}

/// The host as the tests see it: token balances and stored escrow records.
#[derive(Default)]
struct Host {
    balances: HashMap<[u8; 32], u64>,
    records: HashMap<[u8; 32], Vec<u8>>,
}

impl Host {
    fn balance(&self, k: &Pubkey) -> Option<u64> {
        self.balances.get(&k.to_bytes()).copied()
    }

    fn apply(&mut self, plan: &[Effect]) {
        for step in plan {
            match step {
                Effect::CreateEscrow { escrow, record, .. } => {
                    assert!(!self.records.contains_key(&escrow.bytes));
                    self.records.insert(escrow.bytes, record.to_bytes());
                }
                Effect::Transfer { source, destination, amount, .. } => {
                    let s = self.balances[&source.bytes];
                    assert!(s >= *amount);
                    self.balances.insert(source.bytes, s - amount);
                    let d = self.balances[&destination.bytes];
                    self.balances.insert(destination.bytes, d + amount);
                }
                Effect::CloseVault { vault, .. } => {
                    assert_eq!(self.balances[&vault.bytes], 0);
                    self.balances.remove(&vault.bytes);
                }
                Effect::CloseEscrow { escrow, .. } => {
                    assert!(self.records.remove(&escrow.bytes).is_some());
                }
            }
        }
    }

    /// The escrow slot as a handle: the record under this program, or an emptied slot.
    fn escrow_handle(&self, escrow: &Pubkey) -> AccountHandle {
        match self.records.get(&escrow.to_bytes()) {
            Some(data) => handle(escrow, &pid(), false, data.clone()),
            None => handle(escrow, &Pubkey::default(), false, Vec::new()),
        }
    }
}

struct World {
    maker: Pubkey,
    taker: Pubkey,
    mint_a: Pubkey,
    mint_b: Pubkey,
    maker_ta_a: Pubkey,
    maker_ta_b: Pubkey,
    taker_ta_a: Pubkey,
    taker_ta_b: Pubkey,
    escrow: Pubkey,
    vault: Pubkey,
    token_program: Pubkey,
    system_program: Pubkey,
    host: Host,
}

fn world() -> World {
    let maker = Pubkey::new_unique();
    let (escrow, _) = Pubkey::find_program_address(&[b"escrow", maker.as_ref(), &SEED.to_le_bytes()], &pid());
    let (vault, _) = Pubkey::find_program_address(&[b"vault", escrow.as_ref()], &pid());
    let w = World {
        maker,
        taker: Pubkey::new_unique(),
        mint_a: Pubkey::new_unique(),
        mint_b: Pubkey::new_unique(),
        maker_ta_a: Pubkey::new_unique(),
        maker_ta_b: Pubkey::new_unique(),
        taker_ta_a: Pubkey::new_unique(),
        taker_ta_b: Pubkey::new_unique(),
        escrow,
        vault,
        token_program: spl_token::ID,
        system_program: Pubkey::default(),
        host: Host::default(),
    };
    let mut w = w;
    w.host.balances.insert(w.maker_ta_a.to_bytes(), 1_000_000_000);
    w.host.balances.insert(w.maker_ta_b.to_bytes(), 0);
    w.host.balances.insert(w.taker_ta_a.to_bytes(), 0);
    w.host.balances.insert(w.taker_ta_b.to_bytes(), 1_000_000_000);
    w.host.balances.insert(w.vault.to_bytes(), 0);
    w
}

fn make_data(seed: u64, amount: u64, receive: u64) -> Vec<u8> {
    let mut data = vec![0u8];
    data.extend_from_slice(&seed.to_le_bytes());
    data.extend_from_slice(&amount.to_le_bytes());
    data.extend_from_slice(&receive.to_le_bytes());
    data
}

fn make_accounts(w: &World) -> Vec<AccountHandle> {
    vec![
        handle(&w.maker, &w.system_program, true, Vec::new()),
        handle(&w.mint_a, &spl_token::ID, false, mint_data(DECIMALS_A)),
        handle(&w.mint_b, &spl_token::ID, false, mint_data(DECIMALS_B)),
        handle(&w.maker_ta_a, &spl_token::ID, false, token_data(&w.mint_a, &w.maker, 1_000_000_000)),
        handle(&w.escrow, &w.system_program, false, Vec::new()),
        handle(&w.vault, &spl_token::ID, false, token_data(&w.mint_a, &w.escrow, 0)),
        handle(&w.token_program, &w.system_program, false, Vec::new()),
        handle(&w.system_program, &w.system_program, false, Vec::new()),
    ]
}

fn vault_handle(w: &World) -> AccountHandle {
    let amount = w.host.balance(&w.vault).unwrap_or(0);
    handle(&w.vault, &spl_token::ID, false, token_data(&w.mint_a, &w.escrow, amount))
}

fn take_accounts(w: &World) -> Vec<AccountHandle> {
    vec![
        handle(&w.taker, &w.system_program, true, Vec::new()),
        handle(&w.maker, &w.system_program, false, Vec::new()),
        handle(&w.mint_a, &spl_token::ID, false, mint_data(DECIMALS_A)),
        handle(&w.mint_b, &spl_token::ID, false, mint_data(DECIMALS_B)),
        handle(&w.taker_ta_a, &spl_token::ID, false, token_data(&w.mint_a, &w.taker, 0)),
        handle(&w.taker_ta_b, &spl_token::ID, false, token_data(&w.mint_b, &w.taker, 0)),
        handle(&w.maker_ta_b, &spl_token::ID, false, token_data(&w.mint_b, &w.maker, 0)),
        w.host.escrow_handle(&w.escrow),
        vault_handle(w),
        handle(&w.token_program, &w.system_program, false, Vec::new()),
        handle(&w.system_program, &w.system_program, false, Vec::new()),
    ]
}

fn refund_accounts(w: &World) -> Vec<AccountHandle> {
    vec![
        handle(&w.maker, &w.system_program, true, Vec::new()),
        handle(&w.mint_a, &spl_token::ID, false, mint_data(DECIMALS_A)),
        handle(&w.maker_ta_a, &spl_token::ID, false, token_data(&w.mint_a, &w.maker, 0)),
        w.host.escrow_handle(&w.escrow),
        vault_handle(w),
        handle(&w.token_program, &w.system_program, false, Vec::new()),
        handle(&w.system_program, &w.system_program, false, Vec::new()),
    ]
}

fn run(accounts: &Vec<AccountHandle>, data: &[u8]) -> Result<Vec<Effect>, EscrowError> {
    process_instruction(&program_id(), accounts, data)
}

fn err_of(r: Result<Vec<Effect>, EscrowError>) -> EscrowError {
    match r {
        Ok(plan) => panic!("accepted with {} steps", plan.len()),
        Err(e) => e,
    }
}

fn open(w: &mut World) {
    let plan = run(&make_accounts(w), &make_data(SEED, AMOUNT, RECEIVE)).unwrap();
    w.host.apply(&plan);
}

#[test]
fn make() {
    let mut w = world();
    let plan = run(&make_accounts(&w), &make_data(SEED, AMOUNT, RECEIVE)).unwrap();
    assert_eq!(plan.len(), 2);
    match &plan[0] {
        Effect::CreateEscrow { payer, escrow, space, record, .. } => {
            assert_eq!(payer.bytes, w.maker.to_bytes());
            assert_eq!(escrow.bytes, w.escrow.to_bytes());
            assert_eq!(*space, ESCROW_LEN as u64);
            assert_eq!(record.seed, SEED);
            assert_eq!(record.maker.bytes, w.maker.to_bytes());
            assert_eq!(record.mint_a.bytes, w.mint_a.to_bytes());
            assert_eq!(record.mint_b.bytes, w.mint_b.to_bytes());
            assert_eq!(record.receive, RECEIVE);
        }
        other => panic!("unexpected first step {:?}", other),
    }
    match &plan[1] {
        Effect::Transfer { source, destination, authority, amount, decimals, escrow_signer, .. } => {
            assert_eq!(source.bytes, w.maker_ta_a.to_bytes());
            assert_eq!(destination.bytes, w.vault.to_bytes());
            assert_eq!(authority.bytes, w.maker.to_bytes());
            assert_eq!(*amount, AMOUNT);
            assert_eq!(*decimals, DECIMALS_A);
            assert!(escrow_signer.is_none());
        }
        other => panic!("unexpected second step {:?}", other),
    }
    w.host.apply(&plan);
    assert_eq!(w.host.balance(&w.vault), Some(AMOUNT));
    assert_eq!(w.host.balance(&w.maker_ta_a), Some(1_000_000_000 - AMOUNT));
}

#[test]
fn take() {
    let mut w = world();
    open(&mut w);
    assert_eq!(w.host.balance(&w.vault), Some(100000));
    let plan = run(&take_accounts(&w), &[1]).unwrap();
    assert_eq!(plan.len(), 4);
    w.host.apply(&plan);
    assert_eq!(w.host.balance(&w.taker_ta_a), Some(100000));
    assert_eq!(w.host.balance(&w.maker_ta_b), Some(100000));
    assert_eq!(w.host.balance(&w.taker_ta_b), Some(1_000_000_000 - 100000));
    assert_eq!(w.host.balance(&w.vault), None);
    assert!(w.host.records.is_empty());
    assert_eq!(err_of(run(&take_accounts(&w), &[1])), EscrowError::RecordNotFound);
    assert_eq!(err_of(run(&refund_accounts(&w), &[2])), EscrowError::RecordNotFound);
}

#[test]
fn refund() {
    let mut w = world();
    open(&mut w);
    let before = w.host.balance(&w.maker_ta_a).unwrap();
    let plan = run(&refund_accounts(&w), &[2]).unwrap();
    assert_eq!(plan.len(), 3);
    w.host.apply(&plan);
    assert_eq!(w.host.balance(&w.maker_ta_a), Some(before + 100000));
    assert_eq!(w.host.balance(&w.maker_ta_a), Some(1_000_000_000));
    assert_eq!(w.host.balance(&w.vault), None);
    assert!(w.host.records.is_empty());
    assert_eq!(err_of(run(&take_accounts(&w), &[1])), EscrowError::RecordNotFound);
}

#[test]
fn take_pays_maker_before_releasing_vault() {
    let mut w = world();
    open(&mut w);
    let plan = run(&take_accounts(&w), &[1]).unwrap();
    match (&plan[0], &plan[1], &plan[2], &plan[3]) {
        (
            Effect::Transfer { source: s0, destination: d0, authority: a0, amount: m0, decimals: c0, escrow_signer: g0, .. },
            Effect::Transfer { source: s1, destination: d1, authority: a1, amount: m1, decimals: c1, escrow_signer: g1, .. },
            Effect::CloseVault { vault, destination, authority, signer, .. },
            Effect::CloseEscrow { escrow, beneficiary },
        ) => {
            assert_eq!((s0.bytes, d0.bytes, a0.bytes), (w.taker_ta_b.to_bytes(), w.maker_ta_b.to_bytes(), w.taker.to_bytes()));
            assert_eq!((*m0, *c0), (RECEIVE, DECIMALS_B));
            assert!(g0.is_none());
            assert_eq!((s1.bytes, d1.bytes, a1.bytes), (w.vault.to_bytes(), w.taker_ta_a.to_bytes(), w.escrow.to_bytes()));
            assert_eq!((*m1, *c1), (AMOUNT, DECIMALS_A));
            let g1 = g1.unwrap();
            assert_eq!((g1.maker.bytes, g1.seed), (w.maker.to_bytes(), SEED));
            let (_, bump) = Pubkey::find_program_address(&[b"escrow", w.maker.as_ref(), &SEED.to_le_bytes()], &pid());
            assert_eq!(g1.bump, bump);
            assert_eq!(signer.bump, bump);
            assert_eq!((vault.bytes, destination.bytes, authority.bytes), (w.vault.to_bytes(), w.maker.to_bytes(), w.escrow.to_bytes()));
            assert_eq!((escrow.bytes, beneficiary.bytes), (w.escrow.to_bytes(), w.maker.to_bytes()));
        }
        other => panic!("unexpected plan {:?}", other),
    }
}

#[test]
fn take_moves_whole_vault_balance() {
    let mut w = world();
    open(&mut w);
    w.host.balances.insert(w.vault.to_bytes(), 123_456);
    let plan = run(&take_accounts(&w), &[1]).unwrap();
    match &plan[1] {
        Effect::Transfer { amount, .. } => assert_eq!(*amount, 123_456),
        other => panic!("unexpected step {:?}", other),
    }
}

#[test]
fn cancel_then_second_cancel_fails() {
    let mut w = world();
    open(&mut w);
    let plan = run(&refund_accounts(&w), &[2]).unwrap();
    w.host.apply(&plan);
    assert_eq!(err_of(run(&refund_accounts(&w), &[2])), EscrowError::RecordNotFound);
}

#[test]
fn wrong_program_is_refused() {
    let w = world();
    let other = Address::new(Pubkey::new_unique().to_bytes());
    let r = process_instruction(&other, &make_accounts(&w), &make_data(SEED, AMOUNT, RECEIVE));
    assert_eq!(err_of(r), EscrowError::IncorrectProgramId);
}

#[test]
fn unknown_or_missing_tag_is_refused() {
    let w = world();
    assert_eq!(err_of(run(&make_accounts(&w), &[])), EscrowError::InvalidOperation);
    assert_eq!(err_of(run(&make_accounts(&w), &[3])), EscrowError::InvalidOperation);
}

#[test]
fn short_payload_is_refused() {
    let w = world();
    let mut data = make_data(SEED, AMOUNT, RECEIVE);
    data.pop();
    assert_eq!(err_of(run(&make_accounts(&w), &data)), EscrowError::MalformedPayload);
}

#[test]
fn wrong_handle_count_is_refused() {
    let mut w = world();
    let mut accounts = make_accounts(&w);
    accounts.pop();
    assert_eq!(err_of(run(&accounts, &make_data(SEED, AMOUNT, RECEIVE))), EscrowError::MissingHandles);
    open(&mut w);
    let mut accounts = take_accounts(&w);
    accounts.pop();
    assert_eq!(err_of(run(&accounts, &[1])), EscrowError::MissingHandles);
    let mut accounts = refund_accounts(&w);
    accounts.push(handle(&w.maker, &w.system_program, false, Vec::new()));
    assert_eq!(err_of(run(&accounts, &[2])), EscrowError::MissingHandles);
}

#[test]
fn open_at_wrong_escrow_address_is_refused() {
    let w = world();
    let data = make_data(SEED + 1, AMOUNT, RECEIVE);
    assert_eq!(err_of(run(&make_accounts(&w), &data)), EscrowError::AddressMismatch);
}

#[test]
fn open_with_wrong_vault_is_refused() {
    let w = world();
    let mut accounts = make_accounts(&w);
    accounts[5] = handle(&Pubkey::new_unique(), &spl_token::ID, false, token_data(&w.mint_a, &w.escrow, 0));
    assert_eq!(err_of(run(&accounts, &make_data(SEED, AMOUNT, RECEIVE))), EscrowError::AddressMismatch);
}

#[test]
fn open_with_vault_of_other_authority_is_refused() {
    let w = world();
    let mut accounts = make_accounts(&w);
    accounts[5] = handle(&w.vault, &spl_token::ID, false, token_data(&w.mint_a, &w.maker, 0));
    assert_eq!(err_of(run(&accounts, &make_data(SEED, AMOUNT, RECEIVE))), EscrowError::AddressMismatch);
}

#[test]
fn open_with_uninitialized_vault_is_refused() {
    let w = world();
    let mut accounts = make_accounts(&w);
    accounts[5] = handle(&w.vault, &spl_token::ID, false, vec![0u8; Account::LEN]);
    assert_eq!(err_of(run(&accounts, &make_data(SEED, AMOUNT, RECEIVE))), EscrowError::InvalidAccountData);
}

#[test]
fn open_accepts_both_token_programs_only() {
    let w = world();
    let mut accounts = make_accounts(&w);
    accounts[6] = handle(&spl_token_2022::ID, &w.system_program, false, Vec::new());
    assert!(run(&accounts, &make_data(SEED, AMOUNT, RECEIVE)).is_ok());
    accounts[6] = handle(&Pubkey::new_unique(), &w.system_program, false, Vec::new());
    assert_eq!(err_of(run(&accounts, &make_data(SEED, AMOUNT, RECEIVE))), EscrowError::UnsupportedCustodian);
}

#[test]
fn take_with_wrong_asset_is_refused() {
    let mut w = world();
    open(&mut w);
    let mut accounts = take_accounts(&w);
    accounts[3] = handle(&Pubkey::new_unique(), &spl_token::ID, false, mint_data(DECIMALS_B));
    assert_eq!(err_of(run(&accounts, &[1])), EscrowError::AssetMismatch);
    let mut accounts = refund_accounts(&w);
    accounts[1] = handle(&w.mint_b, &spl_token::ID, false, mint_data(DECIMALS_B));
    assert_eq!(err_of(run(&accounts, &[2])), EscrowError::AssetMismatch);
}

#[test]
fn take_with_other_maker_is_refused() {
    let mut w = world();
    open(&mut w);
    let mut accounts = take_accounts(&w);
    accounts[1] = handle(&Pubkey::new_unique(), &w.system_program, false, Vec::new());
    assert_eq!(err_of(run(&accounts, &[1])), EscrowError::AddressMismatch);
}

#[test]
fn record_at_unrelated_address_is_refused() {
    let mut w = world();
    open(&mut w);
    let data = w.host.records[&w.escrow.to_bytes()].clone();
    let mut accounts = refund_accounts(&w);
    accounts[3] = handle(&Pubkey::new_unique(), &pid(), false, data);
    assert_eq!(err_of(run(&accounts, &[2])), EscrowError::AddressMismatch);
}

#[test]
fn take_with_wrong_vault_is_refused() {
    let mut w = world();
    open(&mut w);
    let mut accounts = take_accounts(&w);
    accounts[8] = handle(&Pubkey::new_unique(), &spl_token::ID, false, token_data(&w.mint_a, &w.escrow, AMOUNT));
    assert_eq!(err_of(run(&accounts, &[1])), EscrowError::AddressMismatch);
}

#[test]
fn take_with_bad_vault_data_is_refused() {
    let mut w = world();
    open(&mut w);
    let mut accounts = take_accounts(&w);
    accounts[8] = handle(&w.vault, &spl_token::ID, false, vec![1u8; 10]);
    assert_eq!(err_of(run(&accounts, &[1])), EscrowError::InvalidAccountData);
}

#[test]
fn take_with_unsupported_custodian_is_refused() {
    let mut w = world();
    open(&mut w);
    let mut accounts = take_accounts(&w);
    accounts[9] = handle(&Pubkey::new_unique(), &w.system_program, false, Vec::new());
    assert_eq!(err_of(run(&accounts, &[1])), EscrowError::UnsupportedCustodian);
}

#[test]
fn unsigned_cancel_is_refused() {
    let mut w = world();
    open(&mut w);
    let mut accounts = refund_accounts(&w);
    accounts[0].is_signer = false;
    assert_eq!(err_of(run(&accounts, &[2])), EscrowError::Unauthorized);
}

#[test]
fn record_of_wrong_size_is_refused() {
    let mut w = world();
    open(&mut w);
    let mut accounts = take_accounts(&w);
    accounts[7].data.push(0);
    assert_eq!(err_of(run(&accounts, &[1])), EscrowError::InvalidRecord);
}

#[test]
fn record_of_other_owner_is_not_found() {
    let mut w = world();
    open(&mut w);
    let mut accounts = take_accounts(&w);
    accounts[7].owner = addr(&Pubkey::new_unique());
    assert_eq!(err_of(run(&accounts, &[1])), EscrowError::RecordNotFound);
}

#[test]
fn escrow_record_round_trips() {
    let e = Escrow {
        seed: 0x0102030405060708,
        maker: Address::new([7u8; 32]),
        mint_a: Address::new([8u8; 32]),
        mint_b: Address::new([9u8; 32]),
        receive: u64::MAX,
    };
    let bytes = e.to_bytes();
    assert_eq!(bytes.len(), 112);
    assert_eq!(&bytes[0..8], &[8, 7, 6, 5, 4, 3, 2, 1]);
    assert_eq!(&bytes[8..40], &[7u8; 32]);
    assert_eq!(&bytes[104..112], &[255u8; 8]);
    let back = Escrow::from_bytes(&bytes).unwrap();
    assert_eq!(back.seed, e.seed);
    assert_eq!(back.maker.bytes, e.maker.bytes);
    assert_eq!(back.mint_a.bytes, e.mint_a.bytes);
    assert_eq!(back.mint_b.bytes, e.mint_b.bytes);
    assert_eq!(back.receive, e.receive);
    assert!(Escrow::from_bytes(&bytes[..111]).is_none());
}

#[test]
fn instruction_tags_decode() {
    assert_eq!(EscrowInstructions::try_from(&0), Ok(EscrowInstructions::Make));
    assert_eq!(EscrowInstructions::try_from(&1), Ok(EscrowInstructions::Take));
    assert_eq!(EscrowInstructions::try_from(&2), Ok(EscrowInstructions::Refund));
    assert_eq!(EscrowInstructions::try_from(&255), Err(EscrowError::InvalidOperation));
}

#[test]
fn make_payload_decodes() {
    let data = make_data(SEED, AMOUNT, 7);
    assert_eq!(Make::try_from(&data[1..]), Ok(Make { seed: 1337, amount: 100000, receive: 7 }));
    assert_eq!(Make::try_from(&data[1..24]), Err(EscrowError::MalformedPayload));
    assert_eq!(Make::try_from(&[]), Err(EscrowError::MalformedPayload));
}

#[test]
fn derived_addresses_match_host_derivation() {
    let maker = Pubkey::new_unique();
    let (escrow, bump) = Pubkey::find_program_address(&[b"escrow", maker.as_ref(), &42u64.to_le_bytes()], &pid());
    let seeds = escrow_seeds(&addr(&maker), 42);
    assert_eq!(check_eq_program_derived_address_and_get_bump(&seeds, &program_id(), &addr(&escrow)), Ok(bump));
    assert_eq!(
        check_eq_program_derived_address_and_get_bump(&seeds, &program_id(), &addr(&maker)),
        Err(EscrowError::AddressMismatch)
    );
    let (vault, _) = Pubkey::find_program_address(&[b"vault", escrow.as_ref()], &pid());
    let vseeds = vault_seeds(&addr(&escrow));
    assert_eq!(check_eq_program_derived_address(&vseeds, &program_id(), &addr(&vault)), Ok(()));
    assert_eq!(check_eq_program_derived_address(&vseeds, &program_id(), &addr(&escrow)), Err(EscrowError::AddressMismatch));
}

#[test]
fn program_id_is_the_deployed_one() {
    let expected: Pubkey = "2oXupQcZBcNtq5H1SjzdAZ2eKv1AxiE6XbLk4Ancw2bB".parse().unwrap();
    assert_eq!(pid(), expected);
}

#[test]
fn custodians_are_the_two_token_programs() {
    assert!(is_supported_custodian(&addr(&spl_token::ID)));
    assert!(is_supported_custodian(&addr(&spl_token_2022::ID)));
    assert!(!is_supported_custodian(&addr(&Pubkey::default())));
}

#[test]
fn addresses_compare_bytewise() {
    let a = Address::new([1u8; 32]);
    let mut other = [1u8; 32];
    assert!(a.same(&Address::new(other)));
    other[31] = 2;
    assert!(!a.same(&Address::new(other)));
    assert!(Address::zeroed().same(&Address::new([0u8; 32])));
    assert_eq!(a.to_vec(), vec![1u8; 32]);
}

#[test]
fn overlong_seed_fails_derivation() {
    let seeds = vec![vec![101u8, 115, 99, 114, 111, 119], vec![0u8; 33]];
    let target = Address::new([3u8; 32]);
    assert_eq!(
        check_eq_program_derived_address_and_get_bump(&seeds, &program_id(), &target),
        Err(EscrowError::DerivationFailed)
    );
    assert_eq!(check_eq_program_derived_address(&seeds, &program_id(), &target), Err(EscrowError::DerivationFailed));
}

#[test]
fn token_program_identities_are_the_stated_bytes() {
    let classic: [u8; 32] = [
        6, 221, 246, 225, 215, 101, 161, 147, 217, 203, 225, 70, 206, 235, 121, 172, 28, 180, 133, 237, 95, 91, 55,
        145, 58, 140, 245, 133, 126, 255, 0, 169,
    ];
    let extended: [u8; 32] = [
        6, 221, 246, 225, 238, 117, 143, 222, 24, 66, 93, 188, 228, 108, 205, 218, 182, 26, 252, 77, 131, 185, 13, 39,
        254, 189, 249, 40, 216, 161, 139, 252,
    ];
    assert_eq!(spl_token::ID.to_bytes(), classic);
    assert_eq!(spl_token_2022::ID.to_bytes(), extended);
    assert!(is_supported_custodian(&Address::new(classic)));
    assert!(is_supported_custodian(&Address::new(extended)));
    let mut near = classic;
    near[31] ^= 1;
    assert!(!is_supported_custodian(&Address::new(near)));
}

#[test]
fn record_of_other_maker_is_refused() {
    // The slot lies at the address derived from the supplied maker, but the record in it
    // names someone else as its maker.
    let mut w = world();
    open(&mut w);
    let mut data = w.host.records[&w.escrow.to_bytes()].clone();
    let stranger = Pubkey::new_unique();
    data[8..40].copy_from_slice(&stranger.to_bytes());
    let mut accounts = take_accounts(&w);
    accounts[7] = handle(&w.escrow, &pid(), false, data.clone());
    assert_eq!(err_of(run(&accounts, &[1])), EscrowError::AddressMismatch);
    let mut accounts = refund_accounts(&w);
    accounts[3] = handle(&w.escrow, &pid(), false, data);
    assert_eq!(err_of(run(&accounts, &[2])), EscrowError::AddressMismatch);
}

#[test]
fn destroyed_slot_is_not_found() {
    let mut w = world();
    open(&mut w);
    let mut accounts = take_accounts(&w);
    accounts[7] = handle(&w.escrow, &Pubkey::default(), false, Vec::new());
    assert_eq!(err_of(run(&accounts, &[1])), EscrowError::RecordNotFound);
    let mut accounts = refund_accounts(&w);
    accounts[3] = handle(&w.escrow, &Pubkey::default(), false, Vec::new());
    assert_eq!(err_of(run(&accounts, &[2])), EscrowError::RecordNotFound);
}

#[test]
fn frozen_vault_is_read_but_bad_tags_are_refused() {
    let mut w = world();
    open(&mut w);
    let mut frozen = token_data(&w.mint_a, &w.escrow, AMOUNT);
    frozen[108] = 2;
    let mut accounts = refund_accounts(&w);
    accounts[4] = handle(&w.vault, &spl_token::ID, false, frozen.clone());
    assert!(run(&accounts, &[2]).is_ok());
    let mut bad_tag = frozen;
    bad_tag[72] = 2;
    accounts[4] = handle(&w.vault, &spl_token::ID, false, bad_tag);
    assert_eq!(err_of(run(&accounts, &[2])), EscrowError::InvalidAccountData);
    let mut mint = mint_data(DECIMALS_A);
    mint[45] = 0;
    let mut accounts = refund_accounts(&w);
    accounts[1] = handle(&w.mint_a, &spl_token::ID, false, mint);
    assert_eq!(err_of(run(&accounts, &[2])), EscrowError::InvalidAccountData);
}
