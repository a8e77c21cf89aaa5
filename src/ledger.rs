use vstd::prelude::*;
use crate::account::AccountHandle;
use crate::derivation::{escrow_address_of, program_id_bytes, vault_address_of};
use crate::error::EscrowError;
use crate::instructions::{make_of, EscrowInstructions};
use crate::make::make_outcome;
use crate::plan::Effect;
use crate::refund::refund_outcome;
use crate::state::{escrow_bytes, escrow_of_bytes, EscrowView, ESCROW_LEN};
use crate::take::take_outcome;

verus! {

/// What the host holds: the balance of each token account, by address, and the record of
/// each open escrow, by the address of its slot.
pub struct Ledger {
    pub balances: Map<Seq<u8>, nat>,
    pub records: Map<Seq<u8>, EscrowView>,
}

/// The ledger after one step, or `None` where the host refuses the step (a slot that is
/// already taken, an unknown account, a short balance, a vault that is not empty).
pub open spec fn apply_effect(l: Ledger, e: Effect) -> Option<Ledger> {
    match e {
        Effect::CreateEscrow { escrow, record, .. } => if l.records.contains_key(escrow@) {
            None
        } else {
            Some(Ledger { records: l.records.insert(escrow@, record@), ..l })
        },
        Effect::Transfer { source, destination, amount, .. } => {
            if !l.balances.contains_key(source@) || !l.balances.contains_key(destination@) || l.balances[source@] < amount {
                None
            } else if source@ == destination@ {
                Some(l)
            } else {
                let moved = l.balances.insert(source@, (l.balances[source@] - amount) as nat);
                Some(Ledger { balances: moved.insert(destination@, (moved[destination@] + amount) as nat), ..l })
            }
        },
        Effect::CloseVault { vault, .. } => if l.balances.contains_key(vault@) && l.balances[vault@] == 0 {
            Some(Ledger { balances: l.balances.remove(vault@), ..l })
        } else {
            None
        },
        Effect::CloseEscrow { escrow, .. } => if l.records.contains_key(escrow@) {
            Some(Ledger { records: l.records.remove(escrow@), ..l })
        } else {
            None
        },
    }
}

/// The ledger after all steps of `plan` in order, or `None` where one is refused.
pub open spec fn apply_effects(l: Ledger, plan: Seq<Effect>) -> Option<Ledger>
    decreases plan.len(),
{
    if plan.len() == 0 {
        Some(l)
    } else {
        match apply_effect(l, plan[0]) {
            Some(next) => apply_effects(next, plan.drop_first()),
            None => None,
        }
    }
}

/// Whether the handle `h` shows the escrow slot at its address as the ledger holds it: the
/// stored record under this program where one is open; else an empty slot or one that
/// another program owns.
pub open spec fn shows_slot(l: Ledger, h: AccountHandle) -> bool {
    if l.records.contains_key(h.key@) {
        h.owner@ == program_id_bytes() && h.data@ == escrow_bytes(l.records[h.key@])
    } else {
        h.data@.len() == 0 || h.owner@ != program_id_bytes()
    }
}

/// Whether no address occurs twice in `keys`.
pub open spec fn distinct_accounts(keys: Seq<Seq<u8>>) -> bool {
    forall|i: int, j: int| 0 <= i < j < keys.len() ==> keys[i] != keys[j]
}

/// Applying a plan of two to four steps is applying its steps one by one.
proof fn lemma_apply_steps(l: Ledger, plan: Seq<Effect>)
    requires
        2 <= plan.len() <= 4,
    ensures
        apply_effects(l, plan) == (match apply_effect(l, plan[0]) {
            Some(l1) => match apply_effect(l1, plan[1]) {
                Some(l2) => if plan.len() == 2 {
                    Some(l2)
                } else {
                    match apply_effect(l2, plan[2]) {
                        Some(l3) => if plan.len() == 3 {
                            Some(l3)
                        } else {
                            apply_effect(l3, plan[3])
                        },
                        None => None,
                    }
                },
                None => None,
            },
            None => None,
        }),
{
    reveal_with_fuel(apply_effects, 5);
    let tail1 = plan.drop_first();
    let tail2 = tail1.drop_first();
    let tail3 = tail2.drop_first();
    assert(tail1[0] == plan[1]);
    if plan.len() >= 3 {
        assert(tail2[0] == plan[2]);
    }
    if plan.len() == 4 {
        assert(tail3[0] == plan[3]);
        assert(tail3.drop_first().len() == 0);
    }
}

/// Open validity: once an accepted Open has been applied, the record at the escrow
/// address derived from the maker and the seed holds exactly the supplied seed, maker,
/// assets and price, the vault (at the address derived from the escrow's) has gained
/// `amount` of asset A, and the maker's asset-A account has lost it.
pub proof fn lemma_open_validity(l: Ledger, accounts: Seq<AccountHandle>, data: Seq<u8>)
    requires
        make_outcome(accounts, data) is Ok,
        apply_effects(l, make_outcome(accounts, data)->Ok_0) is Some,
        accounts[3].key@ != accounts[5].key@,
    ensures
        ({
            let m = make_of(data)->Ok_0;
            let after = apply_effects(l, make_outcome(accounts, data)->Ok_0)->Some_0;
            let (maker, escrow, vault, maker_ta_a) = (accounts[0].key@, accounts[4].key@, accounts[5].key@, accounts[3].key@);
            &&& escrow_address_of(maker, m.seed) == Some(escrow)
            &&& vault_address_of(escrow) == Some(vault)
            &&& after.records[escrow] == (EscrowView {
                seed: m.seed,
                maker,
                mint_a: accounts[1].key@,
                mint_b: accounts[2].key@,
                receive: m.receive,
            })
            &&& after.balances[vault] == l.balances[vault] + m.amount
            &&& after.balances[maker_ta_a] == l.balances[maker_ta_a] - m.amount
        }),
{
    let plan = make_outcome(accounts, data)->Ok_0;
    lemma_apply_steps(l, plan);
}

/// Fulfill conservation: once an accepted Fulfill has been applied, with the vault holding
/// `V` before it and the record asking `R`, the taker's asset-A account has gained `V`, the
/// maker's asset-B account has gained `R`, the taker's asset-B account has lost `R`, and
/// neither the record nor the vault exists any more.
pub proof fn lemma_fulfill_conservation(l: Ledger, accounts: Seq<AccountHandle>)
    requires
        take_outcome(accounts) is Ok,
        apply_effects(l, take_outcome(accounts)->Ok_0) is Some,
        distinct_accounts(seq![accounts[4].key@, accounts[5].key@, accounts[6].key@, accounts[8].key@]),
    ensures
        ({
            let after = apply_effects(l, take_outcome(accounts)->Ok_0)->Some_0;
            let v = l.balances[accounts[8].key@];
            let r = escrow_of_bytes(accounts[7].data@).receive;
            &&& after.balances[accounts[4].key@] == l.balances[accounts[4].key@] + v
            &&& after.balances[accounts[6].key@] == l.balances[accounts[6].key@] + r
            &&& after.balances[accounts[5].key@] == l.balances[accounts[5].key@] - r
            &&& !after.records.contains_key(accounts[7].key@)
            &&& !after.balances.contains_key(accounts[8].key@)
        }),
{
    let plan = take_outcome(accounts)->Ok_0;
    lemma_apply_steps(l, plan);
}

/// Cancel conservation: once an accepted Cancel has been applied, with the vault holding
/// `V` before it, the maker's asset-A account has gained `V`, and neither the record nor
/// the vault exists any more.
pub proof fn lemma_cancel_conservation(l: Ledger, accounts: Seq<AccountHandle>)
    requires
        refund_outcome(accounts) is Ok,
        apply_effects(l, refund_outcome(accounts)->Ok_0) is Some,
        accounts[2].key@ != accounts[4].key@,
    ensures
        ({
            let after = apply_effects(l, refund_outcome(accounts)->Ok_0)->Some_0;
            &&& after.balances[accounts[2].key@] == l.balances[accounts[2].key@] + l.balances[accounts[4].key@]
            &&& !after.records.contains_key(accounts[3].key@)
            &&& !after.balances.contains_key(accounts[4].key@)
        }),
{
    let plan = refund_outcome(accounts)->Ok_0;
    lemma_apply_steps(l, plan);
}

/// What the settling operation `op` (Fulfill or Cancel) gives with handles `accounts`.
pub open spec fn settlement_outcome(op: EscrowInstructions, accounts: Seq<AccountHandle>) -> Result<Seq<Effect>, EscrowError> {
    match op {
        EscrowInstructions::Take => take_outcome(accounts),
        EscrowInstructions::Refund => refund_outcome(accounts),
        EscrowInstructions::Make => Err(EscrowError::InvalidOperation),
    }
}

/// The number of handles that `op` asks for.
pub open spec fn handle_count(op: EscrowInstructions) -> nat {
    match op {
        EscrowInstructions::Make => 8,
        EscrowInstructions::Take => 11,
        EscrowInstructions::Refund => 7,
    }
}

/// The escrow slot's handle among the handles of the settling operation `op`.
pub open spec fn escrow_handle(op: EscrowInstructions, accounts: Seq<AccountHandle>) -> AccountHandle {
    if op == EscrowInstructions::Take {
        accounts[7]
    } else {
        accounts[3]
    }
}

/// The maker's handle among the handles of the settling operation `op`.
pub open spec fn maker_handle(op: EscrowInstructions, accounts: Seq<AccountHandle>) -> AccountHandle {
    if op == EscrowInstructions::Take {
        accounts[1]
    } else {
        accounts[0]
    }
}

/// No double spend: once an accepted Fulfill or Cancel has been applied, a second Fulfill
/// or Cancel against the same escrow address, whose escrow handle shows the slot as the
/// ledger then holds it, is refused; with a full handle list (and, for a Cancel, the
/// maker's signature) it is refused as finding no record.
pub proof fn lemma_no_double_spend(
    l: Ledger,
    first_op: EscrowInstructions,
    first: Seq<AccountHandle>,
    second_op: EscrowInstructions,
    second: Seq<AccountHandle>,
)
    requires
        first_op != EscrowInstructions::Make,
        second_op != EscrowInstructions::Make,
        settlement_outcome(first_op, first) is Ok,
        apply_effects(l, settlement_outcome(first_op, first)->Ok_0) is Some,
        escrow_handle(second_op, second).key@ == escrow_handle(first_op, first).key@,
        shows_slot(apply_effects(l, settlement_outcome(first_op, first)->Ok_0)->Some_0, escrow_handle(second_op, second)),
    ensures
        settlement_outcome(second_op, second) is Err,
        second.len() == handle_count(second_op) && (second_op == EscrowInstructions::Refund ==> second[0].is_signer)
            ==> settlement_outcome(second_op, second) == Err::<Seq<Effect>, EscrowError>(EscrowError::RecordNotFound),
{
    let plan = settlement_outcome(first_op, first)->Ok_0;
    lemma_apply_steps(l, plan);
    let after = apply_effects(l, plan)->Some_0;
    assert(!after.records.contains_key(escrow_handle(first_op, first).key@));
}

/// A Fulfill or Cancel with a full handle list (and, for a Cancel, the maker's signature)
/// whose escrow handle shows a slot with no record of this program (empty, or owned by
/// another program, as a destroyed slot is) is refused as finding no record.
pub proof fn lemma_closed_slot_refused(op: EscrowInstructions, accounts: Seq<AccountHandle>)
    requires
        op != EscrowInstructions::Make,
        accounts.len() == handle_count(op),
        op == EscrowInstructions::Refund ==> accounts[0].is_signer,
        escrow_handle(op, accounts).data@.len() == 0 || escrow_handle(op, accounts).owner@ != program_id_bytes(),
    ensures
        settlement_outcome(op, accounts) == Err::<Seq<Effect>, EscrowError>(EscrowError::RecordNotFound),
{
}

/// Address binding: a Fulfill or Cancel whose escrow slot holds a well-formed record of
/// this program is refused with `AddressMismatch` where the slot's address is not the one
/// derived from the record's own stored maker and seed, or where the supplied maker is not
/// the stored one.
pub proof fn lemma_address_binding(op: EscrowInstructions, accounts: Seq<AccountHandle>)
    requires
        op != EscrowInstructions::Make,
        accounts.len() == handle_count(op),
        op == EscrowInstructions::Refund ==> accounts[0].is_signer,
        escrow_handle(op, accounts).owner@ == program_id_bytes(),
        escrow_handle(op, accounts).data@.len() == ESCROW_LEN,
        ({
            let stored = escrow_of_bytes(escrow_handle(op, accounts).data@);
            ||| stored.maker != maker_handle(op, accounts).key@
            ||| (escrow_address_of(stored.maker, stored.seed) matches Some(a) && a != escrow_handle(op, accounts).key@)
        }),
    ensures
        settlement_outcome(op, accounts) == Err::<Seq<Effect>, EscrowError>(EscrowError::AddressMismatch),
{
}

} // verus!
