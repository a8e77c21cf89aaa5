use vstd::prelude::*;
use vstd::bytes::{spec_u64_to_le_bytes, u64_to_le_bytes};
use solana_program::pubkey::Pubkey;
use crate::address::Address;
use crate::error::EscrowError;

verus! {

/// The program derived address and bump that the host's search finds for `seeds` under
/// `program_id`, or `None` when no bump gives an off-curve address.
pub uninterp spec fn program_address_of(seeds: Seq<Seq<u8>>, program_id: Seq<u8>) -> Option<(Seq<u8>, u8)>;

/// Relies on `Pubkey::try_find_program_address`: a deterministic search over the bump
/// values that returns the first off-curve address, or `None`; it does not panic.
#[verifier::external_body]
fn find_program_address(seeds: &Vec<Vec<u8>>, program_id: &Address) -> (r: Option<(Address, u8)>)
    ensures
        match r {
            Some(found) => program_address_of(seeds.deep_view(), program_id@) == Some((found.0@, found.1)),
            None => program_address_of(seeds.deep_view(), program_id@) is None,
        },
{
    let refs: Vec<&[u8]> = seeds.iter().map(|s| s.as_slice()).collect();
    Pubkey::try_find_program_address(&refs, &Pubkey::new_from_array(program_id.bytes))
        .map(|(a, b)| (Address { bytes: a.to_bytes() }, b))
}

/// The identity of this escrow program.
pub open spec fn program_id_bytes() -> Seq<u8> {
    seq![
        26u8, 199, 90, 220, 20, 48, 48, 173, 220, 243, 254, 126, 150, 154, 129, 206,
        250, 68, 129, 75, 157, 156, 165, 63, 227, 99, 218, 45, 162, 242, 8, 98,
    ]
}

/// The identity of this escrow program.
pub fn program_id() -> (r: Address)
    ensures
        r@ == program_id_bytes(),
{
    let r = Address {
        bytes: [
            26u8, 199, 90, 220, 20, 48, 48, 173, 220, 243, 254, 126, 150, 154, 129, 206,
            250, 68, 129, 75, 157, 156, 165, 63, 227, 99, 218, 45, 162, 242, 8, 98,
        ],
    };
    assert(r@ =~= program_id_bytes());
    r
}

/// The namespace tag of escrow records: "escrow".
pub open spec fn escrow_tag() -> Seq<u8> {
    seq![101u8, 115, 99, 114, 111, 119]
}

/// The namespace tag of vaults: "vault".
pub open spec fn vault_tag() -> Seq<u8> {
    seq![118u8, 97, 117, 108, 116]
}

/// The derivation inputs of the escrow that `maker` opens under `seed`.
pub open spec fn escrow_seeds_of(maker: Seq<u8>, seed: u64) -> Seq<Seq<u8>> {
    seq![escrow_tag(), maker, spec_u64_to_le_bytes(seed)]
}

/// The derivation inputs of the vault of the escrow at `escrow`.
pub open spec fn vault_seeds_of(escrow: Seq<u8>) -> Seq<Seq<u8>> {
    seq![vault_tag(), escrow]
}

/// What checking `address` against the derivation of `seeds` under `program` gives: the
/// bump when the derived address is `address`.
pub open spec fn derivation_check(seeds: Seq<Seq<u8>>, program: Seq<u8>, address: Seq<u8>) -> Result<u8, EscrowError> {
    match program_address_of(seeds, program) {
        None => Err(EscrowError::DerivationFailed),
        Some(found) => if found.0 == address {
            Ok(found.1)
        } else {
            Err(EscrowError::AddressMismatch)
        },
    }
}

/// The address of the escrow that `maker` opens under `seed`, when the derivation succeeds.
pub open spec fn escrow_address_of(maker: Seq<u8>, seed: u64) -> Option<Seq<u8>> {
    match program_address_of(escrow_seeds_of(maker, seed), program_id_bytes()) {
        Some(found) => Some(found.0),
        None => None,
    }
}

/// The address of the vault of the escrow at `escrow`, when the derivation succeeds.
pub open spec fn vault_address_of(escrow: Seq<u8>) -> Option<Seq<u8>> {
    match program_address_of(vault_seeds_of(escrow), program_id_bytes()) {
        Some(found) => Some(found.0),
        None => None,
    }
}

/// A byte vector's deep view is its view.
proof fn lemma_bytes_deep_view(v: Vec<u8>)
    ensures
        v.deep_view() == v@,
{
    assert(v.deep_view() =~= v@);
}

/// The derivation inputs `["escrow", maker, seed as 8 little-endian bytes]`.
pub fn escrow_seeds(maker: &Address, seed: u64) -> (r: Vec<Vec<u8>>)
    ensures
        r.deep_view() == escrow_seeds_of(maker@, seed),
{
    let tag: Vec<u8> = vec![101u8, 115, 99, 114, 111, 119];
    let r: Vec<Vec<u8>> = vec![tag, maker.to_vec(), u64_to_le_bytes(seed)];
    proof {
        lemma_bytes_deep_view(r@[0]);
        lemma_bytes_deep_view(r@[1]);
        lemma_bytes_deep_view(r@[2]);
        assert(r@[0]@ =~= escrow_tag());
        assert(r.deep_view() =~= escrow_seeds_of(maker@, seed));
    }
    r
}

/// The derivation inputs `["vault", escrow]`.
pub fn vault_seeds(escrow: &Address) -> (r: Vec<Vec<u8>>)
    ensures
        r.deep_view() == vault_seeds_of(escrow@),
{
    let tag: Vec<u8> = vec![118u8, 97, 117, 108, 116];
    let r: Vec<Vec<u8>> = vec![tag, escrow.to_vec()];
    proof {
        lemma_bytes_deep_view(r@[0]);
        lemma_bytes_deep_view(r@[1]);
        assert(r@[0]@ =~= vault_tag());
        assert(r.deep_view() =~= vault_seeds_of(escrow@));
    }
    r
}

/// Checks that `address` is the program derived address of `seeds` under `program_id`.
pub fn check_eq_program_derived_address(seeds: &Vec<Vec<u8>>, program_id: &Address, address: &Address) -> (r: Result<(), EscrowError>)
    ensures
        match derivation_check(seeds.deep_view(), program_id@, address@) {
            Ok(_) => r is Ok,
            Err(e) => r == Err::<(), EscrowError>(e),
        },
{
    match check_eq_program_derived_address_and_get_bump(seeds, program_id, address) {
        Ok(_) => Ok(()),
        Err(e) => Err(e),
    }
}

/// Checks that `address` is the program derived address of `seeds` under `program_id`,
/// and returns the bump that derives it.
pub fn check_eq_program_derived_address_and_get_bump(seeds: &Vec<Vec<u8>>, program_id: &Address, address: &Address) -> (r: Result<u8, EscrowError>)
    ensures
        r == derivation_check(seeds.deep_view(), program_id@, address@),
{
    match find_program_address(seeds, program_id) {
        None => Err(EscrowError::DerivationFailed),
        Some(found) => if found.0.same(address) {
            Ok(found.1)
        } else {
            Err(EscrowError::AddressMismatch)
        },
    }
}

} // verus!
