use vstd::prelude::*;
use vstd::bytes::{spec_u64_from_le_bytes, spec_u64_to_le_bytes, u64_from_le_bytes, u64_to_le_bytes};
use vstd::slice::slice_subrange;
use crate::account::{AccountHandle, AccountView};
use crate::address::Address;
use crate::derivation::{check_eq_program_derived_address_and_get_bump, derivation_check, escrow_seeds, escrow_seeds_of, program_id, program_id_bytes};
use crate::error::EscrowError;

verus! {

/// Length of a stored escrow record: seed (8), maker (32), asset A (32), asset B (32),
/// receive (8), in that order, integers little-endian.
pub const ESCROW_LEN: usize = 112;

/// One open escrow: `maker` deposited asset `mint_a` and asks `receive` of asset `mint_b`.
#[derive(Clone, Copy, Debug)]
pub struct Escrow {
    pub seed: u64,
    pub maker: Address,
    pub mint_a: Address,
    pub mint_b: Address,
    pub receive: u64,
}

/// The mathematical view of an [`Escrow`].
pub struct EscrowView {
    pub seed: u64,
    pub maker: Seq<u8>,
    pub mint_a: Seq<u8>,
    pub mint_b: Seq<u8>,
    pub receive: u64,
}

impl View for Escrow {
    type V = EscrowView;

    open spec fn view(&self) -> EscrowView {
        EscrowView { seed: self.seed, maker: self.maker@, mint_a: self.mint_a@, mint_b: self.mint_b@, receive: self.receive }
    }
}

/// Whether every identity in `e` is 32 bytes long, as those of an [`Escrow`] are.
pub open spec fn escrow_view_wf(e: EscrowView) -> bool {
    e.maker.len() == 32 && e.mint_a.len() == 32 && e.mint_b.len() == 32
}

/// The stored layout of a record.
pub open spec fn escrow_bytes(e: EscrowView) -> Seq<u8> {
    spec_u64_to_le_bytes(e.seed) + e.maker + e.mint_a + e.mint_b + spec_u64_to_le_bytes(e.receive)
}

/// The record that stored bytes of length [`ESCROW_LEN`] hold.
pub open spec fn escrow_of_bytes(s: Seq<u8>) -> EscrowView {
    EscrowView {
        seed: spec_u64_from_le_bytes(s.subrange(0, 8)),
        maker: s.subrange(8, 40),
        mint_a: s.subrange(40, 72),
        mint_b: s.subrange(72, 104),
        receive: spec_u64_from_le_bytes(s.subrange(104, 112)),
    }
}

/// What loading the escrow slot `escrow` for `maker` gives: the record and the bump of its
/// address, or why the slot is refused. The record must name `maker` as its maker, and the
/// slot's address must be the one derived from that maker and the record's seed.
pub open spec fn load_outcome(maker: Seq<u8>, escrow: AccountView) -> Result<(EscrowView, u8), EscrowError> {
    if escrow.data.len() == 0 || escrow.owner != program_id_bytes() {
        Err(EscrowError::RecordNotFound)
    } else if escrow.data.len() != ESCROW_LEN {
        Err(EscrowError::InvalidRecord)
    } else if escrow_of_bytes(escrow.data).maker != maker {
        Err(EscrowError::AddressMismatch)
    } else {
        let e = escrow_of_bytes(escrow.data);
        match derivation_check(escrow_seeds_of(maker, e.seed), program_id_bytes(), escrow.key) {
            Ok(bump) => Ok((e, bump)),
            Err(err) => Err(err),
        }
    }
}

/// Decoding the stored layout gives back the record that was stored.
pub proof fn lemma_escrow_bytes_round_trip(e: EscrowView)
    requires
        escrow_view_wf(e),
    ensures
        escrow_bytes(e).len() == ESCROW_LEN,
        escrow_of_bytes(escrow_bytes(e)) == e,
{
    vstd::bytes::lemma_auto_spec_u64_to_from_le_bytes();
    let s = escrow_bytes(e);
    assert(s.subrange(0, 8) =~= spec_u64_to_le_bytes(e.seed));
    assert(s.subrange(8, 40) =~= e.maker);
    assert(s.subrange(40, 72) =~= e.mint_a);
    assert(s.subrange(72, 104) =~= e.mint_b);
    assert(s.subrange(104, 112) =~= spec_u64_to_le_bytes(e.receive));
}

/// The 32 bytes of `data` from `off` on, as an address.
fn address_at(data: &[u8], off: usize) -> (r: Address)
    requires
        off + 32 <= data@.len(),
    ensures
        r@ == data@.subrange(off as int, off + 32),
{
    let mut bytes = [0u8; 32];
    let mut i: usize = 0;
    while i < 32
        invariant
            0 <= i <= 32,
            off + 32 <= data.len(),
            bytes@.len() == 32,
            forall|j: int| 0 <= j < i ==> bytes@[j] == data@[off + j],
        decreases 32 - i,
    {
        bytes[i] = data[off + i];
        i += 1;
    }
    let r = Address { bytes };
    assert(r@ =~= data@.subrange(off as int, off + 32));
    r
}

impl Escrow {
    /// Decodes a stored record; `None` unless `data` has length [`ESCROW_LEN`].
    pub fn from_bytes(data: &[u8]) -> (r: Option<Escrow>)
        ensures
            r is Some <==> data@.len() == ESCROW_LEN,
            r matches Some(e) ==> e@ == escrow_of_bytes(data@),
    {
        if data.len() != ESCROW_LEN {
            return None;
        }
        let seed = u64_from_le_bytes(slice_subrange(data, 0, 8));
        let receive = u64_from_le_bytes(slice_subrange(data, 104, 112));
        let e = Escrow {
            seed,
            maker: address_at(data, 8),
            mint_a: address_at(data, 40),
            mint_b: address_at(data, 72),
            receive,
        };
        Some(e)
    }

    /// Encodes the record in its stored layout.
    pub fn to_bytes(&self) -> (r: Vec<u8>)
        ensures
            r@ == escrow_bytes(self@),
            r@.len() == ESCROW_LEN,
    {
        let mut r = u64_to_le_bytes(self.seed);
        let mut maker = self.maker.to_vec();
        let mut mint_a = self.mint_a.to_vec();
        let mut mint_b = self.mint_b.to_vec();
        let mut receive = u64_to_le_bytes(self.receive);
        r.append(&mut maker);
        r.append(&mut mint_a);
        r.append(&mut mint_b);
        r.append(&mut receive);
        proof {
            lemma_escrow_bytes_round_trip(self@);
        }
        r
    }

    /// Loads the record in the escrow slot and checks that it names `maker` as its maker
    /// and that the slot's address is the one derived from that maker and the record's
    /// seed; returns the record and that bump.
    pub fn get_data_and_bump(maker: &Address, escrow: &AccountHandle) -> (r: Result<(Escrow, u8), EscrowError>)
        ensures
            match r {
                Ok((e, bump)) => load_outcome(maker@, escrow@) == Ok::<(EscrowView, u8), EscrowError>((e@, bump)),
                Err(err) => load_outcome(maker@, escrow@) == Err::<(EscrowView, u8), EscrowError>(err),
            },
    {
        let program = program_id();
        if escrow.data.len() == 0 || !escrow.owner.same(&program) {
            return Err(EscrowError::RecordNotFound);
        }
        let e = match Escrow::from_bytes(escrow.data.as_slice()) {
            Some(e) => e,
            None => return Err(EscrowError::InvalidRecord),
        };
        if !e.maker.same(maker) {
            return Err(EscrowError::AddressMismatch);
        }
        let seeds = escrow_seeds(maker, e.seed);
        match check_eq_program_derived_address_and_get_bump(&seeds, &program, &escrow.key) {
            Ok(bump) => Ok((e, bump)),
            Err(err) => Err(err),
        }
    }
}

} // verus!
