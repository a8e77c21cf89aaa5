use vstd::prelude::*;
use vstd::bytes::spec_u64_from_le_bytes;
use solana_program::program_pack::Pack;
use spl_token::state::GenericTokenAccount;
use crate::address::Address;

verus! {

/// Length of a token account's data.
pub const TOKEN_ACCOUNT_LEN: usize = 165;

/// Length of a mint's data.
pub const MINT_LEN: usize = 82;

/// The identity of the classic token program.
pub open spec fn classic_token_program_bytes() -> Seq<u8> {
    seq![
        6u8, 221, 246, 225, 215, 101, 161, 147, 217, 203, 225, 70, 206, 235, 121, 172,
        28, 180, 133, 237, 95, 91, 55, 145, 58, 140, 245, 133, 126, 255, 0, 169,
    ]
}

/// The identity of the extended (2022) token program.
pub open spec fn extended_token_program_bytes() -> Seq<u8> {
    seq![
        6u8, 221, 246, 225, 238, 117, 143, 222, 24, 66, 93, 188, 228, 108, 205, 218,
        182, 26, 252, 77, 131, 185, 13, 39, 254, 189, 249, 40, 216, 161, 139, 252,
    ]
}

/// Whether `id` is one of the two asset custodians the escrow accepts.
pub open spec fn is_supported_custodian_spec(id: Seq<u8>) -> bool {
    id == classic_token_program_bytes() || id == extended_token_program_bytes()
}

/// Relies on `spl_token::ID`, the classic token program's identity.
#[verifier::external_body]
fn classic_token_program() -> (r: Address)
    ensures
        r@ == classic_token_program_bytes(),
{
    Address { bytes: spl_token::ID.to_bytes() }
}

/// Relies on `spl_token_2022::ID`, the extended token program's identity.
#[verifier::external_body]
fn extended_token_program() -> (r: Address)
    ensures
        r@ == extended_token_program_bytes(),
{
    Address { bytes: spl_token_2022::ID.to_bytes() }
}

/// Whether `id` is the classic or the extended token program.
pub fn is_supported_custodian(id: &Address) -> (r: bool)
    ensures
        r == is_supported_custodian_spec(id@),
{
    id.same(&classic_token_program()) || id.same(&extended_token_program())
}

/// The authority of a token account: bytes 32..64 of data of the token account's length
/// whose state byte (at 108) is not "uninitialized".
pub open spec fn token_account_owner_of(data: Seq<u8>) -> Option<Seq<u8>> {
    if data.len() == TOKEN_ACCOUNT_LEN && data[108] != 0 {
        Some(data.subrange(32, 64))
    } else {
        None
    }
}

/// Relies on `GenericTokenAccount::unpack_account_owner` for `spl_token::state::Account`:
/// the owner field when the data has the account length and is initialized.
#[verifier::external_body]
pub(crate) fn token_account_owner(data: &Vec<u8>) -> (r: Option<Address>)
    ensures
        match r {
            Some(a) => token_account_owner_of(data@) == Some(a@),
            None => token_account_owner_of(data@) is None,
        },
{
    spl_token::state::Account::unpack_account_owner(data.as_slice()).map(|k| Address { bytes: k.to_bytes() })
}

/// Whether the four bytes of `data` from `at` on are the tag of an optional field:
/// `[0, 0, 0, 0]` (absent) or `[1, 0, 0, 0]` (present).
pub open spec fn option_tag_ok(data: Seq<u8>, at: int) -> bool {
    (data[at] == 0 || data[at] == 1) && data[at + 1] == 0 && data[at + 2] == 0 && data[at + 3] == 0
}

/// The balance of token account data: the little-endian integer at bytes 64..72, where
/// the data has the account length, its three optional fields (delegate at 72, native
/// reserve at 109, close authority at 129) carry valid tags, and its state byte (at 108)
/// is initialized (1) or frozen (2).
pub open spec fn token_amount_of(data: Seq<u8>) -> Option<u64> {
    if data.len() == TOKEN_ACCOUNT_LEN && option_tag_ok(data, 72) && (data[108] == 1 || data[108] == 2)
        && option_tag_ok(data, 109) && option_tag_ok(data, 129) {
        Some(spec_u64_from_le_bytes(data.subrange(64, 72)))
    } else {
        None
    }
}

/// Relies on `Pack::unpack` for `spl_token::state::Account`: it refuses data of another
/// length, bad option tags, an unknown state and the uninitialized state, and reads the
/// amount at bytes 64..72.
#[verifier::external_body]
pub(crate) fn token_account_amount(data: &Vec<u8>) -> (r: Option<u64>)
    ensures
        r == token_amount_of(data@),
{
    spl_token::state::Account::unpack(data.as_slice()).ok().map(|a| a.amount)
}

/// The decimals of mint data: byte 44, where the data has the mint length, its two
/// optional authorities (at 0 and 46) carry valid tags, and its initialized byte (at 45)
/// is 1.
pub open spec fn mint_decimals_of(data: Seq<u8>) -> Option<u8> {
    if data.len() == MINT_LEN && option_tag_ok(data, 0) && data[45] == 1 && option_tag_ok(data, 46) {
        Some(data[44])
    } else {
        None
    }
}

/// Relies on `Pack::unpack` for `spl_token::state::Mint`: it refuses data of another
/// length, bad option tags and an initialized byte other than 1, and reads the decimals
/// at byte 44.
#[verifier::external_body]
pub(crate) fn mint_decimals(data: &Vec<u8>) -> (r: Option<u8>)
    ensures
        r == mint_decimals_of(data@),
{
    spl_token::state::Mint::unpack(data.as_slice()).ok().map(|m| m.decimals)
}

} // verus!
