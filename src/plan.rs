use vstd::prelude::*;
use crate::address::Address;
use crate::state::Escrow;

verus! {

/// The program's authority over the accounts of one escrow: the inputs that derive the
/// escrow's address, with its bump. The host signs for the escrow address with them.
#[derive(Clone, Copy, Debug)]
pub struct EscrowSigner {
    pub maker: Address,
    pub seed: u64,
    pub bump: u8,
}

/// One step that an accepted operation asks the host to carry out. An operation's steps
/// run in order, all or none.
#[derive(Clone, Copy, Debug)]
pub enum Effect {
    /// Allocate `space` bytes at `escrow`, funded by `payer`, owned by this program, and
    /// store `record` there.
    CreateEscrow { payer: Address, escrow: Address, signer: EscrowSigner, space: u64, record: Escrow },
    /// Move `amount` of `mint` from `source` to `destination`, authorised by `authority`;
    /// with an escrow signer the program signs for `authority`, else `authority` signed itself.
    Transfer {
        token_program: Address,
        source: Address,
        mint: Address,
        destination: Address,
        authority: Address,
        amount: u64,
        decimals: u8,
        escrow_signer: Option<EscrowSigner>,
    },
    /// Close the emptied `vault`, returning its storage deposit to `destination`.
    CloseVault { token_program: Address, vault: Address, destination: Address, authority: Address, signer: EscrowSigner },
    /// Destroy the escrow slot: zero and shrink it, hand its balance to `beneficiary`, and
    /// give it to the zero owner.
    CloseEscrow { escrow: Address, beneficiary: Address },
}

} // verus!
