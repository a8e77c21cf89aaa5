use vstd::prelude::*;
use crate::address::Address;

verus! {

/// What an operation sees of one account handed to it: its address, the program that owns
/// it, whether it signed the operation, and its data.
pub struct AccountHandle {
    pub key: Address,
    pub owner: Address,
    pub is_signer: bool,
    pub data: Vec<u8>,
}

/// The mathematical view of an [`AccountHandle`].
pub struct AccountView {
    pub key: Seq<u8>,
    pub owner: Seq<u8>,
    pub is_signer: bool,
    pub data: Seq<u8>,
}

impl View for AccountHandle {
    type V = AccountView;

    open spec fn view(&self) -> AccountView {
        AccountView { key: self.key@, owner: self.owner@, is_signer: self.is_signer, data: self.data@ }
    }
}

} // verus!
