//! Accounts and instructions as plain values.

use vstd::prelude::*;

verus! {

/// An account as an instruction sees it.
#[derive(Clone, Debug)]
pub struct Account {
    /// The account's address.
    pub key: [u8; 32],
    /// The program that owns the account.
    pub owner: [u8; 32],
    /// The balance that the account reserves.
    pub lamports: u64,
    /// The account's data.
    pub data: Vec<u8>,
    /// Whether the account signed the transaction.
    pub is_signer: bool,
    /// Whether the transaction may write to the account.
    pub is_writable: bool,
}

/// An account that an instruction declares.
#[derive(Clone, Copy, Debug)]
pub struct AccountMeta {
    /// The account's address.
    pub pubkey: [u8; 32],
    /// Whether the account must sign.
    pub is_signer: bool,
    /// Whether the instruction may write to the account.
    pub is_writable: bool,
}

impl AccountMeta {
    /// A writable account.
    pub fn new(pubkey: [u8; 32], is_signer: bool) -> (r: Self)
        ensures
            r == (AccountMeta { pubkey, is_signer, is_writable: true }),
            r@ == writable(pubkey@, is_signer),
    {
        AccountMeta { pubkey, is_signer, is_writable: true }
    }

    /// A read-only account.
    pub fn new_readonly(pubkey: [u8; 32], is_signer: bool) -> (r: Self)
        ensures
            r == (AccountMeta { pubkey, is_signer, is_writable: false }),
            r@ == readonly(pubkey@, is_signer),
    {
        AccountMeta { pubkey, is_signer, is_writable: false }
    }
}

/// An instruction to submit: the program, the accounts it declares, and its
/// encoded payload.
#[derive(Clone, Debug)]
pub struct Instruction {
    /// The program that processes the instruction.
    pub program_id: [u8; 32],
    /// The accounts that the instruction declares, in order.
    pub accounts: Vec<AccountMeta>,
    /// The encoded payload.
    pub data: Vec<u8>,
}

/// A declared account as a mathematical value.
pub struct AccountMetaView {
    pub pubkey: Seq<u8>,
    pub is_signer: bool,
    pub is_writable: bool,
}

impl View for AccountMeta {
    type V = AccountMetaView;

    open spec fn view(&self) -> AccountMetaView {
        AccountMetaView {
            pubkey: self.pubkey@,
            is_signer: self.is_signer,
            is_writable: self.is_writable,
        }
    }
}

/// An instruction as a mathematical value.
pub struct InstructionView {
    pub program_id: Seq<u8>,
    pub accounts: Seq<AccountMetaView>,
    pub data: Seq<u8>,
}

/// The declared accounts of a list as mathematical values.
pub open spec fn meta_views(accounts: Seq<AccountMeta>) -> Seq<AccountMetaView> {
    Seq::new(accounts.len(), |i: int| accounts[i]@)
}

impl View for Instruction {
    type V = InstructionView;

    open spec fn view(&self) -> InstructionView {
        InstructionView {
            program_id: self.program_id@,
            accounts: meta_views(self.accounts@),
            data: self.data@,
        }
    }
}

/// A writable account, as `AccountMeta::new` makes it.
pub open spec fn writable(pubkey: Seq<u8>, is_signer: bool) -> AccountMetaView {
    AccountMetaView { pubkey, is_signer, is_writable: true }
}

/// A read-only account, as `AccountMeta::new_readonly` makes it.
pub open spec fn readonly(pubkey: Seq<u8>, is_signer: bool) -> AccountMetaView {
    AccountMetaView { pubkey, is_signer, is_writable: false }
}

} // verus!
