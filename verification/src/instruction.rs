//! Operations as the record store takes them: a program, the ordered records
//! that the operation touches, each with its flags, and the parameter bytes.

use crate::bytes::push_bytes;
use crate::pubkey::Pubkey;
use vstd::prelude::*;

verus! {

/// One record that an operation touches: its address, whether it signs and
/// whether it may be written.
#[derive(Debug, Clone, Copy, PartialEq, Eq)]
pub struct AccountMeta {
    pub pubkey: Pubkey,
    pub is_signer: bool,
    pub is_writable: bool,
}

impl AccountMeta {
    /// A record that the operation may write.
    pub fn new(pubkey: Pubkey, is_signer: bool) -> (r: Self)
        ensures
            r == (AccountMeta { pubkey, is_signer, is_writable: true }),
    {
        AccountMeta { pubkey, is_signer, is_writable: true }
    }

    /// A record that the operation only reads.
    pub fn new_readonly(pubkey: Pubkey, is_signer: bool) -> (r: Self)
        ensures
            r == (AccountMeta { pubkey, is_signer, is_writable: false }),
    {
        AccountMeta { pubkey, is_signer, is_writable: false }
    }
}

/// What an operation sees of a record that is handed to it: its address and
/// the flags under which it was handed over.
#[derive(Debug, Clone, Copy, PartialEq, Eq)]
pub struct AccountInfo {
    pub key: Pubkey,
    pub is_signer: bool,
    pub is_writable: bool,
}

impl AccountInfo {
    /// The entry that lists this record with the flags it has.
    pub open spec fn meta(&self) -> AccountMeta {
        AccountMeta { pubkey: self.key, is_signer: self.is_signer, is_writable: self.is_writable }
    }

    /// The entry that lists this record with the flags it has.
    pub fn to_account_meta(&self) -> (r: AccountMeta)
        ensures
            r == self.meta(),
    {
        if self.is_writable {
            AccountMeta::new(self.key, self.is_signer)
        } else {
            AccountMeta::new_readonly(self.key, self.is_signer)
        }
    }
}

/// A record handed to an operation together with what it holds.
#[derive(Debug, Clone, PartialEq, Eq)]
pub struct Account<T> {
    pub info: AccountInfo,
    pub data: T,
}

/// One operation for the record store.
#[derive(Debug, Clone, PartialEq, Eq)]
pub struct Instruction {
    pub program_id: Pubkey,
    pub accounts: Vec<AccountMeta>,
    pub data: Vec<u8>,
}

/// An operation as a value of specifications.
pub struct InstructionView {
    pub program_id: Pubkey,
    pub accounts: Seq<AccountMeta>,
    pub data: Seq<u8>,
}

impl View for Instruction {
    type V = InstructionView;

    open spec fn view(&self) -> InstructionView {
        InstructionView { program_id: self.program_id, accounts: self.accounts@, data: self.data@ }
    }
}

/// A list of operations as a value of specifications.
pub open spec fn instruction_views(instructions: Seq<Instruction>) -> Seq<InstructionView> {
    Seq::new(instructions.len(), |i: int| instructions[i]@)
}

impl Instruction {
    /// The operation of `program_id` on `accounts` with a copy of `data` as
    /// its parameter bytes.
    pub fn new_with_bytes(program_id: Pubkey, data: &[u8], accounts: Vec<AccountMeta>) -> (r: Self)
        ensures
            r.program_id == program_id,
            r.accounts@ == accounts@,
            r.data@ == data@,
            r@ == (InstructionView { program_id, accounts: accounts@, data: data@ }),
    {
        let mut copy: Vec<u8> = Vec::new();
        push_bytes(&mut copy, data);
        assert(copy@ =~= data@);
        Instruction { program_id, accounts, data: copy }
    }
}

/// A call from one program into another, ready to be made: the operation, the
/// records handed along in order, and the seed lists of the derived addresses
/// that sign for the caller.
#[derive(Debug, Clone, PartialEq, Eq)]
pub struct Invocation {
    pub instruction: Instruction,
    pub account_infos: Vec<AccountInfo>,
    pub signer_seeds: Vec<Vec<Vec<u8>>>,
}

} // verus!
