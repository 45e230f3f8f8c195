//! Plain images of what the host hands to an instruction and takes back
//! from it: accounts as they are read, and instructions to be invoked.

use vstd::prelude::*;
use crate::pubkey::Pubkey;

verus! {

/// What an instruction reads of an account that it is given.
#[derive(Clone, Debug, PartialEq, Eq)]
pub struct AccountView {
    pub key: Pubkey,
    pub owner: Pubkey,
    pub executable: bool,
    pub data: Vec<u8>,
}

/// One account of an instruction to be invoked.
#[derive(Clone, Copy, Debug, PartialEq, Eq)]
pub struct AccountMeta {
    pub pubkey: Pubkey,
    pub is_signer: bool,
    pub is_writable: bool,
}

/// An instruction for another program, to be invoked by the caller.
#[derive(Clone, Debug, PartialEq, Eq)]
pub struct Instruction {
    pub program_id: Pubkey,
    pub accounts: Vec<AccountMeta>,
    pub data: Vec<u8>,
}

/// The mathematical content of an [`Instruction`].
pub struct InstructionView {
    pub program_id: Pubkey,
    pub accounts: Seq<AccountMeta>,
    pub data: Seq<u8>,
}

impl View for Instruction {
    type V = InstructionView;

    open spec fn view(&self) -> InstructionView {
        InstructionView {
            program_id: self.program_id,
            accounts: self.accounts@,
            data: self.data@,
        }
    }
}

/// An account that the instruction writes and that does not sign.
pub open spec fn writable(pubkey: Pubkey) -> AccountMeta {
    AccountMeta { pubkey, is_signer: false, is_writable: true }
}

/// An account that the instruction writes and that signs.
pub open spec fn writable_signer(pubkey: Pubkey) -> AccountMeta {
    AccountMeta { pubkey, is_signer: true, is_writable: true }
}

/// An account that the instruction only reads and that does not sign.
pub open spec fn readonly(pubkey: Pubkey) -> AccountMeta {
    AccountMeta { pubkey, is_signer: false, is_writable: false }
}

/// An account that the instruction only reads and that signs.
pub open spec fn readonly_signer(pubkey: Pubkey) -> AccountMeta {
    AccountMeta { pubkey, is_signer: true, is_writable: false }
}

/// The mathematical content of an instruction that may be missing.
pub open spec fn instruction_view(instruction: Option<Instruction>) -> Option<InstructionView> {
    match instruction {
        Some(ix) => Some(ix@),
        None => None,
    }
}

} // verus!
