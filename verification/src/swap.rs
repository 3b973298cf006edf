use vstd::prelude::*;

use crate::address::Address;

verus! {

/// One account reference of a resolved instruction: the address plus the
/// signer and writable flags.
#[derive(Clone, Debug)]
pub struct AccountMeta {
    pub pubkey: Address,
    pub is_signer: bool,
    pub is_writable: bool,
}

/// A fully resolved instruction: program address, ordered account
/// references, and opaque data bytes. The terminal output handed to the
/// external signing and submission collaborator.
#[derive(Clone, Debug)]
pub struct Instruction {
    pub program_id: Address,
    pub accounts: Vec<AccountMeta>,
    pub data: Vec<u8>,
}

/// The execution-oriented output: resolved instructions, the lookup-table
/// addresses they reference, the compute-unit limit, and the route metadata
/// that matters for execution.
#[derive(Clone, Debug)]
pub struct SwapResponse {
    pub instructions: Vec<Instruction>,
    pub address_lookup_table_addresses: Vec<Address>,
    pub compute_unit_limit: u32,
    pub compute_units_safe: Option<u64>,
    pub context_slot: Option<u64>,
    pub expires_at_ms: Option<u64>,
    pub expires_after_slot: Option<u64>,
    pub transaction: Option<Vec<u8>>,
}

/// A resolved account reference carries exactly the decoded one's address
/// bytes and flags.
pub open spec fn account_meta_matches(m: AccountMeta, d: crate::quote::AccountMetaModel) -> bool {
    &&& m.pubkey@ == d.p
    &&& m.is_signer == d.s
    &&& m.is_writable == d.w
}

/// A resolved instruction carries exactly the decoded one's program address,
/// account references in order, and data bytes verbatim.
pub open spec fn instruction_matches(i: Instruction, d: crate::quote::InstructionModel) -> bool {
    &&& i.program_id@ == d.p
    &&& i.data@ == d.d
    &&& i.accounts@.len() == d.a.len()
    &&& forall|k: int|
        0 <= k < d.a.len() ==> account_meta_matches(#[trigger] i.accounts@[k], d.a[k])
}

} // verus!
