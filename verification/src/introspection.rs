use crate::pubkey::Pubkey;
use vstd::prelude::*;

verus! {

/// One instruction of the running transaction, as far as this program looks
/// at it: the program it is addressed to and its data.
#[derive(Clone, Debug)]
pub struct Instruction {
    pub program_id: Pubkey,
    pub data: Vec<u8>,
}

/// What the host's instruction introspection finds at position `index` of the
/// transaction whose serialized instruction list is `data`: the program id
/// and the data of that instruction, or nothing where the list has no such
/// position or is malformed.
pub uninterp spec fn instruction_at(index: int, data: Seq<u8>) -> Option<(Seq<u8>, Seq<u8>)>;

/// Calls `load_instruction_at_checked` of
/// `anchor_lang::solana_program::sysvar::instructions` on `data` presented as
/// the instructions sysvar account.
///
/// Not proved: that what comes back is `instruction_at(index, data)`. This
/// only gives the outcome of the outside parser a name; nothing is claimed
/// about which bytes it reads. Every failure of the parser is reported as
/// `None`.
#[verifier::external_body]
pub(crate) fn load_instruction_at(index: usize, data: &[u8]) -> (loaded: Option<Instruction>)
    ensures
        match loaded {
            Some(ix) => instruction_at(index as int, data@) == Some((ix.program_id.bytes@, ix.data@)),
            None => instruction_at(index as int, data@) is None,
        },
{
    let key = anchor_lang::solana_program::sysvar::instructions::ID;
    let owner = anchor_lang::prelude::Pubkey::default();
    let mut lamports: u64 = 0;
    let mut buffer: Vec<u8> = data.to_vec();
    let account = anchor_lang::prelude::AccountInfo::new(
        &key, false, false, &mut lamports, &mut buffer, &owner, false, 0,
    );
    match anchor_lang::solana_program::sysvar::instructions::load_instruction_at_checked(index, &account) {
        Ok(ix) => Some(Instruction { program_id: Pubkey { bytes: ix.program_id.to_bytes() }, data: ix.data }),
        Err(_) => None,
    }
}

} // verus!
