//! Program-derived addresses. The address of a note account is derived
//! deterministically from the seed tuple ("note", author key, title bytes)
//! under this program's id; the derivation also selects the canonical bump
//! byte that pushes the address off the signing curve.
use std::str::FromStr;
use vstd::prelude::*;

verus! {

/// The stable base58-encoded identifier of this program, fixed at first
/// deployment.
pub const PROGRAM_ID: &'static str = "Fkswxi1MmPoHJMnG1AiYubb8WpMDBSLZ1o88aZhjJW5v";

/// Whether two 32-byte keys (or addresses) hold the same bytes.
pub fn key_eq(a: &Vec<u8>, b: &Vec<u8>) -> (r: bool)
    ensures
        r == (a@ == b@),
{
    let same = a == b;
    proof {
        if same {
            assert(a@ =~= b@);
        }
    }
    same
}

/// The canonical program-derived address for the seeds
/// ["note", author, title-bytes] under this program's id, or nothing in the
/// rare case that no bump byte yields an off-curve address — in particular
/// whenever the title exceeds the runtime's 32-byte seed limit.
pub uninterp spec fn pda_of(author: Seq<u8>, title: Seq<char>) -> Option<Seq<u8>>;

/// Relies on Pubkey::try_find_program_address of the runtime SDK: the
/// canonical derived address and bump for the given seeds and program id,
/// a function of its arguments alone; None when no bump works. A derived
/// address is 32 bytes.
#[verifier::external_body]
pub(crate) fn derive_note_address(author: &Vec<u8>, title: &str) -> (r: Option<Vec<u8>>)
    ensures
        r is Some <==> pda_of(author@, title@) is Some,
        r matches Some(a) ==> Some(a@) == pda_of(author@, title@) && a@.len() == 32,
{
    let program_id = anchor_lang::prelude::Pubkey::from_str(PROGRAM_ID).unwrap();
    let seeds: [&[u8]; 3] = [b"note", author.as_slice(), title.as_bytes()];
    anchor_lang::prelude::Pubkey::try_find_program_address(&seeds, &program_id)
        .map(|(address, _bump)| address.to_bytes().to_vec())
}

} // verus!
