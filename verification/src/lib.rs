//! Builders for signed binary transactions of a compressed-NFT ledger
//! protocol: creating a compression tree, minting a leaf into it, and
//! transferring ownership of a leaf.

use vstd::prelude::*;

pub mod encode;
pub mod error;
pub mod instruction;
pub mod keys;
pub mod mint;
pub mod pda;
pub mod transfer;
pub mod tree;
pub mod txn;

use crate::error::BuilderError;
use crate::instruction::ProgramSet;
use crate::keys::Identifier;
use crate::transfer::transfer_outcome;

verus! {

/// Entry point for a leaf transfer from plain arguments: the leaf index
/// reuses the nonce, the owner and delegate default to the payer, and the
/// tree-configuration address is derived from the tree address.
pub fn transfer_builder(
    payer_secret_key: String,
    to_address: String,
    asset_id: String,
    nonce: u64,
    data_hash: String,
    creator_hash: String,
    root: String,
    proof_list: Vec<String>,
    merkle_tree: String,
    programs: &ProgramSet,
    recent_blockhash: &Identifier,
) -> (r: Result<String, BuilderError>)
    requires
        programs.wf(),
        recent_blockhash.wf(),
    ensures
        ({
            let outcome = transfer_outcome(
                payer_secret_key@,
                to_address@,
                Some(nonce),
                Some(data_hash@),
                Some(creator_hash@),
                Some(root@),
                Some(proof_list.deep_view()),
                Some(merkle_tree@),
                None,
                Some(nonce as u32),
                None,
                None,
                false,
                *programs,
                recent_blockhash@,
            );
            match r {
                Ok(s) => outcome == Ok::<Seq<char>, BuilderError>(s@),
                Err(e) => outcome == Err::<Seq<char>, BuilderError>(e),
            }
        }),
{
    let index: u32 = #[verifier::truncate] (nonce as u32);
    crate::transfer::transfer_builder(
        payer_secret_key.as_str(),
        to_address.as_str(),
        Some(asset_id),
        Some(nonce),
        Some(data_hash),
        Some(creator_hash),
        Some(root),
        Some(proof_list),
        Some(merkle_tree),
        None,
        Some(index),
        None,
        None,
        None,
        None,
        programs,
        recent_blockhash,
    )
}

} // verus!
