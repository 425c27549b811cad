//! The create-tree pipeline: allocate storage for a new tree account and
//! initialize its configuration, signed by the payer and the fresh tree key.

use vstd::prelude::*;

use crate::error::BuilderError;
use crate::instruction::{
    create_account_instruction, create_account_model, create_tree_instruction, create_tree_model,
    instr_model_wf, tree_account_size, tree_account_size_spec, InstrModel, Instruction, ProgramSet,
};
use crate::keys::{
    base58_decode_of, decode_secret, generate_keypair, secret_decode, Identifier, Keypair,
};
use crate::pda::{derive_pda, pda_search};
use crate::txn::{
    accounts_total, base64_of, instrs_model, sign_and_encode, signer_keys, signers_ok, tx_size_ok,
    tx_wire_of,
};

verus! {

/// The only tree depth the create-tree pipeline provisions.
pub const TREE_MAX_DEPTH: u32 = 14;

/// The only tree buffer size the create-tree pipeline provisions.
pub const TREE_MAX_BUFFER: u32 = 64;

/// What the create-tree pipeline must return for a payer and a tree keypair:
/// the base64 text of the signed transaction holding the storage-allocation
/// instruction and the tree-initialization instruction, or the error when no
/// configuration address exists.
pub open spec fn create_tree_wire(
    payer_bytes: Seq<u8>,
    tree_pub: Seq<u8>,
    tree_bytes: Seq<u8>,
    rent: u64,
    programs: ProgramSet,
    blockhash: Seq<u8>,
) -> Result<Seq<char>, BuilderError> {
    let payer_pub = payer_bytes.subrange(32, 64);
    match pda_search(seq![tree_pub], programs.bubblegum@, 255) {
        None => Err(BuilderError::NoValidAddress),
        Some((tree_config, _bump)) => {
            let size = tree_account_size_spec(TREE_MAX_DEPTH as nat, TREE_MAX_BUFFER as nat);
            let alloc_ix = create_account_model(
                payer_pub,
                tree_pub,
                rent,
                size as u64,
                programs.compression@,
                programs.system@,
            );
            let init_ix = create_tree_model(
                tree_config,
                tree_pub,
                payer_pub,
                TREE_MAX_DEPTH,
                TREE_MAX_BUFFER,
                Some(false),
                programs,
            );
            Ok(
                base64_of(
                    tx_wire_of(seq![alloc_ix, init_ix], payer_bytes, tree_bytes, blockhash),
                ),
            )
        },
    }
}

/// Builds, signs and encodes the two-instruction transaction that creates a
/// tree for the given fresh tree keypair: raw storage sized for the fixed
/// depth-14, buffer-64 profile, then the configuration account, non-public
/// and attributed to the payer.
pub fn create_tree_txn(
    payer: &Keypair,
    tree: &Keypair,
    rent: u64,
    programs: &ProgramSet,
    recent_blockhash: &Identifier,
) -> (r: Result<String, BuilderError>)
    requires
        payer.wf(),
        tree.wf(),
        programs.wf(),
        recent_blockhash.wf(),
    ensures
        match r {
            Ok(tx) => create_tree_wire(
                payer.bytes@,
                tree.public@,
                tree.bytes@,
                rent,
                *programs,
                recent_blockhash@,
            ) == Ok::<Seq<char>, BuilderError>(tx@),
            Err(e) => create_tree_wire(
                payer.bytes@,
                tree.public@,
                tree.bytes@,
                rent,
                *programs,
                recent_blockhash@,
            ) == Err::<Seq<char>, BuilderError>(e),
        },
{
    let mut seeds: Vec<Vec<u8>> = Vec::new();
    seeds.push(tree.public.bytes.clone());
    proof {
        assert(seeds@[0]@ =~= tree.public@);
        assert(seeds.deep_view() =~~= seq![tree.public@]);
    }
    let (tree_config, _bump) = match derive_pda(&seeds, &programs.bubblegum) {
        Err(_) => {
            return Err(BuilderError::NoValidAddress);
        },
        Ok(pair) => pair,
    };
    let size = tree_account_size(TREE_MAX_DEPTH, TREE_MAX_BUFFER);
    let alloc_ix = create_account_instruction(
        &payer.public,
        &tree.public,
        rent,
        size,
        &programs.compression,
        programs,
    );
    let init_ix = create_tree_instruction(
        &tree_config,
        &tree.public,
        &payer.public,
        TREE_MAX_DEPTH,
        TREE_MAX_BUFFER,
        Some(false),
        programs,
    );
    let mut ixs: Vec<Instruction> = Vec::new();
    ixs.push(alloc_ix);
    ixs.push(init_ix);
    let ghost m = instrs_model(ixs@);
    proof {
        assert(m =~= seq![ixs@[0]@, ixs@[1]@]);
        assert(instr_model_wf(m[0]));
        assert(instr_model_wf(m[1]));
        assert(seq![m[0], m[1]].drop_last() =~= seq![m[0]]);
        assert(seq![m[0]].drop_last() =~= Seq::<InstrModel>::empty());
        assert(accounts_total(Seq::<InstrModel>::empty()) == 0);
        assert(accounts_total(seq![m[0]]) == m[0].accounts.len() + 1);
        assert(m =~= seq![m[0], m[1]]);
        assert(accounts_total(m) == accounts_total(seq![m[0]]) + m[1].accounts.len() + 1);
        assert(m[0].accounts.len() == 2 && m[1].accounts.len() == 7);
        assert(m[0].data.len() == 52 && m[1].data.len() == 18);
        assert(tx_size_ok(m));
        assert forall|k: Seq<u8>|
            signer_keys(m).contains(k) implies k == payer.public@ || k == tree.public@ by {
            let (i, j): (int, int) = choose|i: int, j: int|
                0 <= i < m.len() && 0 <= j < m[i].accounts.len()
                    && (#[trigger] m[i].accounts[j]).signer && m[i].accounts[j].key == k;
            if i == 0 {
                assert(k == payer.public@ || k == tree.public@);
            } else {
                assert(i == 1);
                assert(m[1].accounts[j].signer ==> j == 2 || j == 3);
            }
        }
        assert(m[0].accounts[1].signer && m[0].accounts[1].key == tree.public@);
        assert(signer_keys(m).contains(tree.public@));
        assert(signers_ok(m, payer.public@, tree.public@));
    }
    match sign_and_encode(&ixs, payer, tree, recent_blockhash) {
        Ok(tx) => Ok(tx),
        Err(_) => vstd::pervasive::unreached(),
    }
}

/// Decodes the payer secret, generates a fresh tree keypair, and returns the
/// signed create-tree transaction as base64 text together with the new
/// tree's base58 address.
pub fn create_tree_config_builder(
    payer_secret_key: &str,
    rent: u64,
    programs: &ProgramSet,
    recent_blockhash: &Identifier,
) -> (r: Result<(String, String), BuilderError>)
    requires
        programs.wf(),
        recent_blockhash.wf(),
    ensures
        match r {
            Ok((tx, addr)) => secret_decode(payer_secret_key@) is Ok && exists|tree: Keypair|
                (#[trigger] tree.wf()) && create_tree_wire(
                    secret_decode(payer_secret_key@)->Ok_0,
                    tree.public@,
                    tree.bytes@,
                    rent,
                    *programs,
                    recent_blockhash@,
                ) == Ok::<Seq<char>, BuilderError>(tx@) && base58_decode_of(addr@) == Some(
                    tree.public@,
                ),
            Err(e) => secret_decode(payer_secret_key@) == Err::<Seq<u8>, BuilderError>(e) || (
            secret_decode(payer_secret_key@) is Ok && e == BuilderError::NoValidAddress),
        },
{
    let payer = match decode_secret(payer_secret_key) {
        Err(e) => {
            return Err(e);
        },
        Ok(kp) => kp,
    };
    let tree = generate_keypair();
    let addr = tree.public.to_base58();
    match create_tree_txn(&payer, &tree, rent, programs, recent_blockhash) {
        Err(e) => Err(e),
        Ok(tx) => {
            proof {
                assert(tree.wf() && create_tree_wire(
                    secret_decode(payer_secret_key@)->Ok_0,
                    tree.public@,
                    tree.bytes@,
                    rent,
                    *programs,
                    recent_blockhash@,
                ) == Ok::<Seq<char>, BuilderError>(tx@) && base58_decode_of(addr@) == Some(
                    tree.public@,
                ));
            }
            Ok((tx, addr))
        },
    }
}

} // verus!
