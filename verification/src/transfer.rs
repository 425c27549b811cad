//! The transfer pipeline: validate and decode the supplied proof data,
//! assemble the transfer instruction, sign and encode.

use vstd::prelude::*;

use crate::error::{BuilderError, HashField, TransferField};
use crate::instruction::{instr_model_wf, transfer_instruction, transfer_model, InstrModel,
    Instruction, ProgramSet};
use crate::keys::{
    address_decode, decode_address, decode_hash, decode_proof, decode_secret, hash_decode,
    proof_decode, secret_decode, Identifier,
};
use crate::pda::{derive_pda, pda_search};
use crate::txn::{
    accounts_total, base64_of, instrs_model, sign_and_encode, signer_keys, signers_ok, tx_size_ok,
    tx_wire_of,
};

verus! {

/// The view of an optional string argument.
pub open spec fn opt_str_view(o: Option<String>) -> Option<Seq<char>> {
    match o {
        None => None,
        Some(s) => Some(s@),
    }
}

/// The view of an optional proof list argument.
pub open spec fn opt_list_view(o: Option<Vec<String>>) -> Option<Seq<Seq<char>>> {
    match o {
        None => None,
        Some(v) => Some(v.deep_view()),
    }
}

/// What the transfer pipeline must return for every input: the base64 text
/// of the signed transaction holding exactly the one transfer instruction,
/// or the exact error of the first stage that fails. Stages run in the order
/// the arguments are validated: keys, owner and delegate, proof, the three
/// hashes, nonce, index, tree address, tree configuration, then signing.
pub open spec fn transfer_outcome(
    secret: Seq<char>,
    new_leaf_owner: Seq<char>,
    leaf_id: Option<u64>,
    data_hash: Option<Seq<char>>,
    creator_hash: Option<Seq<char>>,
    root: Option<Seq<char>>,
    proof_list: Option<Seq<Seq<char>>>,
    merkle_tree: Option<Seq<char>>,
    tree_config: Option<Seq<char>>,
    index: Option<u32>,
    leaf_owner: Option<Seq<char>>,
    leaf_delegate: Option<Seq<char>>,
    das_proof_given: bool,
    programs: ProgramSet,
    blockhash: Seq<u8>,
) -> Result<Seq<char>, BuilderError> {
    match secret_decode(secret) {
        Err(e) => Err(e),
        Ok(kb) => {
            let payer_pub = kb.subrange(32, 64);
            match address_decode(new_leaf_owner) {
                Err(_) => Err(BuilderError::InvalidAddressString),
                Ok(new_owner) => {
                    let delegate_signs = leaf_delegate is Some;
                    let owner_r = match leaf_owner {
                        Some(s) => address_decode(s),
                        None => Ok(payer_pub),
                    };
                    match owner_r {
                        Err(_) => Err(BuilderError::InvalidAddressString),
                        Ok(owner) => {
                            let delegate_r = match leaf_delegate {
                                Some(s) => address_decode(s),
                                None => Ok(owner),
                            };
                            match delegate_r {
                                Err(_) => Err(BuilderError::InvalidAddressString),
                                Ok(delegate) => match proof_list {
                                    None => if das_proof_given {
                                        Err(BuilderError::UnsupportedProofSource)
                                    } else {
                                        Err(BuilderError::MissingField(TransferField::Proof))
                                    },
                                    Some(strings) => match proof_decode(strings) {
                                        Err(e) => Err(e),
                                        Ok(path) => transfer_outcome_tail(
                                            kb,
                                            payer_pub,
                                            new_owner,
                                            owner,
                                            delegate,
                                            delegate_signs,
                                            path,
                                            leaf_id,
                                            data_hash,
                                            creator_hash,
                                            root,
                                            merkle_tree,
                                            tree_config,
                                            index,
                                            programs,
                                            blockhash,
                                        ),
                                    },
                                },
                            }
                        },
                    }
                },
            }
        },
    }
}

/// The tail of the transfer outcome, from hash validation on.
pub open spec fn transfer_outcome_tail(
    kb: Seq<u8>,
    payer_pub: Seq<u8>,
    new_owner: Seq<u8>,
    owner: Seq<u8>,
    delegate: Seq<u8>,
    delegate_signs: bool,
    path: Seq<Seq<u8>>,
    leaf_id: Option<u64>,
    data_hash: Option<Seq<char>>,
    creator_hash: Option<Seq<char>>,
    root: Option<Seq<char>>,
    merkle_tree: Option<Seq<char>>,
    tree_config: Option<Seq<char>>,
    index: Option<u32>,
    programs: ProgramSet,
    blockhash: Seq<u8>,
) -> Result<Seq<char>, BuilderError> {
    let root_r = match root {
        Some(s) => hash_decode(s, HashField::Root),
        None => Err(BuilderError::MissingField(TransferField::Root)),
    };
    match root_r {
        Err(e) => Err(e),
        Ok(root_bytes) => {
            let dh_r = match data_hash {
                Some(s) => hash_decode(s, HashField::DataHash),
                None => Err(BuilderError::MissingField(TransferField::DataHash)),
            };
            match dh_r {
                Err(e) => Err(e),
                Ok(dh) => {
                    let ch_r = match creator_hash {
                        Some(s) => hash_decode(s, HashField::CreatorHash),
                        None => Err(BuilderError::MissingField(TransferField::CreatorHash)),
                    };
                    match ch_r {
                        Err(e) => Err(e),
                        Ok(ch) => match leaf_id {
                            None => Err(BuilderError::MissingField(TransferField::Nonce)),
                            Some(nonce) => match index {
                                None => Err(BuilderError::MissingField(TransferField::Index)),
                                Some(idx) => {
                                    let tree_r = match merkle_tree {
                                        Some(s) => match address_decode(s) {
                                            Err(_) => Err(BuilderError::InvalidAddressString),
                                            Ok(t) => Ok(t),
                                        },
                                        None => Err(
                                            BuilderError::MissingField(TransferField::TreeAddress),
                                        ),
                                    };
                                    match tree_r {
                                        Err(e) => Err(e),
                                        Ok(tree) => {
                                            let cfg_r = match tree_config {
                                                Some(s) => match address_decode(s) {
                                                    Err(_) => Err(
                                                        BuilderError::InvalidAddressString,
                                                    ),
                                                    Ok(c) => Ok(c),
                                                },
                                                None => match pda_search(
                                                    seq![tree],
                                                    programs.bubblegum@,
                                                    255,
                                                ) {
                                                    None => Err(BuilderError::NoValidAddress),
                                                    Some((c, _bump)) => Ok(c),
                                                },
                                            };
                                            match cfg_r {
                                                Err(e) => Err(e),
                                                Ok(cfg) => {
                                                    let ix = transfer_model(
                                                        cfg,
                                                        owner,
                                                        delegate,
                                                        new_owner,
                                                        tree,
                                                        delegate_signs,
                                                        root_bytes,
                                                        dh,
                                                        ch,
                                                        nonce,
                                                        idx,
                                                        path,
                                                        programs,
                                                    );
                                                    let signer_pub = if delegate_signs {
                                                        delegate
                                                    } else {
                                                        owner
                                                    };
                                                    if path.len() > 245 {
                                                        Err(
                                                            BuilderError::SerializationFailure,
                                                        )
                                                    } else if signer_pub == payer_pub {
                                                        Ok(
                                                            base64_of(
                                                                tx_wire_of(
                                                                    seq![ix],
                                                                    kb,
                                                                    kb,
                                                                    blockhash,
                                                                ),
                                                            ),
                                                        )
                                                    } else {
                                                        Err(BuilderError::SerializationFailure)
                                                    }
                                                },
                                            }
                                        },
                                    }
                                },
                            },
                        },
                    }
                },
            }
        },
    }
}

/// Builds, signs and encodes a transaction transferring one leaf to a new
/// owner. Every required field must be supplied; the authorizing signer is
/// the delegate when one is given, else the owner, and both default to the
/// payer.
pub fn transfer_builder(
    payer_secret_key: &str,
    new_leaf_owner: &str,
    asset_id: Option<String>,
    leaf_id: Option<u64>,
    data_hash: Option<String>,
    creator_hash: Option<String>,
    root: Option<String>,
    proof_list: Option<Vec<String>>,
    merkle_tree: Option<String>,
    tree_config: Option<String>,
    index: Option<u32>,
    leaf_owner: Option<String>,
    leaf_delegate: Option<String>,
    das_get_asset_proof: Option<String>,
    das_get_asset: Option<String>,
    programs: &ProgramSet,
    recent_blockhash: &Identifier,
) -> (r: Result<String, BuilderError>)
    requires
        programs.wf(),
        recent_blockhash.wf(),
    ensures
        ({
            let outcome = transfer_outcome(
                payer_secret_key@,
                new_leaf_owner@,
                leaf_id,
                opt_str_view(data_hash),
                opt_str_view(creator_hash),
                opt_str_view(root),
                opt_list_view(proof_list),
                opt_str_view(merkle_tree),
                opt_str_view(tree_config),
                index,
                opt_str_view(leaf_owner),
                opt_str_view(leaf_delegate),
                das_get_asset_proof is Some,
                *programs,
                recent_blockhash@,
            );
            match r {
                Ok(s) => outcome == Ok::<Seq<char>, BuilderError>(s@),
                Err(e) => outcome == Err::<Seq<char>, BuilderError>(e),
            }
        }),
{
    let payer = match decode_secret(payer_secret_key) {
        Err(e) => {
            return Err(e);
        },
        Ok(kp) => kp,
    };
    let new_owner = match decode_address(new_leaf_owner) {
        Err(_) => {
            return Err(BuilderError::InvalidAddressString);
        },
        Ok(id) => id,
    };
    let delegate_signs = leaf_delegate.is_some();
    let owner = match &leaf_owner {
        Some(s) => match decode_address(s.as_str()) {
            Err(_) => {
                return Err(BuilderError::InvalidAddressString);
            },
            Ok(id) => id,
        },
        None => payer.public.dup(),
    };
    let delegate = match &leaf_delegate {
        Some(s) => match decode_address(s.as_str()) {
            Err(_) => {
                return Err(BuilderError::InvalidAddressString);
            },
            Ok(id) => id,
        },
        None => owner.dup(),
    };
    let proof_strings = match proof_list {
        Some(p) => p,
        None => {
            if das_get_asset_proof.is_some() {
                return Err(BuilderError::UnsupportedProofSource);
            }
            return Err(BuilderError::MissingField(TransferField::Proof));
        },
    };
    let path = match decode_proof(&proof_strings) {
        Err(e) => {
            return Err(e);
        },
        Ok(p) => p,
    };
    let root_bytes = match &root {
        Some(s) => match decode_hash(s.as_str(), HashField::Root) {
            Err(e) => {
                return Err(e);
            },
            Ok(id) => id,
        },
        None => {
            return Err(BuilderError::MissingField(TransferField::Root));
        },
    };
    let dh = match &data_hash {
        Some(s) => match decode_hash(s.as_str(), HashField::DataHash) {
            Err(e) => {
                return Err(e);
            },
            Ok(id) => id,
        },
        None => {
            return Err(BuilderError::MissingField(TransferField::DataHash));
        },
    };
    let ch = match &creator_hash {
        Some(s) => match decode_hash(s.as_str(), HashField::CreatorHash) {
            Err(e) => {
                return Err(e);
            },
            Ok(id) => id,
        },
        None => {
            return Err(BuilderError::MissingField(TransferField::CreatorHash));
        },
    };
    let nonce = match leaf_id {
        Some(n) => n,
        None => {
            return Err(BuilderError::MissingField(TransferField::Nonce));
        },
    };
    let idx = match index {
        Some(i) => i,
        None => {
            return Err(BuilderError::MissingField(TransferField::Index));
        },
    };
    let tree = match &merkle_tree {
        Some(s) => match decode_address(s.as_str()) {
            Err(_) => {
                return Err(BuilderError::InvalidAddressString);
            },
            Ok(id) => id,
        },
        None => {
            return Err(BuilderError::MissingField(TransferField::TreeAddress));
        },
    };
    let cfg = match &tree_config {
        Some(s) => match decode_address(s.as_str()) {
            Err(_) => {
                return Err(BuilderError::InvalidAddressString);
            },
            Ok(id) => id,
        },
        None => {
            let mut seeds: Vec<Vec<u8>> = Vec::new();
            seeds.push(tree.bytes.clone());
            proof {
                assert(seeds@[0]@ =~= tree@);
                assert(seeds.deep_view() =~~= seq![tree@]);
            }
            match derive_pda(&seeds, &programs.bubblegum) {
                Err(_) => {
                    return Err(BuilderError::NoValidAddress);
                },
                Ok(pair) => pair.0,
            }
        },
    };
    if path.len() > 245 {
        return Err(BuilderError::SerializationFailure);
    }
    let ix = transfer_instruction(
        &cfg,
        &owner,
        &delegate,
        &new_owner,
        &tree,
        delegate_signs,
        &root_bytes,
        &dh,
        &ch,
        nonce,
        idx,
        &path,
        programs,
    );
    let mut ixs: Vec<Instruction> = Vec::new();
    ixs.push(ix);
    let ghost m = instrs_model(ixs@);
    proof {
        assert(m =~= seq![ixs@[0]@]);
        assert forall|j: int|
            0 <= j < m[0].accounts.len() implies (#[trigger] m[0].accounts[j]).key.len()
            == 32 by {
            if j >= 9 {
                assert(path@[j - 9].wf());
            }
        }
        assert(instr_model_wf(m[0]));
        assert(seq![m[0]].drop_last() =~= Seq::<InstrModel>::empty());
        assert(accounts_total(Seq::<InstrModel>::empty()) == 0);
        assert(m =~= seq![m[0]]);
        assert(accounts_total(m) == m[0].accounts.len() + 1);
        assert(m[0].accounts.len() == 9 + path@.len());
        assert(m[0].data.len() <= 65535);
        assert(tx_size_ok(m));
    }
    let signer_matches = if delegate_signs {
        delegate.eq_bytes(&payer.public)
    } else {
        owner.eq_bytes(&payer.public)
    };
    proof {
        let signer_pub = if delegate_signs {
            delegate@
        } else {
            owner@
        };
        assert(signer_matches == (signer_pub == payer.public@));
        if signer_pub == payer.public@ {
            assert forall|k: Seq<u8>| signer_keys(m).contains(k) implies k == payer.public@ by {
                let (i, j): (int, int) = choose|i: int, j: int|
                    0 <= i < m.len() && 0 <= j < m[i].accounts.len()
                        && (#[trigger] m[i].accounts[j]).signer && m[i].accounts[j].key == k;
                assert(i == 0);
                if j >= 9 {
                    assert(!m[0].accounts[j].signer);
                }
                assert(m[0].accounts[j].signer ==> j == 1 || j == 2);
            }
            assert(signers_ok(m, payer.public@, payer.public@));
        } else {
            let witness = if delegate_signs {
                2int
            } else {
                1int
            };
            assert(m[0].accounts[witness].signer && m[0].accounts[witness].key == signer_pub);
            assert(signer_keys(m).contains(signer_pub));
            assert(!signers_ok(m, payer.public@, payer.public@));
        }
    }
    match sign_and_encode(&ixs, &payer, &payer, recent_blockhash) {
        Ok(s) => Ok(s),
        Err(e) => Err(e),
    }
}

} // verus!
