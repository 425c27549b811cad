//! The mint pipeline: decode inputs, derive the tree-configuration address,
//! assemble the mint instruction, sign and encode.

use vstd::prelude::*;

use crate::error::BuilderError;
use crate::instruction::{
    instr_model_wf, metadata_fits, mint_instruction, mint_model, Creator, CreatorModel,
    InstrModel, Instruction, LeafMetadata, MetadataModel, ProgramSet,
};
use crate::keys::{address_decode, decode_address, decode_secret, secret_decode, Identifier};
use crate::pda::{derive_pda, pda_search};
use crate::txn::{
    accounts_total, base64_of, instrs_model, sign_and_encode, signer_keys, signers_ok, tx_size_ok,
    tx_wire_of,
};

verus! {

/// The metadata the mint pipeline builds: the payer is the only creator,
/// verified, with the given share; the leaf is immutable.
pub open spec fn mint_metadata_model(
    payer_pub: Seq<u8>,
    name: Seq<char>,
    symbol: Seq<char>,
    uri: Seq<char>,
    seller_fee_basis_points: u16,
    share: u8,
) -> MetadataModel {
    MetadataModel {
        name,
        symbol,
        uri,
        seller_fee_basis_points,
        is_mutable: false,
        creators: seq![CreatorModel { address: payer_pub, verified: true, share }],
    }
}

/// What the mint pipeline must return for every input: the base64 text of
/// the signed transaction holding exactly the one mint instruction, or the
/// exact error of the first stage that fails.
pub open spec fn mint_outcome(
    secret: Seq<char>,
    tree: Seq<char>,
    name: Seq<char>,
    symbol: Seq<char>,
    uri: Seq<char>,
    seller_fee_basis_points: u16,
    share: u8,
    programs: ProgramSet,
    blockhash: Seq<u8>,
) -> Result<Seq<char>, BuilderError> {
    match secret_decode(secret) {
        Err(e) => Err(e),
        Ok(kb) => match address_decode(tree) {
            Err(e) => Err(e),
            Ok(tree_bytes) => if seller_fee_basis_points > 10000 || share != 100 {
                Err(BuilderError::InvalidMetadata)
            } else {
                match pda_search(seq![tree_bytes], programs.bubblegum@, 255) {
                    None => Err(BuilderError::NoValidAddress),
                    Some((tree_config, _bump)) => {
                        let payer_pub = kb.subrange(32, 64);
                        let md = mint_metadata_model(
                            payer_pub,
                            name,
                            symbol,
                            uri,
                            seller_fee_basis_points,
                            share,
                        );
                        if !metadata_fits(md) {
                            Err(BuilderError::SerializationFailure)
                        } else {
                            let ix = mint_model(
                                tree_config,
                                payer_pub,
                                payer_pub,
                                tree_bytes,
                                payer_pub,
                                payer_pub,
                                md,
                                programs,
                            );
                            if ix.data.len() > 65535 {
                                Err(BuilderError::SerializationFailure)
                            } else {
                                Ok(base64_of(tx_wire_of(seq![ix], kb, kb, blockhash)))
                            }
                        }
                    },
                }
            },
        },
    }
}

/// Builds, signs and encodes a transaction minting one leaf into the tree.
/// The leaf owner, delegate and creator all default to the payer; the share
/// must be exactly 100 and the royalty at most 10000 basis points.
pub fn mint_v1_builder(
    payer_secret_key: &str,
    merkle_tree: &str,
    name: String,
    symbol: String,
    uri: String,
    seller_fee_basis_points: u16,
    share: u8,
    programs: &ProgramSet,
    recent_blockhash: &Identifier,
) -> (r: Result<String, BuilderError>)
    requires
        programs.wf(),
        recent_blockhash.wf(),
    ensures
        match r {
            Ok(s) => mint_outcome(
                payer_secret_key@,
                merkle_tree@,
                name@,
                symbol@,
                uri@,
                seller_fee_basis_points,
                share,
                *programs,
                recent_blockhash@,
            ) == Ok::<Seq<char>, BuilderError>(s@),
            Err(e) => mint_outcome(
                payer_secret_key@,
                merkle_tree@,
                name@,
                symbol@,
                uri@,
                seller_fee_basis_points,
                share,
                *programs,
                recent_blockhash@,
            ) == Err::<Seq<char>, BuilderError>(e),
        },
{
    let payer = match decode_secret(payer_secret_key) {
        Err(e) => {
            return Err(e);
        },
        Ok(kp) => kp,
    };
    let tree = match decode_address(merkle_tree) {
        Err(e) => {
            return Err(e);
        },
        Ok(id) => id,
    };
    if seller_fee_basis_points > 10000 || share != 100 {
        return Err(BuilderError::InvalidMetadata);
    }
    let mut seeds: Vec<Vec<u8>> = Vec::new();
    seeds.push(tree.bytes.clone());
    proof {
        assert(seeds@[0]@ =~= tree@);
        assert(seeds.deep_view() =~~= seq![tree@]);
    }
    let (tree_config, _bump) = match derive_pda(&seeds, &programs.bubblegum) {
        Err(_) => {
            return Err(BuilderError::NoValidAddress);
        },
        Ok(pair) => pair,
    };
    let metadata = LeafMetadata {
        name,
        symbol,
        uri,
        seller_fee_basis_points,
        is_mutable: false,
        creators: vec![
            Creator { address: payer.public.dup(), verified: true, share },
        ],
    };
    let ghost md = mint_metadata_model(
        payer.public@,
        metadata.name@,
        metadata.symbol@,
        metadata.uri@,
        seller_fee_basis_points,
        share,
    );
    proof {
        assert(metadata@.creators =~= md.creators);
        assert(metadata@ =~~= md);
    }
    let ix = match mint_instruction(
        &tree_config,
        &payer.public,
        &payer.public,
        &tree,
        &payer.public,
        &payer.public,
        &metadata,
        programs,
    ) {
        Err(e) => {
            return Err(e);
        },
        Ok(ix) => ix,
    };
    if ix.data.len() > 65535 {
        return Err(BuilderError::SerializationFailure);
    }
    let mut ixs: Vec<Instruction> = Vec::new();
    ixs.push(ix);
    proof {
        let m = instrs_model(ixs@);
        assert(m =~= seq![ixs@[0]@]);
        assert(instr_model_wf(m[0]));
        assert(seq![m[0]].drop_last() =~= Seq::<InstrModel>::empty());
        assert(accounts_total(Seq::<InstrModel>::empty()) == 0);
        assert(m =~= seq![m[0]]);
        assert(accounts_total(m) == m[0].accounts.len() + 1);
        assert(m[0].accounts.len() == 9);
        assert(tx_size_ok(m));
        assert forall|k: Seq<u8>| signer_keys(m).contains(k) implies k == payer.public@ by {
            let (i, j): (int, int) = choose|i: int, j: int|
                0 <= i < m.len() && 0 <= j < m[i].accounts.len()
                    && (#[trigger] m[i].accounts[j]).signer && m[i].accounts[j].key == k;
            assert(i == 0);
            assert(m[0].accounts[j].signer ==> j == 4 || j == 5);
        }
        assert(signers_ok(m, payer.public@, payer.public@));
    }
    match sign_and_encode(&ixs, &payer, &payer, recent_blockhash) {
        Ok(s) => {
            proof {
                assert(payer.public@ == payer.bytes@.subrange(32, 64));
            }
            Ok(s)
        },
        Err(_) => vstd::pervasive::unreached(),
    }
}

} // verus!
