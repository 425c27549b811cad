//! Deterministic derivation of program-controlled addresses.

use vstd::prelude::*;

use crate::error::BuilderError;
use crate::keys::Identifier;
use solana_sdk::pubkey::Pubkey as SdkPubkey;

verus! {

/// What `Pubkey::create_program_address` yields for seeds and a program id:
/// the 32-byte hash of the seeds, the program id and the fixed domain tag, or
/// `None` exactly when that hash is a valid curve point.
pub uninterp spec fn pda_hash_of(seeds: Seq<Seq<u8>>, program: Seq<u8>) -> Option<Seq<u8>>;

/// Relies on `solana_sdk::pubkey::Pubkey::create_program_address`, called with
/// the given seeds plus the single-byte bump appended as one more seed: it
/// hashes them with the program id and a fixed domain tag, and errors exactly
/// when the hash lies on the ed25519 curve.
#[verifier::external_body]
pub(crate) fn pda_address_with_bump(seeds: &Vec<Vec<u8>>, bump: u8, program_id: &Identifier) -> (r:
    Option<Identifier>)
    requires
        program_id.wf(),
        seeds@.len() <= 15,
        forall|i: int| 0 <= i < seeds@.len() ==> (#[trigger] seeds@[i])@.len() <= 32,
    ensures
        match r {
            Some(id) => id.wf() && pda_hash_of(seeds.deep_view().push(seq![bump]), program_id@)
                == Some(id@),
            None => pda_hash_of(seeds.deep_view().push(seq![bump]), program_id@) is None,
        },
{
    let mut refs: Vec<&[u8]> = seeds.iter().map(|s| s.as_slice()).collect();
    let bump_seed = [bump];
    refs.push(&bump_seed);
    let program = SdkPubkey::try_from(program_id.bytes.as_slice()).unwrap();
    match SdkPubkey::create_program_address(&refs, &program) {
        Ok(a) => Some(Identifier { bytes: a.to_bytes().to_vec() }),
        Err(_) => None,
    }
}

/// The first bump at or below `bump` whose derived address is off the curve,
/// with that address; bumps are tried downward.
pub open spec fn pda_search(seeds: Seq<Seq<u8>>, program: Seq<u8>, bump: int) -> Option<
    (Seq<u8>, u8),
>
    decreases bump + 1,
{
    if bump < 0 {
        None
    } else {
        match pda_hash_of(seeds.push(seq![bump as u8]), program) {
            Some(a) => Some((a, bump as u8)),
            None => pda_search(seeds, program, bump - 1),
        }
    }
}

/// Derives the program-controlled address for `seeds` under `program_id`,
/// trying bump suffixes from 255 downward until the derived value is off the
/// ed25519 curve; the first such address and its bump are returned.
pub fn derive_pda(seeds: &Vec<Vec<u8>>, program_id: &Identifier) -> (r: Result<
    (Identifier, u8),
    BuilderError,
>)
    requires
        program_id.wf(),
        seeds@.len() <= 15,
        forall|i: int| 0 <= i < seeds@.len() ==> (#[trigger] seeds@[i])@.len() <= 32,
    ensures
        match r {
            Ok((id, bump)) => id.wf() && pda_search(seeds.deep_view(), program_id@, 255)
                == Some((id@, bump)),
            Err(e) => e == BuilderError::NoValidAddress && pda_search(
                seeds.deep_view(),
                program_id@,
                255,
            ) is None,
        },
{
    let ghost ds = seeds.deep_view();
    let mut bump: u16 = 255;
    loop
        invariant
            bump <= 255,
            program_id.wf(),
            seeds@.len() <= 15,
            forall|i: int| 0 <= i < seeds@.len() ==> (#[trigger] seeds@[i])@.len() <= 32,
            ds == seeds.deep_view(),
            pda_search(ds, program_id@, 255) == pda_search(ds, program_id@, bump as int),
        decreases bump,
    {
        match pda_address_with_bump(seeds, bump as u8, program_id) {
            Some(id) => {
                proof {
                    assert(pda_search(ds, program_id@, bump as int) == Some((id@, bump as u8)));
                }
                return Ok((id, bump as u8));
            },
            None => {
                if bump == 0 {
                    proof {
                        assert(pda_search(ds, program_id@, 0) == pda_search(ds, program_id@, -1));
                    }
                    return Err(BuilderError::NoValidAddress);
                }
                bump = bump - 1;
            },
        }
    }
}

/// Two derivations from the same seeds and program id yield the same address
/// and bump.
pub proof fn lemma_derive_pda_deterministic(
    seeds: Seq<Seq<u8>>,
    program: Seq<u8>,
    a1: Seq<u8>,
    b1: u8,
    a2: Seq<u8>,
    b2: u8,
)
    requires
        pda_search(seeds, program, 255) == Some((a1, b1)),
        pda_search(seeds, program, 255) == Some((a2, b2)),
    ensures
        a1 == a2,
        b1 == b2,
{
}

} // verus!
