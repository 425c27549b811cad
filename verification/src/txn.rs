//! Signing and canonical serialization of an instruction list into a
//! transport-ready transaction.

use vstd::prelude::*;

use crate::error::BuilderError;
use crate::instruction::{instr_model_wf, InstrModel, Instruction};
use crate::keys::{Identifier, Keypair};
use solana_sdk::hash::Hash as SdkHash;
use solana_sdk::instruction::AccountMeta as SdkMeta;
use solana_sdk::instruction::Instruction as SdkInstr;
use solana_sdk::message::Message as SdkMessage;
use solana_sdk::pubkey::Pubkey as SdkKey;
use solana_sdk::signer::keypair::Keypair as SdkKeypair;
use solana_sdk::signer::Signer as SdkSigner;
use solana_sdk::transaction::Transaction as SdkTx;

verus! {

/// The canonical wire bytes of the signed transaction built from the given
/// instructions, fee payer, second signing keypair and freshness token.
/// Message compilation and ed25519 signing are deterministic, so this is a
/// function of the arguments alone.
pub uninterp spec fn tx_wire_of(
    ixs: Seq<InstrModel>,
    payer: Seq<u8>,
    second: Seq<u8>,
    blockhash: Seq<u8>,
) -> Seq<u8>;

/// What `base64::encode` yields for a byte string.
pub uninterp spec fn base64_of(b: Seq<u8>) -> Seq<char>;

/// The models of a list of instructions, in order.
pub open spec fn instrs_model(s: Seq<Instruction>) -> Seq<InstrModel> {
    s.map_values(|i: Instruction| i@)
}

/// The message slots an instruction list needs: one for the fee payer, and
/// one per account and per program id of each instruction, before any
/// de-duplication.
pub open spec fn accounts_total(ixs: Seq<InstrModel>) -> int
    decreases ixs.len(),
{
    if ixs.len() == 0 {
        0
    } else {
        accounts_total(ixs.drop_last()) + ixs.last().accounts.len() + 1
    }
}

/// Whether the instruction list fits the wire format's limits: each payload
/// and account list within the 16-bit length prefix, and few enough account
/// slots that every message key gets an 8-bit index even with none shared.
pub open spec fn tx_size_ok(ixs: Seq<InstrModel>) -> bool {
    &&& forall|i: int|
        0 <= i < ixs.len() ==> (#[trigger] ixs[i]).data.len() <= 65535 && ixs[i].accounts.len()
            <= 65535
    &&& 1 + accounts_total(ixs) <= 256
}

/// The set of keys that some instruction marks as a signer.
pub open spec fn signer_keys(ixs: Seq<InstrModel>) -> Set<Seq<u8>> {
    Set::new(
        |k: Seq<u8>|
            exists|i: int, j: int|
                0 <= i < ixs.len() && 0 <= j < ixs[i].accounts.len()
                    && (#[trigger] ixs[i].accounts[j]).signer && ixs[i].accounts[j].key == k,
    )
}

/// Whether the payer and the second keypair are exactly the required
/// signers: every signer-marked key is one of the two, and the second key is
/// either the payer itself or actually marked as a signer.
pub open spec fn signers_ok(ixs: Seq<InstrModel>, payer_pub: Seq<u8>, second_pub: Seq<u8>) -> bool {
    &&& forall|k: Seq<u8>|
        #[trigger] signer_keys(ixs).contains(k) ==> k == payer_pub || k == second_pub
    &&& second_pub == payer_pub || signer_keys(ixs).contains(second_pub)
}

/// Relies on solana_sdk's `Message::new` and `Transaction::try_sign`, and on
/// `bincode::serialize`: message compilation and ed25519 signing are
/// deterministic, signing with the same keypair twice is permitted, and
/// signing succeeds exactly when the supplied keys are the required signers.
/// The size bound in the `requires` keeps compilation and serialization in
/// range: with at most 256 message keys each gets an 8-bit index, and every
/// length stays within its 16-bit prefix, so neither step aborts.
#[verifier::external_body]
pub(crate) fn sign_and_serialize_raw(
    ixs: &Vec<Instruction>,
    payer: &Keypair,
    second: &Keypair,
    blockhash: &Identifier,
) -> (r: Option<Vec<u8>>)
    requires
        payer.wf(),
        second.wf(),
        blockhash.wf(),
        forall|i: int| 0 <= i < ixs@.len() ==> instr_model_wf((#[trigger] ixs@[i])@),
        tx_size_ok(instrs_model(ixs@)),
    ensures
        r is Some <==> signers_ok(instrs_model(ixs@), payer.public@, second.public@),
        r matches Some(v) ==> v@ == tx_wire_of(
            instrs_model(ixs@),
            payer.bytes@,
            second.bytes@,
            blockhash@,
        ),
{
    let sdk: Vec<SdkInstr> = ixs.iter().map(|i| SdkInstr::new_with_bytes(
        SdkKey::new(&i.program_id.bytes),
        &i.data,
        i.accounts.iter().map(|a| SdkMeta {
            pubkey: SdkKey::new(&a.id.bytes), is_signer: a.is_signer, is_writable: a.is_writable,
        }).collect(),
    )).collect();
    let p = SdkKeypair::from_bytes(&payer.bytes).unwrap();
    let s = SdkKeypair::from_bytes(&second.bytes).unwrap();
    let mut tx = SdkTx::new_unsigned(SdkMessage::new(&sdk, Some(&p.pubkey())));
    tx.try_sign(&[&s, &p], SdkHash::new(&blockhash.bytes)).ok()?;
    Some(bincode::serialize(&tx).unwrap())
}

/// Relies on `base64::encode`: the standard alphabet with padding, emitting
/// four characters for every three input bytes.
#[verifier::external_body]
pub(crate) fn base64_encode(b: &Vec<u8>) -> (r: String)
    ensures
        r@ == base64_of(b@),
        r@.len() == 4 * ((b@.len() + 2) / 3),
{
    base64::encode(b.as_slice())
}

/// Signs the instruction list with the payer and the second keypair over the
/// freshness token, serializes the transaction canonically, and encodes it
/// as base64 text. A pipeline with a single signer passes the payer twice.
/// Success is owed exactly when the supplied keys are the required signers.
pub fn sign_and_encode(
    ixs: &Vec<Instruction>,
    payer: &Keypair,
    second: &Keypair,
    blockhash: &Identifier,
) -> (r: Result<String, BuilderError>)
    requires
        payer.wf(),
        second.wf(),
        blockhash.wf(),
        forall|i: int| 0 <= i < ixs@.len() ==> instr_model_wf((#[trigger] ixs@[i])@),
        tx_size_ok(instrs_model(ixs@)),
    ensures
        match r {
            Ok(s) => signers_ok(instrs_model(ixs@), payer.public@, second.public@) && s@
                == base64_of(
                tx_wire_of(instrs_model(ixs@), payer.bytes@, second.bytes@, blockhash@),
            ),
            Err(e) => e == BuilderError::SerializationFailure && !signers_ok(
                instrs_model(ixs@),
                payer.public@,
                second.public@,
            ),
        },
{
    match sign_and_serialize_raw(ixs, payer, second, blockhash) {
        Some(wire) => Ok(base64_encode(&wire)),
        None => Err(BuilderError::SerializationFailure),
    }
}

} // verus!
