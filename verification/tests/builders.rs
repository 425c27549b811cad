use mpl_bubblegum::error::{BuilderError, HashField, TransferField};
use mpl_bubblegum::instruction::{
    create_account_instruction, transfer_instruction, tree_account_size, Creator, LeafMetadata,
    ProgramSet, BUBBLEGUM_PROGRAM_ID, COMPRESSION_PROGRAM_ID, LOG_WRAPPER_PROGRAM_ID,
    SYSTEM_PROGRAM_ID,
};
use mpl_bubblegum::keys::{
    decode_address, decode_proof, decode_public, decode_secret, FromStrConst, Identifier,
};
use mpl_bubblegum::pda::derive_pda;
use solana_sdk::pubkey::Pubkey;
use solana_sdk::signer::keypair::Keypair as SdkKeypair;
use solana_sdk::signer::Signer;
use solana_sdk::transaction::Transaction;

fn ident(bytes: [u8; 32]) -> Identifier {
    Identifier { bytes: bytes.to_vec() }
}

fn b58(bytes: &[u8]) -> String {
    solana_sdk::bs58::encode(bytes).into_string()
}

fn blockhash() -> Identifier {
    ident([7u8; 32])
}

fn programs() -> ProgramSet {
    ProgramSet::standard()
}

#[test]
fn decode_secret_round_trips_public_identifier() {
    let kp = SdkKeypair::new();
    let secret = kp.to_base58_string();
    let first = decode_secret(&secret).unwrap();
    let second = decode_secret(&secret).unwrap();
    assert_eq!(first.public.bytes, second.public.bytes);
    assert_eq!(first.public.bytes, kp.pubkey().to_bytes().to_vec());
    let text = first.public.to_base58();
    let back = decode_public(&text).unwrap();
    assert_eq!(back.bytes, kp.pubkey().to_bytes().to_vec());
}

#[test]
fn decode_secret_rejects_bad_inputs() {
    assert_eq!(decode_secret("not-base58-0OIl").unwrap_err(), BuilderError::MalformedKey);
    let short = b58(&[5u8; 63]);
    assert_eq!(decode_secret(&short).unwrap_err(), BuilderError::InvalidKeyLength);
    let inconsistent = b58(&[5u8; 64]);
    assert_eq!(decode_secret(&inconsistent).unwrap_err(), BuilderError::MalformedKey);
}

#[test]
fn decode_public_and_address_reject_bad_inputs() {
    assert_eq!(decode_public("0OIl").unwrap_err(), BuilderError::MalformedKey);
    let short = b58(&[9u8; 31]);
    assert_eq!(decode_public(&short).unwrap_err(), BuilderError::InvalidKeyLength);
    assert_eq!(decode_address(&short).unwrap_err(), BuilderError::InvalidAddressString);
    let system = "11111111111111111111111111111111";
    assert_eq!(decode_public(system).unwrap().bytes, vec![0u8; 32]);
}

#[test]
fn from_str_const_parses_known_address() {
    let kp = SdkKeypair::new();
    let text = kp.pubkey().to_string();
    let id = <Identifier as FromStrConst>::from_str_const(&text);
    assert_eq!(id.bytes, kp.pubkey().to_bytes().to_vec());
}

#[test]
fn derive_pda_matches_ledger_sdk_and_is_deterministic() {
    let tree = SdkKeypair::new().pubkey();
    let program = programs().bubblegum;
    let seeds = vec![tree.to_bytes().to_vec()];
    let (a1, b1) = derive_pda(&seeds, &program).unwrap();
    let (a2, b2) = derive_pda(&seeds, &program).unwrap();
    assert_eq!(a1.bytes, a2.bytes);
    assert_eq!(b1, b2);
    let program_pk = Pubkey::try_from(program.bytes.as_slice()).unwrap();
    let (expected, bump) = Pubkey::find_program_address(&[&tree.to_bytes()], &program_pk);
    assert_eq!(a1.bytes, expected.to_bytes().to_vec());
    assert_eq!(b1, bump);
}

#[test]
fn tree_account_size_matches_fixed_profile() {
    assert_eq!(tree_account_size(14, 64), 31800);
}

#[test]
fn create_account_instruction_matches_ledger_sdk() {
    let payer = SdkKeypair::new().pubkey();
    let fresh = SdkKeypair::new().pubkey();
    let ps = programs();
    let ix = create_account_instruction(
        &ident(payer.to_bytes()),
        &ident(fresh.to_bytes()),
        123_456,
        31800,
        &ps.compression,
        &ps,
    );
    let owner = Pubkey::try_from(ps.compression.bytes.as_slice()).unwrap();
    let expected =
        solana_sdk::system_instruction::create_account(&payer, &fresh, 123_456, 31800, &owner);
    assert_eq!(ix.program_id.bytes, expected.program_id.to_bytes().to_vec());
    assert_eq!(ix.data, expected.data);
    assert_eq!(ix.accounts.len(), expected.accounts.len());
    for (mine, theirs) in ix.accounts.iter().zip(expected.accounts.iter()) {
        assert_eq!(mine.id.bytes, theirs.pubkey.to_bytes().to_vec());
        assert_eq!(mine.is_signer, theirs.is_signer);
        assert_eq!(mine.is_writable, theirs.is_writable);
    }
}

#[test]
fn decode_proof_keeps_order_and_values() {
    let h1 = [1u8; 32];
    let h2 = [2u8; 32];
    let strings = vec![b58(&h1), b58(&h2)];
    let path = decode_proof(&strings).unwrap();
    assert_eq!(path.len(), 2);
    assert_eq!(path[0].bytes, h1.to_vec());
    assert_eq!(path[1].bytes, h2.to_vec());
    let bad = vec![b58(&h1), b58(&[3u8; 30])];
    assert_eq!(
        decode_proof(&bad).unwrap_err(),
        BuilderError::InvalidHashLength(HashField::ProofElement)
    );
}

#[test]
fn transfer_instruction_has_nine_slot_prefix_plus_proof() {
    let ps = programs();
    let proof: Vec<Identifier> = (0..14u8).map(|i| ident([i; 32])).collect();
    let ix = transfer_instruction(
        &ident([1; 32]),
        &ident([2; 32]),
        &ident([2; 32]),
        &ident([3; 32]),
        &ident([4; 32]),
        false,
        &ident([5; 32]),
        &ident([6; 32]),
        &ident([7; 32]),
        42,
        7,
        &proof,
        &ps,
    );
    assert_eq!(ix.accounts.len(), 9 + 14);
    for slot in ix.accounts.iter().skip(9) {
        assert!(!slot.is_signer);
        assert!(!slot.is_writable);
    }
    assert!(ix.accounts[1].is_signer);
    assert!(!ix.accounts[2].is_signer);
    let mut expected: Vec<u8> = vec![163, 52, 200, 231, 140, 3, 69, 186];
    expected.extend_from_slice(&[5u8; 32]);
    expected.extend_from_slice(&[6u8; 32]);
    expected.extend_from_slice(&[7u8; 32]);
    expected.extend_from_slice(&42u64.to_le_bytes());
    expected.extend_from_slice(&7u32.to_le_bytes());
    assert_eq!(ix.data, expected);
}

fn transfer_args() -> (String, String, String, String, String, Vec<String>, String) {
    let payer = SdkKeypair::new().to_base58_string();
    let to = SdkKeypair::new().pubkey().to_string();
    let root = b58(&[11u8; 32]);
    let dh = b58(&[12u8; 32]);
    let ch = b58(&[13u8; 32]);
    let proof: Vec<String> = (0..14u8).map(|i| b58(&[i; 32])).collect();
    let tree = SdkKeypair::new().pubkey().to_string();
    (payer, to, root, dh, ch, proof, tree)
}

#[test]
fn transfer_builder_end_to_end() {
    let (payer, to, root, dh, ch, proof, tree) = transfer_args();
    let tx_b64 = mpl_bubblegum::transfer_builder(
        payer,
        to,
        "asset".to_string(),
        42,
        dh,
        ch,
        root,
        proof,
        tree,
        &programs(),
        &blockhash(),
    )
    .unwrap();
    let tx: Transaction = bincode::deserialize(&base64::decode(&tx_b64).unwrap()).unwrap();
    assert_eq!(tx.message.instructions.len(), 1);
    assert_eq!(tx.message.instructions[0].accounts.len(), 9 + 14);
    let results = tx.verify_with_results();
    assert!(results.iter().all(|ok| *ok));
}

#[test]
fn transfer_builder_reports_each_missing_field() {
    let ps = programs();
    let bh = blockhash();
    let (payer, to, root, dh, ch, proof, tree) = transfer_args();
    let run = |leaf_id: Option<u64>,
               dh: Option<String>,
               ch: Option<String>,
               root: Option<String>,
               proof: Option<Vec<String>>,
               tree: Option<String>,
               index: Option<u32>,
               das: Option<String>| {
        mpl_bubblegum::transfer::transfer_builder(
            &payer, &to, None, leaf_id, dh, ch, root, proof, tree, None, index, None, None, das,
            None, &ps, &bh,
        )
    };
    let all = |skip: &str, das: Option<String>| {
        run(
            if skip == "nonce" { None } else { Some(42) },
            if skip == "dh" { None } else { Some(dh.clone()) },
            if skip == "ch" { None } else { Some(ch.clone()) },
            if skip == "root" { None } else { Some(root.clone()) },
            if skip == "proof" { None } else { Some(proof.clone()) },
            if skip == "tree" { None } else { Some(tree.clone()) },
            if skip == "index" { None } else { Some(7) },
            das,
        )
    };
    assert!(all("", None).is_ok());
    assert_eq!(
        all("root", None).unwrap_err(),
        BuilderError::MissingField(TransferField::Root)
    );
    assert_eq!(
        all("dh", None).unwrap_err(),
        BuilderError::MissingField(TransferField::DataHash)
    );
    assert_eq!(
        all("ch", None).unwrap_err(),
        BuilderError::MissingField(TransferField::CreatorHash)
    );
    assert_eq!(
        all("nonce", None).unwrap_err(),
        BuilderError::MissingField(TransferField::Nonce)
    );
    assert_eq!(
        all("index", None).unwrap_err(),
        BuilderError::MissingField(TransferField::Index)
    );
    assert_eq!(
        all("tree", None).unwrap_err(),
        BuilderError::MissingField(TransferField::TreeAddress)
    );
    assert_eq!(
        all("proof", None).unwrap_err(),
        BuilderError::MissingField(TransferField::Proof)
    );
    assert_eq!(
        all("proof", Some("indexer-response".to_string())).unwrap_err(),
        BuilderError::UnsupportedProofSource
    );
}

#[test]
fn transfer_builder_names_offending_hash_field() {
    let ps = programs();
    let bh = blockhash();
    let (payer, to, root, dh, ch, proof, tree) = transfer_args();
    let short = b58(&[9u8; 30]);
    let run = |root: String, dh: String, ch: String| {
        mpl_bubblegum::transfer::transfer_builder(
            &payer,
            &to,
            None,
            Some(42),
            Some(dh),
            Some(ch),
            Some(root),
            Some(proof.clone()),
            Some(tree.clone()),
            None,
            Some(7),
            None,
            None,
            None,
            None,
            &ps,
            &bh,
        )
    };
    assert_eq!(
        run(short.clone(), dh.clone(), ch.clone()).unwrap_err(),
        BuilderError::InvalidHashLength(HashField::Root)
    );
    assert_eq!(
        run(root.clone(), short.clone(), ch.clone()).unwrap_err(),
        BuilderError::InvalidHashLength(HashField::DataHash)
    );
    assert_eq!(
        run(root, dh, short).unwrap_err(),
        BuilderError::InvalidHashLength(HashField::CreatorHash)
    );
}

#[test]
fn transfer_builder_rejects_foreign_signer() {
    let ps = programs();
    let bh = blockhash();
    let (payer, to, root, dh, ch, proof, tree) = transfer_args();
    let stranger = SdkKeypair::new().pubkey().to_string();
    let r = mpl_bubblegum::transfer::transfer_builder(
        &payer,
        &to,
        None,
        Some(42),
        Some(dh),
        Some(ch),
        Some(root),
        Some(proof),
        Some(tree),
        None,
        Some(7),
        Some(stranger),
        None,
        None,
        None,
        &ps,
        &bh,
    );
    assert_eq!(r.unwrap_err(), BuilderError::SerializationFailure);
}

#[test]
fn mint_rejects_shares_that_do_not_sum_to_100() {
    let ps = programs();
    let bh = blockhash();
    let payer = SdkKeypair::new().to_base58_string();
    let tree = SdkKeypair::new().pubkey().to_string();
    for share in [99u8, 101u8] {
        let r = mpl_bubblegum::mint::mint_v1_builder(
            &payer,
            &tree,
            "n".to_string(),
            "s".to_string(),
            "u".to_string(),
            250,
            share,
            &ps,
            &bh,
        );
        assert_eq!(r.unwrap_err(), BuilderError::InvalidMetadata);
    }
    let ok = mpl_bubblegum::mint::mint_v1_builder(
        &payer,
        &tree,
        "n".to_string(),
        "s".to_string(),
        "u".to_string(),
        250,
        100,
        &ps,
        &bh,
    );
    assert!(ok.is_ok());
    let bad_royalty = mpl_bubblegum::mint::mint_v1_builder(
        &payer,
        &tree,
        "n".to_string(),
        "s".to_string(),
        "u".to_string(),
        10001,
        100,
        &ps,
        &bh,
    );
    assert_eq!(bad_royalty.unwrap_err(), BuilderError::InvalidMetadata);
}

#[test]
fn mint_builder_end_to_end_matches_abi() {
    let ps = programs();
    let bh = blockhash();
    let payer_kp = SdkKeypair::new();
    let payer_pub = payer_kp.pubkey();
    let tree_kp = SdkKeypair::new();
    let tree_pub = tree_kp.pubkey();
    let tx_b64 = mpl_bubblegum::mint::mint_v1_builder(
        &payer_kp.to_base58_string(),
        &tree_pub.to_string(),
        "Asset#1".to_string(),
        "AST".to_string(),
        "https://x/1.json".to_string(),
        250,
        100,
        &ps,
        &bh,
    )
    .unwrap();
    let tx: Transaction = bincode::deserialize(&base64::decode(&tx_b64).unwrap()).unwrap();
    assert_eq!(tx.message.instructions.len(), 1);
    let ix = &tx.message.instructions[0];
    let keys = &tx.message.account_keys;
    let bubblegum = Pubkey::try_from(ps.bubblegum.bytes.as_slice()).unwrap();
    assert_eq!(keys[ix.program_id_index as usize], bubblegum);
    let slot = |i: usize| keys[ix.accounts[i] as usize];
    let tree_config = Pubkey::find_program_address(&[&tree_pub.to_bytes()], &bubblegum).0;
    assert_eq!(ix.accounts.len(), 9);
    assert_eq!(slot(0), tree_config);
    assert_eq!(slot(1), payer_pub);
    assert_eq!(slot(2), payer_pub);
    assert_eq!(slot(3), tree_pub);
    assert_eq!(slot(4), payer_pub);
    assert_eq!(slot(5), payer_pub);
    assert_eq!(slot(6), Pubkey::try_from(ps.log_wrapper.bytes.as_slice()).unwrap());
    assert_eq!(slot(7), Pubkey::try_from(ps.compression.bytes.as_slice()).unwrap());
    assert_eq!(slot(8), Pubkey::try_from(ps.system.bytes.as_slice()).unwrap());
    let mut expected: Vec<u8> = vec![145, 98, 192, 118, 184, 147, 118, 104];
    for text in ["Asset#1", "AST", "https://x/1.json"] {
        expected.extend_from_slice(&(text.len() as u32).to_le_bytes());
        expected.extend_from_slice(text.as_bytes());
    }
    expected.extend_from_slice(&250u16.to_le_bytes());
    expected.push(0);
    expected.push(0);
    expected.push(0);
    expected.extend_from_slice(&[1, 0]);
    expected.push(0);
    expected.push(0);
    expected.push(0);
    expected.extend_from_slice(&1u32.to_le_bytes());
    expected.extend_from_slice(&payer_pub.to_bytes());
    expected.push(1);
    expected.push(100);
    assert_eq!(ix.data, expected);
    assert!(tx.verify_with_results().iter().all(|ok| *ok));
}

#[test]
fn mint_builder_rejects_bad_tree_address() {
    let payer = SdkKeypair::new().to_base58_string();
    let r = mpl_bubblegum::mint::mint_v1_builder(
        &payer,
        "0OIl",
        "n".to_string(),
        "s".to_string(),
        "u".to_string(),
        0,
        100,
        &programs(),
        &blockhash(),
    );
    assert_eq!(r.unwrap_err(), BuilderError::InvalidAddressString);
}

#[test]
fn create_tree_builder_end_to_end() {
    let ps = programs();
    let bh = blockhash();
    let payer_kp = SdkKeypair::new();
    let (tx_b64, addr) = mpl_bubblegum::tree::create_tree_config_builder(
        &payer_kp.to_base58_string(),
        1_000_000,
        &ps,
        &bh,
    )
    .unwrap();
    let tx: Transaction = bincode::deserialize(&base64::decode(&tx_b64).unwrap()).unwrap();
    assert_eq!(tx.message.instructions.len(), 2);
    assert_eq!(tx.signatures.len(), 2);
    assert!(tx.verify_with_results().iter().all(|ok| *ok));
    let keys = &tx.message.account_keys;
    let alloc = &tx.message.instructions[0];
    assert_eq!(keys[alloc.program_id_index as usize], solana_sdk::system_program::ID);
    let tree_pub = keys[alloc.accounts[1] as usize];
    assert_eq!(addr, tree_pub.to_string());
    let mut expected: Vec<u8> = Vec::new();
    expected.extend_from_slice(&0u32.to_le_bytes());
    expected.extend_from_slice(&1_000_000u64.to_le_bytes());
    expected.extend_from_slice(&31800u64.to_le_bytes());
    expected.extend_from_slice(ps.compression.bytes.as_slice());
    assert_eq!(alloc.data, expected);
    let init = &tx.message.instructions[1];
    let bubblegum = Pubkey::try_from(ps.bubblegum.bytes.as_slice()).unwrap();
    assert_eq!(keys[init.program_id_index as usize], bubblegum);
    let expected_cfg = Pubkey::find_program_address(&[&tree_pub.to_bytes()], &bubblegum).0;
    assert_eq!(keys[init.accounts[0] as usize], expected_cfg);
    let mut init_data: Vec<u8> = vec![165, 83, 136, 142, 89, 202, 47, 220];
    init_data.extend_from_slice(&14u32.to_le_bytes());
    init_data.extend_from_slice(&64u32.to_le_bytes());
    init_data.extend_from_slice(&[1, 0]);
    assert_eq!(init.data, init_data);
}

#[test]
fn mint_metadata_with_several_creators_encodes_in_order() {
    let ps = programs();
    let a = ident([21u8; 32]);
    let b = ident([22u8; 32]);
    let metadata = LeafMetadata {
        name: "x".to_string(),
        symbol: "y".to_string(),
        uri: "z".to_string(),
        seller_fee_basis_points: 1,
        is_mutable: true,
        creators: vec![
            Creator { address: a, verified: true, share: 60 },
            Creator { address: b, verified: false, share: 40 },
        ],
    };
    let ix = mpl_bubblegum::instruction::mint_instruction(
        &ident([1; 32]),
        &ident([2; 32]),
        &ident([2; 32]),
        &ident([3; 32]),
        &ident([4; 32]),
        &ident([4; 32]),
        &metadata,
        &ps,
    )
    .unwrap();
    let mut expected: Vec<u8> = vec![145, 98, 192, 118, 184, 147, 118, 104];
    for text in ["x", "y", "z"] {
        expected.extend_from_slice(&(text.len() as u32).to_le_bytes());
        expected.extend_from_slice(text.as_bytes());
    }
    expected.extend_from_slice(&1u16.to_le_bytes());
    expected.push(0);
    expected.push(1);
    expected.push(0);
    expected.extend_from_slice(&[1, 0]);
    expected.push(0);
    expected.push(0);
    expected.push(0);
    expected.extend_from_slice(&2u32.to_le_bytes());
    expected.extend_from_slice(&[21u8; 32]);
    expected.push(1);
    expected.push(60);
    expected.extend_from_slice(&[22u8; 32]);
    expected.push(0);
    expected.push(40);
    assert_eq!(ix.data, expected);
}

#[test]
fn program_id_constants_match_their_base58_forms() {
    let ps = ProgramSet::standard();
    let bubblegum = decode_public("BGUMAp9Gq7iTEuizy4pqaxsTyUCBK68MDfK752saRPUY").unwrap();
    assert_eq!(bubblegum.bytes, BUBBLEGUM_PROGRAM_ID.to_vec());
    assert_eq!(bubblegum.bytes, ps.bubblegum.bytes);
    let log_wrapper = decode_public("noopb9bkMVfRPU8AsbpTUg8AQkHtKwMYZiFUjNRtMmV").unwrap();
    assert_eq!(log_wrapper.bytes, LOG_WRAPPER_PROGRAM_ID.to_vec());
    assert_eq!(log_wrapper.bytes, ps.log_wrapper.bytes);
    let compression = decode_public("cmtDvXumGCrqC1Age74AVPhSRVXJMd8PJS91L8KbNCK").unwrap();
    assert_eq!(compression.bytes, COMPRESSION_PROGRAM_ID.to_vec());
    assert_eq!(compression.bytes, ps.compression.bytes);
    let system = decode_public("11111111111111111111111111111111").unwrap();
    assert_eq!(system.bytes, SYSTEM_PROGRAM_ID.to_vec());
    assert_eq!(system.bytes, ps.system.bytes);
}

#[test]
fn transfer_builder_rejects_oversized_proof_list() {
    let ps = programs();
    let bh = blockhash();
    let (payer, to, root, dh, ch, _proof, tree) = transfer_args();
    let huge: Vec<String> = (0..246u32)
        .map(|i| {
            let mut h = [0u8; 32];
            h[0] = (i % 251) as u8;
            h[1] = (i / 251) as u8;
            b58(&h)
        })
        .collect();
    let r = mpl_bubblegum::transfer::transfer_builder(
        &payer,
        &to,
        None,
        Some(42),
        Some(dh),
        Some(ch),
        Some(root),
        Some(huge),
        Some(tree),
        None,
        Some(7),
        None,
        None,
        None,
        None,
        &ps,
        &bh,
    );
    assert_eq!(r.unwrap_err(), BuilderError::SerializationFailure);
}

#[test]
fn mint_builder_rejects_oversized_metadata_payload() {
    let ps = programs();
    let bh = blockhash();
    let payer = SdkKeypair::new().to_base58_string();
    let tree = SdkKeypair::new().pubkey().to_string();
    let uri: String = "a".repeat(70_000);
    let r = mpl_bubblegum::mint::mint_v1_builder(
        &payer,
        &tree,
        "n".to_string(),
        "s".to_string(),
        uri,
        250,
        100,
        &ps,
        &bh,
    );
    assert_eq!(r.unwrap_err(), BuilderError::SerializationFailure);
}
