//! Instruction assembly: account tables and binary payloads for the three
//! tree operations, reproducing the external program's ABI exactly.

use vstd::prelude::*;

use crate::encode::{
    borsh_string, borsh_string_fits, push_bool, push_borsh_string, push_bytes, push_u16_le,
    push_u32_le, push_u64_le, u16_le_bytes, u32_le_bytes, u64_le_bytes,
};
use crate::error::BuilderError;
use crate::keys::Identifier;

verus! {

/// The compressed-NFT program that owns the three operations.
pub const BUBBLEGUM_PROGRAM_ID: [u8; 32] = [
    152, 139, 128, 235, 121, 53, 40, 105, 178, 36, 116, 95, 89, 221, 191, 138, 38, 88, 202, 19,
    220, 104, 129, 33, 38, 53, 28, 174, 7, 193, 165, 165,
];

/// The no-op log wrapper program.
pub const LOG_WRAPPER_PROGRAM_ID: [u8; 32] = [
    11, 188, 15, 192, 187, 71, 202, 47, 116, 196, 17, 46, 148, 171, 19, 207, 163, 198, 52, 229,
    220, 23, 234, 203, 3, 205, 26, 35, 205, 126, 120, 124,
];

/// The account-compression program that stores the Merkle tree.
pub const COMPRESSION_PROGRAM_ID: [u8; 32] = [
    9, 42, 19, 238, 149, 196, 28, 186, 8, 166, 127, 90, 198, 126, 141, 247, 225, 218, 17, 98, 94,
    29, 100, 19, 127, 143, 79, 35, 131, 3, 127, 20,
];

/// The system program.
pub const SYSTEM_PROGRAM_ID: [u8; 32] = [
    0, 0, 0, 0, 0, 0, 0, 0, 0, 0, 0, 0, 0, 0, 0, 0, 0, 0, 0, 0, 0, 0, 0, 0, 0, 0, 0, 0, 0, 0, 0,
    0,
];

/// The eight-byte tag of the create-tree operation.
pub const CREATE_TREE_TAG: [u8; 8] = [165, 83, 136, 142, 89, 202, 47, 220];

/// The eight-byte tag of the mint operation.
pub const MINT_V1_TAG: [u8; 8] = [145, 98, 192, 118, 184, 147, 118, 104];

/// The eight-byte tag of the transfer operation.
pub const TRANSFER_TAG: [u8; 8] = [163, 52, 200, 231, 140, 3, 69, 186];

/// Copies a 32-byte constant into an identifier.
pub fn identifier_from_array(a: &[u8; 32]) -> (r: Identifier)
    ensures
        r@ == a@,
        r.wf(),
{
    let mut bytes: Vec<u8> = Vec::new();
    for i in 0..32
        invariant
            bytes@ == a@.subrange(0, i as int),
    {
        bytes.push(a[i]);
        assert(bytes@ =~= a@.subrange(0, i + 1));
    }
    assert(bytes@ =~= a@);
    Identifier { bytes }
}

/// The model of one slot of an instruction's account list.
#[verifier::ext_equal]
pub ghost struct AcctModel {
    pub key: Seq<u8>,
    pub signer: bool,
    pub writable: bool,
}

/// The model of an instruction: target program, ordered account list, payload.
#[verifier::ext_equal]
pub ghost struct InstrModel {
    pub program: Seq<u8>,
    pub accounts: Seq<AcctModel>,
    pub data: Seq<u8>,
}

/// Shorthand for one account slot model.
pub open spec fn acct(key: Seq<u8>, signer: bool, writable: bool) -> AcctModel {
    AcctModel { key, signer, writable }
}

/// One slot of an instruction's account list.
#[derive(Debug)]
pub struct AccountMeta {
    pub id: Identifier,
    pub is_signer: bool,
    pub is_writable: bool,
}

impl View for AccountMeta {
    type V = AcctModel;

    open spec fn view(&self) -> AcctModel {
        AcctModel { key: self.id@, signer: self.is_signer, writable: self.is_writable }
    }
}

/// The models of a list of account slots, in order.
pub open spec fn metas_model(s: Seq<AccountMeta>) -> Seq<AcctModel> {
    s.map_values(|m: AccountMeta| m@)
}

/// An instruction for the ledger: target program, ordered accounts, payload.
#[derive(Debug)]
pub struct Instruction {
    pub program_id: Identifier,
    pub accounts: Vec<AccountMeta>,
    pub data: Vec<u8>,
}

impl View for Instruction {
    type V = InstrModel;

    open spec fn view(&self) -> InstrModel {
        InstrModel {
            program: self.program_id@,
            accounts: metas_model(self.accounts@),
            data: self.data@,
        }
    }
}

/// Every key of the model is exactly 32 bytes.
pub open spec fn instr_model_wf(m: InstrModel) -> bool {
    &&& m.program.len() == 32
    &&& forall|j: int| 0 <= j < m.accounts.len() ==> (#[trigger] m.accounts[j]).key.len() == 32
}

/// Builds one account slot.
pub fn account(id: &Identifier, signer: bool, writable: bool) -> (r: AccountMeta)
    ensures
        r@ == acct(id@, signer, writable),
{
    AccountMeta { id: id.dup(), is_signer: signer, is_writable: writable }
}

/// The fixed program identifiers an operation targets. Injected into each
/// builder so another deployment of the same programs can be addressed.
pub struct ProgramSet {
    pub bubblegum: Identifier,
    pub log_wrapper: Identifier,
    pub compression: Identifier,
    pub system: Identifier,
}

impl ProgramSet {
    /// All four identifiers are 32 bytes.
    pub open spec fn wf(&self) -> bool {
        self.bubblegum.wf() && self.log_wrapper.wf() && self.compression.wf() && self.system.wf()
    }

    /// The well-known deployment of the four programs.
    pub fn standard() -> (r: ProgramSet)
        ensures
            r.wf(),
            r.bubblegum@ == BUBBLEGUM_PROGRAM_ID@,
            r.log_wrapper@ == LOG_WRAPPER_PROGRAM_ID@,
            r.compression@ == COMPRESSION_PROGRAM_ID@,
            r.system@ == SYSTEM_PROGRAM_ID@,
    {
        ProgramSet {
            bubblegum: identifier_from_array(&BUBBLEGUM_PROGRAM_ID),
            log_wrapper: identifier_from_array(&LOG_WRAPPER_PROGRAM_ID),
            compression: identifier_from_array(&COMPRESSION_PROGRAM_ID),
            system: identifier_from_array(&SYSTEM_PROGRAM_ID),
        }
    }
}

/// Appends an eight-byte operation tag to `out`.
fn push_tag(out: &mut Vec<u8>, tag: &[u8; 8])
    ensures
        final(out)@ == old(out)@ + tag@,
{
    for i in 0..8
        invariant
            out@ == old(out)@ + tag@.subrange(0, i as int),
    {
        out.push(tag[i]);
        assert(out@ =~= old(out)@ + tag@.subrange(0, i + 1));
    }
    assert(out@ =~= old(out)@ + tag@);
}

/// The on-ledger byte size of a tree account: a fixed header plus one change
/// log per buffer slot and one rightmost path, each sized by the depth.
pub open spec fn tree_account_size_spec(depth: nat, buffer: nat) -> nat {
    80 + (buffer + 1) * (40 + 32 * depth)
}

/// Computes the on-ledger byte size of a tree account.
pub fn tree_account_size(max_depth: u32, max_buffer: u32) -> (r: u64)
    requires
        max_depth <= 64,
        max_buffer <= 4096,
    ensures
        r == tree_account_size_spec(max_depth as nat, max_buffer as nat),
{
    let depth = max_depth as u64;
    let buffer = max_buffer as u64;
    proof {
        assert((buffer + 1) * (40 + 32 * depth) <= 4097 * 2088) by (nonlinear_arith)
            requires
                depth <= 64,
                buffer <= 4096,
        ;
    }
    80 + (buffer + 1) * (40 + 32 * depth)
}

/// The payload of the system program's create-account call: its instruction
/// index, the funded lamports, the byte size, and the owning program.
pub open spec fn create_account_data(lamports: u64, space: u64, owner: Seq<u8>) -> Seq<u8> {
    u32_le_bytes(0) + u64_le_bytes(lamports) + u64_le_bytes(space) + owner
}

/// The model of the create-account instruction: the payer funds a new account
/// that both sign for.
pub open spec fn create_account_model(
    payer: Seq<u8>,
    new_account: Seq<u8>,
    lamports: u64,
    space: u64,
    owner: Seq<u8>,
    system: Seq<u8>,
) -> InstrModel {
    InstrModel {
        program: system,
        accounts: seq![acct(payer, true, true), acct(new_account, true, true)],
        data: create_account_data(lamports, space, owner),
    }
}

/// Builds the system-program instruction that allocates `space` bytes for a
/// new account funded with `lamports` and owned by `owner`.
pub fn create_account_instruction(
    payer: &Identifier,
    new_account: &Identifier,
    lamports: u64,
    space: u64,
    owner: &Identifier,
    programs: &ProgramSet,
) -> (r: Instruction)
    ensures
        r@ == create_account_model(payer@, new_account@, lamports, space, owner@, programs.system@),
{
    let mut data: Vec<u8> = Vec::new();
    push_u32_le(&mut data, 0);
    push_u64_le(&mut data, lamports);
    push_u64_le(&mut data, space);
    push_bytes(&mut data, &owner.bytes);
    let mut accounts: Vec<AccountMeta> = Vec::new();
    accounts.push(account(payer, true, true));
    accounts.push(account(new_account, true, true));
    let r = Instruction { program_id: programs.system.dup(), accounts, data };
    proof {
        assert(r@.data =~= create_account_data(lamports, space, owner@));
        assert(r@.accounts =~= seq![acct(payer@, true, true), acct(new_account@, true, true)]);
        assert(r@ =~~= create_account_model(
            payer@,
            new_account@,
            lamports,
            space,
            owner@,
            programs.system@,
        ));
    }
    r
}

/// The payload of the create-tree operation: its tag, the two capacity
/// parameters, and the non-public marker.
pub open spec fn create_tree_data(max_depth: u32, max_buffer: u32, public: Option<bool>) -> Seq<
    u8,
> {
    CREATE_TREE_TAG@ + u32_le_bytes(max_depth) + u32_le_bytes(max_buffer) + (match public {
        None => seq![0u8],
        Some(b) => seq![1u8, if b { 1u8 } else { 0u8 }],
    })
}

/// The model of the create-tree instruction: the tree-configuration account
/// is initialized for the new tree, attributing creation to the payer.
pub open spec fn create_tree_model(
    tree_config: Seq<u8>,
    merkle_tree: Seq<u8>,
    payer: Seq<u8>,
    max_depth: u32,
    max_buffer: u32,
    public: Option<bool>,
    programs: ProgramSet,
) -> InstrModel {
    InstrModel {
        program: programs.bubblegum@,
        accounts: seq![
            acct(tree_config, false, true),
            acct(merkle_tree, false, true),
            acct(payer, true, true),
            acct(payer, true, false),
            acct(programs.log_wrapper@, false, false),
            acct(programs.compression@, false, false),
            acct(programs.system@, false, false),
        ],
        data: create_tree_data(max_depth, max_buffer, public),
    }
}

/// Builds the instruction that initializes the tree-configuration account.
/// The payer is also the tree creator.
pub fn create_tree_instruction(
    tree_config: &Identifier,
    merkle_tree: &Identifier,
    payer: &Identifier,
    max_depth: u32,
    max_buffer: u32,
    public: Option<bool>,
    programs: &ProgramSet,
) -> (r: Instruction)
    ensures
        r@ == create_tree_model(
            tree_config@,
            merkle_tree@,
            payer@,
            max_depth,
            max_buffer,
            public,
            *programs,
        ),
{
    let mut data: Vec<u8> = Vec::new();
    push_tag(&mut data, &CREATE_TREE_TAG);
    push_u32_le(&mut data, max_depth);
    push_u32_le(&mut data, max_buffer);
    match public {
        None => push_bool(&mut data, false),
        Some(b) => {
            push_bool(&mut data, true);
            push_bool(&mut data, b);
        },
    }
    let mut accounts: Vec<AccountMeta> = Vec::new();
    accounts.push(account(tree_config, false, true));
    accounts.push(account(merkle_tree, false, true));
    accounts.push(account(payer, true, true));
    accounts.push(account(payer, true, false));
    accounts.push(account(&programs.log_wrapper, false, false));
    accounts.push(account(&programs.compression, false, false));
    accounts.push(account(&programs.system, false, false));
    let r = Instruction { program_id: programs.bubblegum.dup(), accounts, data };
    proof {
        let m = create_tree_model(
            tree_config@,
            merkle_tree@,
            payer@,
            max_depth,
            max_buffer,
            public,
            *programs,
        );
        assert(r@.data =~= m.data);
        assert(r@.accounts =~= m.accounts);
        assert(r@ =~~= m);
    }
    r
}

/// One royalty recipient of a minted leaf.
pub struct Creator {
    pub address: Identifier,
    pub verified: bool,
    pub share: u8,
}

/// The model of one creator.
#[verifier::ext_equal]
pub ghost struct CreatorModel {
    pub address: Seq<u8>,
    pub verified: bool,
    pub share: u8,
}

impl View for Creator {
    type V = CreatorModel;

    open spec fn view(&self) -> CreatorModel {
        CreatorModel { address: self.address@, verified: self.verified, share: self.share }
    }
}

/// The metadata of a leaf to mint. The royalty is in basis points; the
/// creators' shares must sum to exactly 100.
pub struct LeafMetadata {
    pub name: String,
    pub symbol: String,
    pub uri: String,
    pub seller_fee_basis_points: u16,
    pub is_mutable: bool,
    pub creators: Vec<Creator>,
}

/// The model of leaf metadata.
#[verifier::ext_equal]
pub ghost struct MetadataModel {
    pub name: Seq<char>,
    pub symbol: Seq<char>,
    pub uri: Seq<char>,
    pub seller_fee_basis_points: u16,
    pub is_mutable: bool,
    pub creators: Seq<CreatorModel>,
}

impl View for LeafMetadata {
    type V = MetadataModel;

    open spec fn view(&self) -> MetadataModel {
        MetadataModel {
            name: self.name@,
            symbol: self.symbol@,
            uri: self.uri@,
            seller_fee_basis_points: self.seller_fee_basis_points,
            is_mutable: self.is_mutable,
            creators: self.creators@.map_values(|c: Creator| c@),
        }
    }
}

/// The encoding of one creator: address, verification flag, share.
pub open spec fn creator_bytes(c: CreatorModel) -> Seq<u8> {
    c.address + seq![if c.verified { 1u8 } else { 0u8 }, c.share]
}

/// The concatenated encodings of the first `j` creators.
pub open spec fn creators_prefix_bytes(cs: Seq<CreatorModel>, j: int) -> Seq<u8>
    decreases j,
{
    if j <= 0 {
        Seq::empty()
    } else {
        creators_prefix_bytes(cs, j - 1) + creator_bytes(cs[j - 1])
    }
}

/// The sum of the creators' shares.
pub open spec fn shares_sum(cs: Seq<CreatorModel>) -> int
    decreases cs.len(),
{
    if cs.len() == 0 {
        0
    } else {
        shares_sum(cs.drop_last()) + cs.last().share
    }
}

/// Whether metadata obeys the protocol's rules: royalty at most 10000 basis
/// points and creator shares summing to exactly 100.
pub open spec fn metadata_valid(m: MetadataModel) -> bool {
    m.seller_fee_basis_points <= 10000 && shares_sum(m.creators) == 100
}

/// Whether every variable-length piece of the metadata fits its borsh length
/// prefix.
pub open spec fn metadata_fits(m: MetadataModel) -> bool {
    &&& borsh_string_fits(m.name)
    &&& borsh_string_fits(m.symbol)
    &&& borsh_string_fits(m.uri)
    &&& m.creators.len() <= u32::MAX
}

/// The borsh encoding of the metadata. The fields the pipelines fix are
/// encoded as constants: no primary sale, no edition nonce, the non-fungible
/// token standard, no collection, no uses, and the original token program.
pub open spec fn metadata_bytes(m: MetadataModel) -> Seq<u8> {
    borsh_string(m.name) + borsh_string(m.symbol) + borsh_string(m.uri) + u16_le_bytes(
        m.seller_fee_basis_points,
    ) + seq![0u8] + seq![if m.is_mutable { 1u8 } else { 0u8 }] + seq![0u8] + seq![1u8, 0u8]
        + seq![0u8] + seq![0u8] + seq![0u8] + u32_le_bytes(m.creators.len() as u32)
        + creators_prefix_bytes(m.creators, m.creators.len() as int)
}

/// The payload of the mint operation: its tag, then the metadata.
pub open spec fn mint_data(m: MetadataModel) -> Seq<u8> {
    MINT_V1_TAG@ + metadata_bytes(m)
}

/// Appends the borsh encoding of the metadata, or reports failure when a
/// string is too long for its length prefix.
fn push_metadata(out: &mut Vec<u8>, m: &LeafMetadata) -> (ok: bool)
    ensures
        ok == metadata_fits(m@),
        ok ==> final(out)@ == old(out)@ + metadata_bytes(m@),
{
    if m.creators.len() as u64 > u32::MAX as u64 {
        return false;
    }
    let mut body: Vec<u8> = Vec::new();
    if !push_borsh_string(&mut body, &m.name) {
        return false;
    }
    if !push_borsh_string(&mut body, &m.symbol) {
        return false;
    }
    if !push_borsh_string(&mut body, &m.uri) {
        return false;
    }
    push_u16_le(&mut body, m.seller_fee_basis_points);
    push_bool(&mut body, false);
    push_bool(&mut body, m.is_mutable);
    push_bool(&mut body, false);
    push_bool(&mut body, true);
    body.push(0u8);
    push_bool(&mut body, false);
    push_bool(&mut body, false);
    push_bool(&mut body, false);
    push_u32_le(&mut body, m.creators.len() as u32);
    let ghost cs = m@.creators;
    let ghost head = body@;
    let n = m.creators.len();
    for j in 0..n
        invariant
            n == m.creators@.len(),
            cs == m@.creators,
            head == body@.subrange(0, head.len() as int) && head.len() <= body@.len(),
            body@ == head + creators_prefix_bytes(cs, j as int),
    {
        let c = &m.creators[j];
        proof {
            assert(cs[j as int] == m.creators@[j as int]@);
        }
        push_bytes(&mut body, &c.address.bytes);
        push_bool(&mut body, c.verified);
        body.push(c.share);
        assert(body@ =~= head + creators_prefix_bytes(cs, j + 1));
    }
    push_bytes(out, &body);
    proof {
        assert(body@ =~= metadata_bytes(m@));
    }
    true
}

/// The model of the mint instruction: the fixed nine-slot account list, then
/// the tagged metadata payload. The payer and the tree creator sign.
pub open spec fn mint_model(
    tree_config: Seq<u8>,
    leaf_owner: Seq<u8>,
    leaf_delegate: Seq<u8>,
    merkle_tree: Seq<u8>,
    payer: Seq<u8>,
    tree_creator: Seq<u8>,
    metadata: MetadataModel,
    programs: ProgramSet,
) -> InstrModel {
    InstrModel {
        program: programs.bubblegum@,
        accounts: seq![
            acct(tree_config, false, true),
            acct(leaf_owner, false, false),
            acct(leaf_delegate, false, false),
            acct(merkle_tree, false, true),
            acct(payer, true, false),
            acct(tree_creator, true, false),
            acct(programs.log_wrapper@, false, false),
            acct(programs.compression@, false, false),
            acct(programs.system@, false, false),
        ],
        data: mint_data(metadata),
    }
}

/// Builds the mint instruction with its fixed nine-slot account order:
/// tree-config, leaf owner, leaf delegate, tree, payer, tree creator or
/// delegate, log wrapper, compression program, system program.
pub fn mint_instruction(
    tree_config: &Identifier,
    leaf_owner: &Identifier,
    leaf_delegate: &Identifier,
    merkle_tree: &Identifier,
    payer: &Identifier,
    tree_creator: &Identifier,
    metadata: &LeafMetadata,
    programs: &ProgramSet,
) -> (r: Result<Instruction, BuilderError>)
    ensures
        match r {
            Ok(ix) => metadata_fits(metadata@) && ix@ == mint_model(
                tree_config@,
                leaf_owner@,
                leaf_delegate@,
                merkle_tree@,
                payer@,
                tree_creator@,
                metadata@,
                *programs,
            ),
            Err(e) => e == BuilderError::SerializationFailure && !metadata_fits(metadata@),
        },
{
    let mut data: Vec<u8> = Vec::new();
    push_tag(&mut data, &MINT_V1_TAG);
    if !push_metadata(&mut data, metadata) {
        return Err(BuilderError::SerializationFailure);
    }
    let mut accounts: Vec<AccountMeta> = Vec::new();
    accounts.push(account(tree_config, false, true));
    accounts.push(account(leaf_owner, false, false));
    accounts.push(account(leaf_delegate, false, false));
    accounts.push(account(merkle_tree, false, true));
    accounts.push(account(payer, true, false));
    accounts.push(account(tree_creator, true, false));
    accounts.push(account(&programs.log_wrapper, false, false));
    accounts.push(account(&programs.compression, false, false));
    accounts.push(account(&programs.system, false, false));
    let r = Instruction { program_id: programs.bubblegum.dup(), accounts, data };
    proof {
        let m = mint_model(
            tree_config@,
            leaf_owner@,
            leaf_delegate@,
            merkle_tree@,
            payer@,
            tree_creator@,
            metadata@,
            *programs,
        );
        assert(r@.data =~= m.data);
        assert(r@.accounts =~= m.accounts);
        assert(r@ =~~= m);
    }
    Ok(r)
}

/// The payload of the transfer operation: its tag, the declared root, the
/// leaf's data and creator hashes, its nonce and its index.
pub open spec fn transfer_data(
    root: Seq<u8>,
    data_hash: Seq<u8>,
    creator_hash: Seq<u8>,
    nonce: u64,
    index: u32,
) -> Seq<u8> {
    TRANSFER_TAG@ + root + data_hash + creator_hash + u64_le_bytes(nonce) + u32_le_bytes(index)
}

/// The account slots of the proof path: each sibling hash read-only.
pub open spec fn proof_accounts(proof: Seq<Seq<u8>>) -> Seq<AcctModel> {
    proof.map_values(|h: Seq<u8>| acct(h, false, false))
}

/// The model of the transfer instruction: a fixed nine-slot prefix, then one
/// read-only slot per proof entry. Exactly one of the owner and the delegate
/// signs: the delegate when one was supplied, else the owner.
pub open spec fn transfer_model(
    tree_config: Seq<u8>,
    leaf_owner: Seq<u8>,
    leaf_delegate: Seq<u8>,
    new_leaf_owner: Seq<u8>,
    merkle_tree: Seq<u8>,
    delegate_signs: bool,
    root: Seq<u8>,
    data_hash: Seq<u8>,
    creator_hash: Seq<u8>,
    nonce: u64,
    index: u32,
    proof: Seq<Seq<u8>>,
    programs: ProgramSet,
) -> InstrModel {
    InstrModel {
        program: programs.bubblegum@,
        accounts: seq![
            acct(tree_config, false, false),
            acct(leaf_owner, !delegate_signs, false),
            acct(leaf_delegate, delegate_signs, false),
            acct(new_leaf_owner, false, false),
            acct(merkle_tree, false, true),
            acct(programs.log_wrapper@, false, false),
            acct(programs.compression@, false, false),
            acct(programs.system@, false, false),
            acct(programs.bubblegum@, false, false),
        ] + proof_accounts(proof),
        data: transfer_data(root, data_hash, creator_hash, nonce, index),
    }
}

/// Builds the transfer instruction: the nine fixed slots, then the proof path
/// appended as read-only, non-signer accounts.
pub fn transfer_instruction(
    tree_config: &Identifier,
    leaf_owner: &Identifier,
    leaf_delegate: &Identifier,
    new_leaf_owner: &Identifier,
    merkle_tree: &Identifier,
    delegate_signs: bool,
    root: &Identifier,
    data_hash: &Identifier,
    creator_hash: &Identifier,
    nonce: u64,
    index: u32,
    proof: &Vec<Identifier>,
    programs: &ProgramSet,
) -> (r: Instruction)
    ensures
        r@ == transfer_model(
            tree_config@,
            leaf_owner@,
            leaf_delegate@,
            new_leaf_owner@,
            merkle_tree@,
            delegate_signs,
            root@,
            data_hash@,
            creator_hash@,
            nonce,
            index,
            proof.deep_view(),
            *programs,
        ),
        r@.accounts.len() == 9 + proof@.len(),
{
    let mut data: Vec<u8> = Vec::new();
    push_tag(&mut data, &TRANSFER_TAG);
    push_bytes(&mut data, &root.bytes);
    push_bytes(&mut data, &data_hash.bytes);
    push_bytes(&mut data, &creator_hash.bytes);
    push_u64_le(&mut data, nonce);
    push_u32_le(&mut data, index);
    let mut accounts: Vec<AccountMeta> = Vec::new();
    accounts.push(account(tree_config, false, false));
    accounts.push(account(leaf_owner, !delegate_signs, false));
    accounts.push(account(leaf_delegate, delegate_signs, false));
    accounts.push(account(new_leaf_owner, false, false));
    accounts.push(account(merkle_tree, false, true));
    accounts.push(account(&programs.log_wrapper, false, false));
    accounts.push(account(&programs.compression, false, false));
    accounts.push(account(&programs.system, false, false));
    accounts.push(account(&programs.bubblegum, false, false));
    let ghost prefix = metas_model(accounts@);
    let ghost dv = proof.deep_view();
    let n = proof.len();
    for j in 0..n
        invariant
            n == proof@.len(),
            dv == proof.deep_view(),
            accounts@.len() == 9 + j,
            metas_model(accounts@) == prefix + proof_accounts(dv.subrange(0, j as int)),
    {
        let ghost before = accounts@;
        let ghost slot = acct(dv[j as int], false, false);
        accounts.push(account(&proof[j], false, false));
        proof {
            assert(metas_model(accounts@) =~~= metas_model(before).push(slot));
            assert(dv.subrange(0, j + 1) =~= dv.subrange(0, j as int).push(dv[j as int]));
            assert(proof_accounts(dv.subrange(0, j as int).push(dv[j as int]))
                =~~= proof_accounts(dv.subrange(0, j as int)).push(slot));
            assert(prefix + proof_accounts(dv.subrange(0, j as int)).push(slot) =~~= (prefix
                + proof_accounts(dv.subrange(0, j as int))).push(slot));
            assert(metas_model(accounts@) == prefix + proof_accounts(dv.subrange(0, j + 1)));
        }
    }
    let r = Instruction { program_id: programs.bubblegum.dup(), accounts, data };
    proof {
        let m = transfer_model(
            tree_config@,
            leaf_owner@,
            leaf_delegate@,
            new_leaf_owner@,
            merkle_tree@,
            delegate_signs,
            root@,
            data_hash@,
            creator_hash@,
            nonce,
            index,
            proof.deep_view(),
            *programs,
        );
        assert(proof.deep_view().subrange(0, proof@.len() as int) =~= proof.deep_view());
        assert(r@.data =~= m.data);
        assert(r@.accounts =~~= m.accounts);
        assert(r@ =~~= m);
    }
    r
}

} // verus!
