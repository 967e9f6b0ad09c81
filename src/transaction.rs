//! Turning a program call into a signed transaction and submitting it.
use crate::error::BubblegumError;
use crate::instructions::{
    create_tree_call, create_tree_spec, negative_depth_text, mint_call, mint_spec, transfer_call, transfer_spec,
    BubblegumCall, AssetMetadata, AssetTokenProgram, AssetTokenStandard, AssetUseMethod, AssetUses,
};
use crate::keys::{keypair_address, new_keypair, unique_address, zero_bytes, PublicKey, TxSignature};
use mpl_bubblegum::instructions::{CreateTreeConfigBuilder, MintV1Builder, TransferBuilder};
use mpl_bubblegum::types;
use solana_sdk::instruction::Instruction;
use solana_sdk::pubkey::Pubkey;
use solana_sdk::signature::Keypair;
use solana_sdk::signer::Signer;
use solana_sdk::transaction::Transaction;
use vstd::prelude::*;

verus! {

#[verifier::external_type_specification]
#[verifier::external_body]
pub struct ExInstruction(Instruction);

#[verifier::external_type_specification]
#[verifier::external_body]
pub struct ExTransaction(Transaction);

/// A transaction carrying one bubblegum call. The fee payer is the one key
/// that signs; any other signer that the call requires is left to sign
/// later.
#[derive(Debug)]
pub struct SignedTransaction {
    pub call: BubblegumCall,
    pub payer: PublicKey,
    pub signers: Vec<PublicKey>,
    pub recent_blockhash: [u8; 32],
    pub transaction: Transaction,
}

/// Relies on mpl-bubblegum's `CreateTreeConfigBuilder::instruction`; every
/// account and argument is set, so it does not panic.
#[verifier::external_body]
fn create_tree_config_instruction(
    tree_config: &PublicKey,
    merkle_tree: &PublicKey,
    payer: &PublicKey,
    tree_creator: &PublicKey,
    max_depth: u32,
    max_buffer_size: u32,
    public: bool,
) -> (r: Instruction) {
    CreateTreeConfigBuilder::new().tree_config(Pubkey::new_from_array(tree_config.bytes)).merkle_tree(
        Pubkey::new_from_array(merkle_tree.bytes),
    ).payer(Pubkey::new_from_array(payer.bytes)).tree_creator(
        Pubkey::new_from_array(tree_creator.bytes),
    ).max_depth(max_depth).max_buffer_size(max_buffer_size).public(public).instruction()
}

#[verifier::external_type_specification]
#[verifier::external_body]
pub struct ExMetadataArgs(types::MetadataArgs);

#[verifier::external_type_specification]
#[verifier::external_body]
pub struct ExTokenStandard(types::TokenStandard);

#[verifier::external_type_specification]
#[verifier::external_body]
pub struct ExUses(types::Uses);

#[verifier::external_type_specification]
#[verifier::external_body]
pub struct ExTokenProgramVersion(types::TokenProgramVersion);

/// Relies on mpl-bubblegum's `TokenStandard` type: the same variant.
#[verifier::external_body]
fn outside_token_standard(t: AssetTokenStandard) -> (r: types::TokenStandard) {
    match t {
        AssetTokenStandard::NonFungible => types::TokenStandard::NonFungible,
        AssetTokenStandard::FungibleAsset => types::TokenStandard::FungibleAsset,
        AssetTokenStandard::Fungible => types::TokenStandard::Fungible,
        AssetTokenStandard::NonFungibleEdition => types::TokenStandard::NonFungibleEdition,
    }
}

/// Relies on mpl-bubblegum's `Uses` and `UseMethod` types: the same values.
#[verifier::external_body]
fn outside_uses(u: AssetUses) -> (r: types::Uses) {
    let use_method = match u.use_method {
        AssetUseMethod::Burn => types::UseMethod::Burn,
        AssetUseMethod::Multiple => types::UseMethod::Multiple,
        AssetUseMethod::Single => types::UseMethod::Single,
    };
    types::Uses { use_method, remaining: u.remaining, total: u.total }
}

/// Relies on mpl-bubblegum's `TokenProgramVersion` type: the same variant.
#[verifier::external_body]
fn outside_token_program(v: AssetTokenProgram) -> (r: types::TokenProgramVersion) {
    match v {
        AssetTokenProgram::Original => types::TokenProgramVersion::Original,
        AssetTokenProgram::Token2022 => types::TokenProgramVersion::Token2022,
    }
}

/// Relies on mpl-bubblegum's `MetadataArgs` type: the same descriptor, field
/// by field, with the variant-typed fields already converted.
#[verifier::external_body]
fn outside_metadata(
    m: &AssetMetadata,
    token_standard: Option<types::TokenStandard>,
    uses: Option<types::Uses>,
    token_program_version: types::TokenProgramVersion,
) -> (r: types::MetadataArgs) {
    types::MetadataArgs {
        name: m.name.clone(), symbol: m.symbol.clone(), uri: m.uri.clone(),
        seller_fee_basis_points: m.seller_fee_basis_points, primary_sale_happened: m.primary_sale_happened,
        is_mutable: m.is_mutable, edition_nonce: m.edition_nonce, token_standard, uses, token_program_version,
        collection: m.collection.map(|c| types::Collection { verified: c.verified, key: Pubkey::new_from_array(c.key.bytes) }),
        creators: m.creators.iter().map(|c| types::Creator { address: Pubkey::new_from_array(c.address.bytes), verified: c.verified, share: c.share }).collect(),
    }
}

/// The bubblegum descriptor of an asset's metadata.
fn metadata_for_program(m: &AssetMetadata) -> (r: types::MetadataArgs) {
    let token_standard = match m.token_standard {
        Some(t) => Some(outside_token_standard(t)),
        None => None,
    };
    let uses = match m.uses {
        Some(u) => Some(outside_uses(u)),
        None => None,
    };
    outside_metadata(m, token_standard, uses, outside_token_program(m.token_program_version))
}

/// Relies on mpl-bubblegum's `MintV1Builder::instruction`; every account and
/// the metadata are set, so it does not panic. The owner signs as the tree's
/// creator or delegate.
#[verifier::external_body]
fn mint_v1_instruction(
    tree_config: &PublicKey,
    leaf_owner: &PublicKey,
    leaf_delegate: &PublicKey,
    merkle_tree: &PublicKey,
    owner: &PublicKey,
    payer: &PublicKey,
    metadata: types::MetadataArgs,
) -> (r: Instruction) {
    MintV1Builder::new().tree_config(Pubkey::new_from_array(tree_config.bytes)).leaf_owner(Pubkey::new_from_array(leaf_owner.bytes))
        .leaf_delegate(Pubkey::new_from_array(leaf_delegate.bytes)).merkle_tree(Pubkey::new_from_array(merkle_tree.bytes))
        .payer(Pubkey::new_from_array(payer.bytes)).tree_creator_or_delegate(Pubkey::new_from_array(owner.bytes)).metadata(metadata).instruction()
}

/// Relies on mpl-bubblegum's `TransferBuilder::instruction`; every account
/// and argument is set, so it does not panic. The two flags say whether the
/// leaf owner and the leaf delegate are marked as signers.
#[verifier::external_body]
fn transfer_instruction(
    tree_config: &PublicKey,
    leaf_owner: &PublicKey,
    leaf_owner_signs: bool,
    leaf_delegate: &PublicKey,
    leaf_delegate_signs: bool,
    new_leaf_owner: &PublicKey,
    merkle_tree: &PublicKey,
    root: [u8; 32],
    data_hash: [u8; 32],
    creator_hash: [u8; 32],
    nonce: u64,
    index: u32,
) -> (r: Instruction) {
    TransferBuilder::new().tree_config(Pubkey::new_from_array(tree_config.bytes)).leaf_owner(Pubkey::new_from_array(leaf_owner.bytes), leaf_owner_signs)
        .leaf_delegate(Pubkey::new_from_array(leaf_delegate.bytes), leaf_delegate_signs).new_leaf_owner(Pubkey::new_from_array(new_leaf_owner.bytes))
        .merkle_tree(Pubkey::new_from_array(merkle_tree.bytes)).root(root).data_hash(data_hash).creator_hash(creator_hash).nonce(nonce).index(index).instruction()
}

/// Relies on solana-sdk's `Transaction::new_with_payer` and
/// `Transaction::partial_sign`: the transaction holds the one instruction,
/// its fee paid by `payer`, and carries the payer's signature. The fee payer
/// is the first required signer, so signing with it never fails (nor
/// panics); other required signers are left unsigned.
#[verifier::external_body]
fn signed_by_fee_payer(ix: Instruction, payer: &Keypair, blockhash: &[u8; 32]) -> (r: Transaction) {
    let mut transaction = Transaction::new_with_payer(&[ix], Some(&payer.pubkey()));
    transaction.partial_sign(&[payer], solana_sdk::hash::Hash::new_from_array(*blockhash));
    transaction
}

/// The program instruction for a call.
fn outside_instruction(call: &BubblegumCall) -> (r: Instruction) {
    match call {
        BubblegumCall::CreateTree {
            tree_config,
            merkle_tree,
            tree_creator,
            payer,
            max_depth,
            max_buffer_size,
            public,
        } => create_tree_config_instruction(
            tree_config,
            merkle_tree,
            payer,
            tree_creator,
            *max_depth,
            *max_buffer_size,
            *public,
        ),
        BubblegumCall::MintV1 {
            tree_config,
            leaf_owner,
            leaf_delegate,
            merkle_tree,
            owner,
            payer,
            metadata,
        } => mint_v1_instruction(
            tree_config,
            leaf_owner,
            leaf_delegate,
            merkle_tree,
            owner,
            payer,
            metadata_for_program(metadata),
        ),
        BubblegumCall::Transfer {
            tree_config,
            leaf_owner,
            leaf_owner_signs,
            leaf_delegate,
            leaf_delegate_signs,
            new_leaf_owner,
            merkle_tree,
            root,
            data_hash,
            creator_hash,
            nonce,
            index,
        } => transfer_instruction(
            tree_config,
            leaf_owner,
            *leaf_owner_signs,
            leaf_delegate,
            *leaf_delegate_signs,
            new_leaf_owner,
            merkle_tree,
            *root,
            *data_hash,
            *creator_hash,
            *nonce,
            *index,
        ),
    }
}

/// Latest network state. No network is reached: the zero hash stands in.
fn get_recent_blockhash() -> (r: Result<[u8; 32], BubblegumError>)
    ensures
        r is Ok,
        r->Ok_0@ == zero_bytes(32),
{
    let h = [0u8; 32];
    assert(h@ =~= zero_bytes(32));
    Ok(h)
}

/// Submits a transaction. No network is reached: the zero signature stands
/// in for the one the ledger would report.
fn send_transaction(_transaction: &Transaction) -> (r: Result<TxSignature, BubblegumError>)
    ensures
        r is Ok,
        r->Ok_0.bytes@ == zero_bytes(64),
{
    let s = TxSignature { bytes: [0u8; 64] };
    assert(s.bytes@ =~= zero_bytes(64));
    Ok(s)
}

/// What a successful submission of `call`, paid by `payer`, hands back.
pub open spec fn submitted(
    r: (SignedTransaction, TxSignature),
    call: BubblegumCall,
    payer: PublicKey,
) -> bool {
    &&& r.0.call == call
    &&& r.0.payer == payer
    &&& r.0.signers@ == seq![payer]
    &&& r.0.recent_blockhash@ == zero_bytes(32)
    &&& r.1.bytes@ == zero_bytes(64)
}

/// Fetches the network state, signs `call` with its fee payer and submits it.
fn submit(call: BubblegumCall, payer: &Keypair, payer_key: PublicKey) -> (r: Result<
    (SignedTransaction, TxSignature),
    BubblegumError,
>)
    ensures
        r is Ok,
        submitted(r->Ok_0, call, payer_key),
{
    let ix = outside_instruction(&call);
    let recent_blockhash = match get_recent_blockhash() {
        Ok(h) => h,
        Err(e) => return Err(BubblegumError::NetworkError(e.to_text())),
    };
    let transaction = signed_by_fee_payer(ix, payer, &recent_blockhash);
    let signers = vec![payer_key];
    assert(signers@ =~= seq![payer_key]);
    match send_transaction(&transaction) {
        Ok(signature) => Ok(
            (SignedTransaction { call, payer: payer_key, signers, recent_blockhash, transaction }, signature),
        ),
        Err(e) => Err(BubblegumError::TransactionError(e.to_text())),
    }
}

/// Creates the configuration of a fresh tree whose creator is `authority`.
/// The payer and the tree are fresh keypairs, and the payer alone signs:
/// the bubblegum program does not take the tree as a signer of this call
/// (signing with the tree keypair would be refused), and it requires the
/// authority's signature, which is left for the authority to add.
pub fn create_tree_config_ix(max_depth: i32, max_buffer_size: u32, authority: PublicKey) -> (r:
    Result<(SignedTransaction, TxSignature), BubblegumError>)
    ensures
        max_depth < 0 <==> r is Err,
        r is Err ==> r->Err_0 is InvalidInstruction && r->Err_0.detail_spec() == negative_depth_text(),
        r is Ok ==> {
            let (t, s) = r->Ok_0;
            &&& create_tree_spec(t.call, max_depth, max_buffer_size, authority, t.payer, t.call->CreateTree_merkle_tree)
            &&& t.call.accounts() == seq![
                t.call->CreateTree_tree_config.bytes@,
                t.call->CreateTree_merkle_tree.bytes@,
                authority.bytes@,
            ]
            &&& t.call.required_signers() == seq![t.payer.bytes@, authority.bytes@]
            &&& submitted((t, s), t.call, t.payer)
        },
{
    let payer = new_keypair();
    let merkle_tree = new_keypair();
    let payer_key = keypair_address(&payer);
    let tree_key = keypair_address(&merkle_tree);
    let call = create_tree_call(max_depth, max_buffer_size, authority, payer_key, tree_key)?;
    submit(call, &payer, payer_key)
}

/// Mints a compressed asset into the tree `collection` for `recipient`. A
/// fresh payer signs and is recorded as the asset's one creator; the program
/// also requires the recipient's signature (as tree creator or delegate),
/// which is left for the recipient to add.
pub fn mint_v1_ix(
    name: String,
    symbol: String,
    uri: String,
    collection: PublicKey,
    recipient: PublicKey,
) -> (r: Result<(SignedTransaction, TxSignature), BubblegumError>)
    ensures
        r is Ok,
        ({
            let (t, s) = r->Ok_0;
            &&& mint_spec(t.call, name@, symbol@, uri@, collection, recipient, t.payer)
            &&& t.call.required_signers() == seq![t.payer.bytes@, recipient.bytes@]
            &&& submitted((t, s), t.call, t.payer)
        }),
{
    let payer = new_keypair();
    let payer_key = keypair_address(&payer);
    let call = mint_call(name, symbol, uri, collection, recipient, payer_key);
    submit(call, &payer, payer_key)
}

/// Transfers the asset `asset_id` from `owner` to `recipient`. The asset is
/// not looked up: the call names a fresh tree address and the default leaf
/// state, and a fresh payer signs.
pub fn transfer_ix(asset_id: String, owner: PublicKey, recipient: PublicKey) -> (r: Result<
    (SignedTransaction, TxSignature),
    BubblegumError,
>)
    ensures
        r is Ok,
        ({
            let (t, s) = r->Ok_0;
            &&& transfer_spec(t.call, owner, recipient, t.call->Transfer_merkle_tree)
            &&& t.call.required_signers().len() == 0
            &&& submitted((t, s), t.call, t.payer)
        }),
{
    let payer = new_keypair();
    let payer_key = keypair_address(&payer);
    let merkle_tree = unique_address();
    let call = transfer_call(owner, recipient, merkle_tree);
    submit(call, &payer, payer_key)
}

} // verus!
