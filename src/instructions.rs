//! The program calls that the library builds, modelled as plain values:
//! accounts, arguments, asset metadata and leaf state.
use crate::error::BubblegumError;
use crate::keys::{tree_config_address, tree_config_pda, PublicKey};
use vstd::prelude::*;

verus! {

/// One creator of an asset and its share of royalties, in percent.
#[derive(Debug, Clone, Copy)]
pub struct Creator {
    pub address: PublicKey,
    pub verified: bool,
    pub share: u8,
}

/// The collection an asset claims to belong to.
#[derive(Debug, Clone, Copy)]
pub struct CollectionRef {
    pub key: PublicKey,
    pub verified: bool,
}

/// Which token program an asset is meant for.
#[derive(Debug, Clone, Copy)]
pub enum AssetTokenProgram {
    Original,
    Token2022,
}

/// The token standard an asset declares.
#[derive(Debug, Clone, Copy)]
pub enum AssetTokenStandard {
    NonFungible,
    FungibleAsset,
    Fungible,
    NonFungibleEdition,
}

/// How the uses of an asset are spent.
#[derive(Debug, Clone, Copy)]
pub enum AssetUseMethod {
    Burn,
    Multiple,
    Single,
}

/// A limited number of uses of an asset.
#[derive(Debug, Clone, Copy)]
pub struct AssetUses {
    pub use_method: AssetUseMethod,
    pub remaining: u64,
    pub total: u64,
}

/// Descriptor of a compressed asset, as it is written into its leaf.
#[derive(Debug)]
pub struct AssetMetadata {
    pub name: String,
    pub symbol: String,
    pub uri: String,
    pub seller_fee_basis_points: u16,
    pub primary_sale_happened: bool,
    pub is_mutable: bool,
    pub edition_nonce: Option<u8>,
    pub token_standard: Option<AssetTokenStandard>,
    pub collection: Option<CollectionRef>,
    pub uses: Option<AssetUses>,
    pub token_program_version: AssetTokenProgram,
    pub creators: Vec<Creator>,
}

/// The state of one leaf of a tree.
#[derive(Debug, Clone, Copy)]
pub struct Leaf {
    pub owner: PublicKey,
    pub delegate: PublicKey,
    pub nonce: u64,
    pub data_hash: [u8; 32],
    pub creator_hash: [u8; 32],
}

/// A call of the bubblegum program, with the accounts and arguments that
/// its instruction carries.
#[derive(Debug)]
pub enum BubblegumCall {
    CreateTree {
        tree_config: PublicKey,
        merkle_tree: PublicKey,
        tree_creator: PublicKey,
        payer: PublicKey,
        max_depth: u32,
        max_buffer_size: u32,
        public: bool,
    },
    MintV1 {
        tree_config: PublicKey,
        leaf_owner: PublicKey,
        leaf_delegate: PublicKey,
        merkle_tree: PublicKey,
        owner: PublicKey,
        payer: PublicKey,
        metadata: AssetMetadata,
    },
    Transfer {
        tree_config: PublicKey,
        leaf_owner: PublicKey,
        leaf_owner_signs: bool,
        leaf_delegate: PublicKey,
        leaf_delegate_signs: bool,
        new_leaf_owner: PublicKey,
        merkle_tree: PublicKey,
        root: [u8; 32],
        data_hash: [u8; 32],
        creator_hash: [u8; 32],
        nonce: u64,
        index: u32,
    },
}

impl BubblegumCall {
    /// The accounts that the program requires to sign the call, besides the
    /// fee payer of the transaction.
    pub open spec fn required_signers(&self) -> Seq<Seq<u8>> {
        match self {
            BubblegumCall::CreateTree { payer, tree_creator, .. } => seq![payer.bytes@, tree_creator.bytes@],
            BubblegumCall::MintV1 { payer, owner, .. } => seq![payer.bytes@, owner.bytes@],
            BubblegumCall::Transfer { leaf_owner, leaf_delegate, .. } => (if self->Transfer_leaf_owner_signs {
                seq![leaf_owner.bytes@]
            } else {
                Seq::empty()
            }) + (if self->Transfer_leaf_delegate_signs {
                seq![leaf_delegate.bytes@]
            } else {
                Seq::empty()
            }),
        }
    }

    /// A model of the call's account list: the tree-related accounts it
    /// names, in order. The built instruction also carries the payer and
    /// the program accounts (log wrapper, compression, system).
    pub open spec fn accounts(&self) -> Seq<Seq<u8>> {
        match self {
            BubblegumCall::CreateTree { tree_config, merkle_tree, tree_creator, .. } => seq![
                tree_config.bytes@,
                merkle_tree.bytes@,
                tree_creator.bytes@,
            ],
            BubblegumCall::MintV1 { tree_config, leaf_owner, leaf_delegate, merkle_tree, owner, .. } =>
                seq![
                tree_config.bytes@,
                leaf_owner.bytes@,
                leaf_delegate.bytes@,
                merkle_tree.bytes@,
                owner.bytes@,
            ],
            BubblegumCall::Transfer {
                tree_config,
                leaf_owner,
                leaf_delegate,
                new_leaf_owner,
                merkle_tree,
                ..
            } => seq![
                tree_config.bytes@,
                leaf_owner.bytes@,
                leaf_delegate.bytes@,
                new_leaf_owner.bytes@,
                merkle_tree.bytes@,
            ],
        }
    }

    /// The accounts that the call names, as executable values.
    pub fn account_list(&self) -> (r: Vec<PublicKey>)
        ensures
            r@.map_values(|k: PublicKey| k.bytes@) == self.accounts(),
    {
        let r = match self {
            BubblegumCall::CreateTree { tree_config, merkle_tree, tree_creator, .. } => vec![
                *tree_config,
                *merkle_tree,
                *tree_creator,
            ],
            BubblegumCall::MintV1 { tree_config, leaf_owner, leaf_delegate, merkle_tree, owner, .. } =>
                vec![*tree_config, *leaf_owner, *leaf_delegate, *merkle_tree, *owner],
            BubblegumCall::Transfer {
                tree_config,
                leaf_owner,
                leaf_delegate,
                new_leaf_owner,
                merkle_tree,
                ..
            } => vec![*tree_config, *leaf_owner, *leaf_delegate, *new_leaf_owner, *merkle_tree],
        };
        assert(r@.map_values(|k: PublicKey| k.bytes@) =~= self.accounts());
        r
    }
}

/// The metadata of a fresh mint: the payer is its one verified creator with
/// the whole share, the collection is named but unverified, and the asset
/// stays mutable.
pub open spec fn mint_metadata_spec(
    m: AssetMetadata,
    name: Seq<char>,
    symbol: Seq<char>,
    uri: Seq<char>,
    collection: PublicKey,
    payer: PublicKey,
) -> bool {
    &&& m.name@ == name
    &&& m.symbol@ == symbol
    &&& m.uri@ == uri
    &&& m.seller_fee_basis_points == 0
    &&& !m.primary_sale_happened
    &&& m.is_mutable
    &&& m.edition_nonce is None
    &&& m.token_standard is None
    &&& m.uses is None
    &&& m.collection == Some(CollectionRef { key: collection, verified: false })
    &&& m.token_program_version == AssetTokenProgram::Original
    &&& m.creators@ == seq![Creator { address: payer, verified: true, share: 100 }]
}

/// The call that sets up the configuration of a new tree.
pub open spec fn create_tree_spec(
    c: BubblegumCall,
    max_depth: i32,
    max_buffer_size: u32,
    authority: PublicKey,
    payer: PublicKey,
    merkle_tree: PublicKey,
) -> bool {
    &&& c matches BubblegumCall::CreateTree { .. }
    &&& c->CreateTree_tree_config.bytes@ == tree_config_pda(merkle_tree.bytes@)
    &&& c->CreateTree_merkle_tree == merkle_tree
    &&& c->CreateTree_tree_creator == authority
    &&& c->CreateTree_payer == payer
    &&& c->CreateTree_max_depth as int == max_depth as int
    &&& c->CreateTree_max_buffer_size == max_buffer_size
    &&& c->CreateTree_public
}

/// The detail of the refusal of a negative depth.
pub open spec fn negative_depth_text() -> Seq<char> {
    "max_depth must not be negative"@
}

/// Builds the tree-configuration call. A negative depth cannot be handed to
/// the program and is refused.
pub fn create_tree_call(
    max_depth: i32,
    max_buffer_size: u32,
    authority: PublicKey,
    payer: PublicKey,
    merkle_tree: PublicKey,
) -> (r: Result<BubblegumCall, BubblegumError>)
    ensures
        max_depth < 0 <==> r is Err,
        r is Err ==> r->Err_0 is InvalidInstruction && r->Err_0.detail_spec() == negative_depth_text(),
        r is Ok ==> create_tree_spec(r->Ok_0, max_depth, max_buffer_size, authority, payer, merkle_tree),
{
    if max_depth < 0 {
        return Err(BubblegumError::InvalidInstruction(String::from_str("max_depth must not be negative")));
    }
    let tree_config = tree_config_address(&merkle_tree);
    Ok(BubblegumCall::CreateTree {
        tree_config,
        merkle_tree,
        tree_creator: authority,
        payer,
        max_depth: max_depth as u32,
        max_buffer_size,
        public: true,
    })
}

/// The mint call: the recipient owns and delegates the new leaf, and the
/// collection address is the tree it is minted into.
pub open spec fn mint_spec(
    c: BubblegumCall,
    name: Seq<char>,
    symbol: Seq<char>,
    uri: Seq<char>,
    collection: PublicKey,
    recipient: PublicKey,
    payer: PublicKey,
) -> bool {
    &&& c matches BubblegumCall::MintV1 { .. }
    &&& c->MintV1_tree_config.bytes@ == tree_config_pda(collection.bytes@)
    &&& c->MintV1_leaf_owner == recipient
    &&& c->MintV1_leaf_delegate == recipient
    &&& c->MintV1_merkle_tree == collection
    &&& c->MintV1_owner == recipient
    &&& c->MintV1_payer == payer
    &&& mint_metadata_spec(c->MintV1_metadata, name, symbol, uri, collection, payer)
}

/// Builds the mint call for a new asset.
pub fn mint_call(
    name: String,
    symbol: String,
    uri: String,
    collection: PublicKey,
    recipient: PublicKey,
    payer: PublicKey,
) -> (r: BubblegumCall)
    ensures
        mint_spec(r, name@, symbol@, uri@, collection, recipient, payer),
{
    let tree_config = tree_config_address(&collection);
    let metadata = AssetMetadata {
        name,
        symbol,
        uri,
        seller_fee_basis_points: 0,
        primary_sale_happened: false,
        is_mutable: true,
        edition_nonce: None,
        token_standard: None,
        uses: None,
        collection: Some(CollectionRef { key: collection, verified: false }),
        token_program_version: AssetTokenProgram::Original,
        creators: vec![Creator { address: payer, verified: true, share: 100 }],
    };
    assert(metadata.creators@ =~= seq![Creator { address: payer, verified: true, share: 100 }]);
    BubblegumCall::MintV1 {
        tree_config,
        leaf_owner: recipient,
        leaf_delegate: recipient,
        merkle_tree: collection,
        owner: recipient,
        payer,
        metadata,
    }
}

/// The transfer call: the owner is both leaf owner and delegate, neither of
/// them asked to sign (the payer alone signs), and the
/// leaf state is the default one (zero root, hashes, nonce and index).
pub open spec fn transfer_spec(
    c: BubblegumCall,
    owner: PublicKey,
    recipient: PublicKey,
    merkle_tree: PublicKey,
) -> bool {
    &&& c matches BubblegumCall::Transfer { .. }
    &&& c->Transfer_tree_config.bytes@ == tree_config_pda(merkle_tree.bytes@)
    &&& c->Transfer_leaf_owner == owner
    &&& c->Transfer_leaf_delegate == owner
    &&& !c->Transfer_leaf_owner_signs
    &&& !c->Transfer_leaf_delegate_signs
    &&& c->Transfer_new_leaf_owner == recipient
    &&& c->Transfer_merkle_tree == merkle_tree
    &&& c->Transfer_root@ == Seq::new(32, |i: int| 0u8)
    &&& c->Transfer_data_hash@ == Seq::new(32, |i: int| 0u8)
    &&& c->Transfer_creator_hash@ == Seq::new(32, |i: int| 0u8)
    &&& c->Transfer_nonce == 0
    &&& c->Transfer_index == 0
}

/// The leaf that a transfer speaks of: owned and delegated by `owner`, with
/// nonce zero and zero hashes.
pub fn default_leaf(owner: PublicKey) -> (r: Leaf)
    ensures
        r.owner == owner,
        r.delegate == owner,
        r.nonce == 0,
        r.data_hash@ == Seq::new(32, |i: int| 0u8),
        r.creator_hash@ == Seq::new(32, |i: int| 0u8),
{
    let r = Leaf { owner, delegate: owner, nonce: 0, data_hash: [0u8; 32], creator_hash: [0u8; 32] };
    assert(r.data_hash@ =~= Seq::new(32, |i: int| 0u8));
    assert(r.creator_hash@ =~= Seq::new(32, |i: int| 0u8));
    r
}

/// Builds the transfer call of the leaf owned by `owner` in `merkle_tree`.
pub fn transfer_call(owner: PublicKey, recipient: PublicKey, merkle_tree: PublicKey) -> (r:
    BubblegumCall)
    ensures
        transfer_spec(r, owner, recipient, merkle_tree),
{
    let tree_config = tree_config_address(&merkle_tree);
    let leaf = default_leaf(owner);
    let root = [0u8; 32];
    assert(root@ =~= Seq::new(32, |i: int| 0u8));
    BubblegumCall::Transfer {
        tree_config,
        leaf_owner: owner,
        leaf_owner_signs: false,
        leaf_delegate: leaf.delegate,
        leaf_delegate_signs: false,
        new_leaf_owner: recipient,
        merkle_tree,
        root,
        data_hash: leaf.data_hash,
        creator_hash: leaf.creator_hash,
        nonce: leaf.nonce,
        index: 0,
    }
}

} // verus!
