use std::str::FromStr;
use bubblegum_nif::boundary::{cache_unavailable, clear_cache, create_tree_config, mint_v1, transfer};
use bubblegum_nif::cache::CacheStore;
use bubblegum_nif::error::BubblegumError;
use bubblegum_nif::instructions::{
    create_tree_call, default_leaf, mint_call, transfer_call, BubblegumCall, AssetTokenProgram,
};
use bubblegum_nif::keys::{tree_config_address, validate, PublicKey};
use bubblegum_nif::transaction::{create_tree_config_ix, mint_v1_ix, transfer_ix};

const ZERO_ADDRESS: &str = "11111111111111111111111111111111";

fn key(b: u8) -> PublicKey {
    PublicKey { bytes: [b; 32] }
}

fn ones(n: usize) -> String {
    "1".repeat(n)
}

#[test]
fn error_text_has_kind_prefix() {
    let cases = vec![
        (BubblegumError::InvalidPublicKey("x".to_string()), "Invalid public key: x"),
        (BubblegumError::TransactionError("x".to_string()), "Transaction error: x"),
        (BubblegumError::NetworkError("x".to_string()), "Network error: x"),
        (BubblegumError::SerializationError("x".to_string()), "Serialization error: x"),
        (BubblegumError::RpcError("x".to_string()), "RPC error: x"),
        (BubblegumError::CacheError("x".to_string()), "Cache error: x"),
        (BubblegumError::InvalidInstruction("x".to_string()), "Invalid instruction: x"),
        (BubblegumError::MerkleTreeError("x".to_string()), "Merkle tree error: x"),
        (BubblegumError::InvalidMetadata("x".to_string()), "Invalid metadata: x"),
        (BubblegumError::InvalidTransfer("x".to_string()), "Invalid transfer: x"),
    ];
    for (e, text) in cases {
        assert_eq!(e.to_text(), text);
    }
}

#[test]
fn validate_accepts_zero_address() {
    let k = validate(ZERO_ADDRESS).unwrap();
    assert_eq!(k.bytes, [0u8; 32]);
}

#[test]
fn validate_refuses_malformed_text() {
    for text in ["not-a-key", "", "0OIl", "1111111111111111111111111111111111111111111111111", "111"] {
        match validate(text) {
            Err(BubblegumError::InvalidPublicKey(m)) => assert!(!m.is_empty()),
            other => panic!("unexpected {:?}", other),
        }
    }
}

#[test]
fn create_tree_config_zero_authority_succeeds() {
    let r = create_tree_config(14, 64, ZERO_ADDRESS).unwrap();
    assert!(!r.is_empty());
    assert_eq!(r, ones(64));
}

#[test]
fn create_tree_config_bad_authority_fails() {
    let e = create_tree_config(14, 64, "not-a-key").unwrap_err();
    assert!(e.starts_with("Invalid public key:"));
}

#[test]
fn create_tree_config_negative_depth_fails() {
    let e = create_tree_config(-1, 64, ZERO_ADDRESS).unwrap_err();
    assert_eq!(e, "Invalid instruction: Invalid instruction: max_depth must not be negative");
}

#[test]
fn tree_config_address_is_derived_and_stable() {
    let a = tree_config_address(&key(7));
    assert_eq!(a.bytes, tree_config_address(&key(7)).bytes);
    assert_ne!(a.bytes, key(7).bytes);
    assert_ne!(a.bytes, tree_config_address(&key(8)).bytes);
}

#[test]
fn create_tree_call_lists_three_accounts() {
    let call = create_tree_call(14, 64, key(3), key(1), key(2)).unwrap();
    let accounts: Vec<[u8; 32]> = call.account_list().iter().map(|k| k.bytes).collect();
    assert_eq!(accounts, vec![tree_config_address(&key(2)).bytes, key(2).bytes, key(3).bytes]);
    match call {
        BubblegumCall::CreateTree { max_depth, max_buffer_size, public, payer, .. } => {
            assert_eq!(max_depth, 14);
            assert_eq!(max_buffer_size, 64);
            assert!(public);
            assert_eq!(payer.bytes, key(1).bytes);
        }
        _ => panic!("wrong call"),
    }
}

#[test]
fn create_tree_config_ix_echoes_arguments() {
    let (t, s) = create_tree_config_ix(20, 1024, key(9)).unwrap();
    assert_eq!(s.bytes, [0u8; 64]);
    assert_eq!(t.recent_blockhash, [0u8; 32]);
    let accounts: Vec<[u8; 32]> = t.call.account_list().iter().map(|k| k.bytes).collect();
    assert_eq!(accounts.len(), 3);
    assert_eq!(accounts[2], key(9).bytes);
    assert_eq!(accounts[0], tree_config_address(&PublicKey { bytes: accounts[1] }).bytes);
    match t.call {
        BubblegumCall::CreateTree { max_depth, max_buffer_size, .. } => {
            assert_eq!(max_depth, 20);
            assert_eq!(max_buffer_size, 1024);
        }
        _ => panic!("wrong call"),
    }
    assert_eq!(t.transaction.message.account_keys[0].to_bytes(), t.payer.bytes);
}

#[test]
fn mint_records_payer_as_sole_creator() {
    let (t, _) = mint_v1_ix("N".to_string(), "S".to_string(), "u".to_string(), key(4), key(5)).unwrap();
    match t.call {
        BubblegumCall::MintV1 { metadata, leaf_owner, leaf_delegate, merkle_tree, tree_config, .. } => {
            assert_eq!(metadata.creators.len(), 1);
            assert_eq!(metadata.creators[0].share, 100);
            assert!(metadata.creators[0].verified);
            assert_eq!(metadata.creators[0].address.bytes, t.payer.bytes);
            assert_ne!(metadata.creators[0].address.bytes, key(5).bytes);
            assert_eq!(metadata.name, "N");
            assert!(metadata.is_mutable && !metadata.primary_sale_happened);
            assert!(matches!(metadata.token_program_version, AssetTokenProgram::Original));
            assert!(metadata.token_standard.is_none());
            assert!(metadata.uses.is_none());
            assert!(metadata.edition_nonce.is_none());
            assert_eq!(metadata.seller_fee_basis_points, 0);
            let c = metadata.collection.unwrap();
            assert!(!c.verified);
            assert_eq!(c.key.bytes, key(4).bytes);
            assert_eq!(leaf_owner.bytes, key(5).bytes);
            assert_eq!(leaf_delegate.bytes, key(5).bytes);
            assert_eq!(merkle_tree.bytes, key(4).bytes);
            assert_eq!(tree_config.bytes, tree_config_address(&key(4)).bytes);
        }
        _ => panic!("wrong call"),
    }
}

#[test]
fn mint_call_for_any_recipient_has_one_creator() {
    for r in [0u8, 5, 255] {
        match mint_call("a".to_string(), "b".to_string(), "c".to_string(), key(1), key(r), key(2)) {
            BubblegumCall::MintV1 { metadata, .. } => {
                assert_eq!(metadata.creators.len(), 1);
                assert_eq!(metadata.creators[0].share, 100);
                assert_eq!(metadata.creators[0].address.bytes, key(2).bytes);
            }
            _ => panic!("wrong call"),
        }
    }
}

#[test]
fn transfer_uses_zero_leaf_state() {
    let (t, s) = transfer_ix("asset".to_string(), key(6), key(7)).unwrap();
    assert_eq!(s.bytes, [0u8; 64]);
    match t.call {
        BubblegumCall::Transfer { root, data_hash, creator_hash, nonce, index, leaf_owner, leaf_delegate, new_leaf_owner, .. } => {
            assert_eq!(root, [0u8; 32]);
            assert_eq!(data_hash, [0u8; 32]);
            assert_eq!(creator_hash, [0u8; 32]);
            assert_eq!(nonce, 0);
            assert_eq!(index, 0);
            assert_eq!(leaf_owner.bytes, key(6).bytes);
            assert_eq!(leaf_delegate.bytes, key(6).bytes);
            assert_eq!(new_leaf_owner.bytes, key(7).bytes);
        }
        _ => panic!("wrong call"),
    }
}

#[test]
fn transfer_call_accounts_in_order() {
    let call = transfer_call(key(1), key(2), key(3));
    let accounts: Vec<[u8; 32]> = call.account_list().iter().map(|k| k.bytes).collect();
    assert_eq!(
        accounts,
        vec![tree_config_address(&key(3)).bytes, key(1).bytes, key(1).bytes, key(2).bytes, key(3).bytes]
    );
}

#[test]
fn default_leaf_is_zeroed() {
    let l = default_leaf(key(9));
    assert_eq!(l.owner.bytes, key(9).bytes);
    assert_eq!(l.delegate.bytes, key(9).bytes);
    assert_eq!(l.nonce, 0);
    assert_eq!(l.data_hash, [0u8; 32]);
    assert_eq!(l.creator_hash, [0u8; 32]);
}

#[test]
fn boundary_mint_and_transfer() {
    assert_eq!(mint_v1("n".to_string(), "s".to_string(), "u".to_string(), ZERO_ADDRESS, ZERO_ADDRESS).unwrap(), ones(64));
    assert!(mint_v1("n".to_string(), "s".to_string(), "u".to_string(), "bad", ZERO_ADDRESS).unwrap_err().starts_with("Invalid public key: "));
    assert!(mint_v1("n".to_string(), "s".to_string(), "u".to_string(), ZERO_ADDRESS, "bad!").unwrap_err().starts_with("Invalid public key: "));
    assert_eq!(transfer("a".to_string(), ZERO_ADDRESS, ZERO_ADDRESS).unwrap(), ones(64));
    assert!(transfer("a".to_string(), "0", ZERO_ADDRESS).unwrap_err().starts_with("Invalid public key: "));
}

#[test]
fn cache_put_get_replace() {
    let mut c = CacheStore::new(100);
    assert_eq!(c.put("k".to_string(), "v".to_string(), 60), None);
    assert_eq!(c.get(&"k".to_string()), Some("v".to_string()));
    assert_eq!(c.put("k".to_string(), "w".to_string(), 60), Some("v".to_string()));
    assert_eq!(c.get(&"k".to_string()), Some("w".to_string()));
    assert_eq!(c.get(&"other".to_string()), None);
}

#[test]
fn cache_evicts_oldest_when_full() {
    let mut c = CacheStore::new(2);
    c.put("a".to_string(), "1".to_string(), 60);
    c.put("b".to_string(), "2".to_string(), 60);
    c.put("c".to_string(), "3".to_string(), 60);
    assert_eq!(c.get(&"a".to_string()), None);
    assert_eq!(c.get(&"b".to_string()), Some("2".to_string()));
    assert_eq!(c.get(&"c".to_string()), Some("3".to_string()));
}

#[test]
fn cache_expired_entry_is_absent() {
    let mut c = CacheStore::new(10);
    c.put("k".to_string(), "v".to_string(), 0);
    assert_eq!(c.get(&"k".to_string()), None);
}

#[test]
fn clear_then_lookup_finds_nothing() {
    let mut c = CacheStore::new(100);
    for i in 0..10 {
        c.put(format!("k{}", i), format!("v{}", i), 60);
    }
    assert_eq!(clear_cache(&mut c).unwrap(), "Cache cleared successfully");
    for i in 0..10 {
        assert_eq!(c.get(&format!("k{}", i)), None);
    }
    assert_eq!(clear_cache(&mut c).unwrap(), "Cache cleared successfully");
}

#[test]
fn cache_unavailable_text() {
    assert_eq!(cache_unavailable(), "Cache error: Failed to clear cache");
}

fn parser_text(s: &str) -> String {
    solana_sdk::pubkey::Pubkey::from_str(s).unwrap_err().to_string()
}

#[test]
fn invalid_key_carries_parser_text() {
    match validate("not-a-key") {
        Err(BubblegumError::InvalidPublicKey(m)) => assert_eq!(m, parser_text("not-a-key")),
        other => panic!("unexpected {:?}", other),
    }
    assert_eq!(create_tree_config(14, 64, "not-a-key").unwrap_err(), format!("Invalid public key: {}", parser_text("not-a-key")));
}

#[test]
fn first_bad_address_decides_the_text() {
    let long = "1".repeat(50);
    let e = mint_v1("n".to_string(), "s".to_string(), "u".to_string(), "bad!", &long).unwrap_err();
    assert_eq!(e, format!("Invalid public key: {}", parser_text("bad!")));
    let e = mint_v1("n".to_string(), "s".to_string(), "u".to_string(), ZERO_ADDRESS, &long).unwrap_err();
    assert_eq!(e, format!("Invalid public key: {}", parser_text(&long)));
    let e = transfer("".to_string(), &long, "bad!").unwrap_err();
    assert_eq!(e, format!("Invalid public key: {}", parser_text(&long)));
    let e = transfer("".to_string(), ZERO_ADDRESS, "bad!").unwrap_err();
    assert_eq!(e, format!("Invalid public key: {}", parser_text("bad!")));
}

#[test]
fn transfer_ignores_asset_id() {
    assert_eq!(transfer("".to_string(), ZERO_ADDRESS, ZERO_ADDRESS).unwrap(), ones(64));
    assert_eq!(transfer("not base58 !".to_string(), ZERO_ADDRESS, ZERO_ADDRESS).unwrap(), ones(64));
}

#[test]
fn clear_keeps_capacity() {
    let mut c = CacheStore::new(1);
    clear_cache(&mut c).unwrap();
    c.put("a".to_string(), "1".to_string(), 60);
    c.put("b".to_string(), "2".to_string(), 60);
    assert_eq!(c.get(&"a".to_string()), None);
    assert_eq!(c.get(&"b".to_string()), Some("2".to_string()));
}

#[test]
fn cache_accepts_longest_lifetime() {
    let mut c = CacheStore::new(4);
    c.put("k".to_string(), "v".to_string(), bubblegum_nif::cache::MAX_TTL_SECS);
    assert_eq!(c.get(&"k".to_string()), Some("v".to_string()));
}
