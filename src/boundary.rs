//! The four operations offered to the host runtime, on plain strings and
//! integers, with every failure rendered as text.
use crate::cache::{no_entries, CacheStore};
use crate::error::{formatted, BubblegumError};
use crate::keys::{address_bytes, is_address, parse_error_text, signature_text, validate, PublicKey};
use crate::instructions::negative_depth_text;
use crate::transaction::{create_tree_config_ix, mint_v1_ix, transfer_ix};
use vstd::prelude::*;
use vstd::string::StringExecFns;

verus! {

/// The text of the signature that submission reports: 64 zero bytes in
/// base58.
pub open spec fn submitted_signature_text() -> Seq<char> {
    Seq::new(64, |i: int| '1')
}

/// The failure text for a malformed address: the parser's explanation
/// under the invalid-key label.
pub open spec fn invalid_address_text(text: Seq<char>) -> Seq<char> {
    formatted("Invalid public key"@, parse_error_text(text))
}

/// Whether `r` is the failure for the malformed address `text`.
pub open spec fn fails_on_address(r: Result<String, String>, text: Seq<char>) -> bool {
    r is Err && r->Err_0@ == invalid_address_text(text)
}

/// Whether `r` is the signature text of a submitted transaction.
pub open spec fn succeeds(r: Result<String, String>) -> bool {
    r is Ok && r->Ok_0@ == submitted_signature_text()
}

/// The failure text for a negative tree depth, relabelled as an invalid
/// instruction at the boundary.
pub open spec fn negative_depth_failure() -> Seq<char> {
    formatted("Invalid instruction"@, formatted("Invalid instruction"@, negative_depth_text()))
}

/// The text of an error, relabelled as an invalid instruction, as a builder
/// failure leaves the library.
fn builder_failure(e: BubblegumError) -> (r: String)
    ensures
        r@ == formatted("Invalid instruction"@, e.text_spec()),
{
    BubblegumError::InvalidInstruction(e.to_text()).to_text()
}

/// Parses an address text, or gives the failure text that leaves the
/// library when it is malformed.
fn checked_address(text: &str) -> (r: Result<PublicKey, String>)
    ensures
        match r {
            Ok(k) => address_bytes(text@) == Some(k.bytes@),
            Err(t) => !is_address(text@) && t@ == invalid_address_text(text@),
        },
        is_address(text@) <==> r is Ok,
{
    match validate(text) {
        Ok(k) => Ok(k),
        Err(e) => Err(e.to_text()),
    }
}

/// Creates a tree configuration from host arguments and returns the
/// signature text. A malformed authority fails before anything is built.
pub fn create_tree_config(max_depth: i32, max_buffer_size: u32, authority: &str) -> (r: Result<
    String,
    String,
>)
    ensures
        !is_address(authority@) ==> fails_on_address(r, authority@),
        is_address(authority@) && max_depth < 0 ==> r is Err && r->Err_0@ == negative_depth_failure(),
        is_address(authority@) && max_depth >= 0 ==> succeeds(r),
{
    let authority_key = match checked_address(authority) {
        Ok(k) => k,
        Err(t) => return Err(t),
    };
    match create_tree_config_ix(max_depth, max_buffer_size, authority_key) {
        Ok((_transaction, signature)) => Ok(signature_text(&signature)),
        Err(e) => {
            let t = builder_failure(e);
            assert(t@ == formatted("Invalid instruction"@, formatted(e.prefix_spec(), e.detail_spec())));
            Err(t)
        },
    }
}

/// Mints an asset from host arguments and returns the signature text. The
/// collection address is checked first, then the recipient's.
pub fn mint_v1(name: String, symbol: String, uri: String, collection: &str, recipient: &str) -> (r:
    Result<String, String>)
    ensures
        !is_address(collection@) ==> fails_on_address(r, collection@),
        is_address(collection@) && !is_address(recipient@) ==> fails_on_address(r, recipient@),
        is_address(collection@) && is_address(recipient@) ==> succeeds(r),
{
    let collection_key = match checked_address(collection) {
        Ok(k) => k,
        Err(t) => return Err(t),
    };
    let recipient_key = match checked_address(recipient) {
        Ok(k) => k,
        Err(t) => return Err(t),
    };
    match mint_v1_ix(name, symbol, uri, collection_key, recipient_key) {
        Ok((_transaction, signature)) => Ok(signature_text(&signature)),
        Err(e) => {
            let t = builder_failure(e);
            assert(t@ == formatted("Invalid instruction"@, formatted(e.prefix_spec(), e.detail_spec())));
            Err(t)
        },
    }
}

/// Transfers an asset from host arguments and returns the signature text.
/// The owner address is checked first, then the recipient's.
pub fn transfer(asset_id: String, owner: &str, recipient: &str) -> (r: Result<String, String>)
    ensures
        !is_address(owner@) ==> fails_on_address(r, owner@),
        is_address(owner@) && !is_address(recipient@) ==> fails_on_address(r, recipient@),
        is_address(owner@) && is_address(recipient@) ==> succeeds(r),
{
    let owner_key = match checked_address(owner) {
        Ok(k) => k,
        Err(t) => return Err(t),
    };
    let recipient_key = match checked_address(recipient) {
        Ok(k) => k,
        Err(t) => return Err(t),
    };
    match transfer_ix(asset_id, owner_key, recipient_key) {
        Ok((_transaction, signature)) => Ok(signature_text(&signature)),
        Err(e) => {
            let t = builder_failure(e);
            assert(t@ == formatted("Invalid instruction"@, formatted(e.prefix_spec(), e.detail_spec())));
            Err(t)
        },
    }
}

/// Empties the cache and reports it.
pub fn clear_cache(store: &mut CacheStore) -> (r: Result<String, String>)
    ensures
        final(store)@ == no_entries(),
        final(store).capacity() == old(store).capacity(),
        r is Ok,
        r->Ok_0@ == "Cache cleared successfully"@,
{
    store.clear();
    Ok(String::from_str("Cache cleared successfully"))
}

/// The failure text when the cache cannot be reached (its lock is poisoned).
pub fn cache_unavailable() -> (r: String)
    ensures
        r@ == formatted("Cache error"@, "Failed to clear cache"@),
{
    BubblegumError::CacheError(String::from_str("Failed to clear cache")).to_text()
}

} // verus!
