//! Addresses and signatures as plain bytes, and the parsing, encoding and
//! derivation that the ledger SDK performs on them.
use crate::error::BubblegumError;
use solana_sdk::pubkey::Pubkey;
use solana_sdk::signature::{Keypair, Signature};
use solana_sdk::signer::Signer;
use std::str::FromStr;
use vstd::prelude::*;

verus! {

/// A 32-byte ledger address.
#[derive(Debug, Clone, Copy)]
pub struct PublicKey {
    pub bytes: [u8; 32],
}

/// A 64-byte transaction signature.
#[derive(Debug, Clone, Copy)]
pub struct TxSignature {
    pub bytes: [u8; 64],
}

/// The bytes that an address text stands for, if it is a well-formed one.
pub uninterp spec fn address_bytes(text: Seq<char>) -> Option<Seq<u8>>;

/// The explanation the address parser gives for refusing a text.
pub uninterp spec fn parse_error_text(text: Seq<char>) -> Seq<char>;

/// The base58 text of a byte string.
pub uninterp spec fn base58_text(bytes: Seq<u8>) -> Seq<char>;

/// The configuration address that the bubblegum program derives for a tree.
pub uninterp spec fn tree_config_pda(tree: Seq<u8>) -> Seq<u8>;

/// A character of the base58 alphabet.
pub open spec fn is_base58_char(c: char) -> bool {
    ('1' <= c && c <= '9') || ('A' <= c && c <= 'Z' && c != 'I' && c != 'O') || ('a' <= c
        && c <= 'z' && c != 'l')
}

/// Whether `text` is a well-formed address.
pub open spec fn is_address(text: Seq<char>) -> bool {
    address_bytes(text) is Some
}

pub open spec fn zero_bytes(n: nat) -> Seq<u8> {
    Seq::new(n, |i: int| 0u8)
}

#[verifier::external_type_specification]
#[verifier::external_body]
pub struct ExKeypair(Keypair);

/// Relies on solana-sdk's `Pubkey::from_str`: it accepts exactly the base58
/// texts of 32 bytes, and refuses any text longer than 44 characters or
/// holding a character outside the base58 alphabet; a refusal carries the
/// parser's error text, which depends on the text alone.
#[verifier::external_body]
fn parse_address(text: &str) -> (r: Result<PublicKey, String>)
    ensures
        match r {
            Ok(k) => address_bytes(text@) == Some(k.bytes@),
            Err(e) => address_bytes(text@) is None && e@ == parse_error_text(text@),
        },
        text@.len() > 44 ==> r is Err,
        (exists|i: int| 0 <= i < text@.len() && !is_base58_char(#[trigger] text@[i])) ==> r is Err,
{
    match Pubkey::from_str(text) {
        Ok(k) => Ok(PublicKey { bytes: k.to_bytes() }),
        Err(e) => Err(e.to_string()),
    }
}

/// Relies on the `Display` of solana-sdk's `Signature` (base58 through
/// bs58): each leading zero byte becomes a '1'.
#[verifier::external_body]
pub(crate) fn signature_text(sig: &TxSignature) -> (r: String)
    ensures
        r@ == base58_text(sig.bytes@),
        sig.bytes@ == zero_bytes(64) ==> r@ == Seq::new(64, |i: int| '1'),
{
    Signature::from(sig.bytes).to_string()
}

/// Relies on mpl-bubblegum's `TreeConfig::find_pda`, a program-derived
/// address that depends on the tree address alone. (It would panic only if
/// no bump seed gave an off-curve address, which the search makes
/// negligible.)
#[verifier::external_body]
pub fn tree_config_address(tree: &PublicKey) -> (r: PublicKey)
    ensures
        r.bytes@ == tree_config_pda(tree.bytes@),
{
    PublicKey { bytes: mpl_bubblegum::accounts::TreeConfig::find_pda(&Pubkey::new_from_array(tree.bytes)).0.to_bytes() }
}

/// Relies on solana-sdk's `Keypair::new`: a fresh random keypair.
#[verifier::external_body]
pub(crate) fn new_keypair() -> (r: Keypair) {
    Keypair::new()
}

/// Relies on solana-sdk's `Signer::pubkey` for a keypair: its public half.
#[verifier::external_body]
pub(crate) fn keypair_address(k: &Keypair) -> (r: PublicKey) {
    PublicKey { bytes: k.pubkey().to_bytes() }
}

/// Relies on solana-program's `Pubkey::new_unique`: an address not handed
/// out before in this process.
#[verifier::external_body]
pub(crate) fn unique_address() -> (r: PublicKey) {
    PublicKey { bytes: Pubkey::new_unique().to_bytes() }
}

/// Parses an address text; a malformed one is refused with
/// `InvalidPublicKey`, carrying the parser's explanation.
pub fn validate(text: &str) -> (r: Result<PublicKey, BubblegumError>)
    ensures
        match r {
            Ok(k) => address_bytes(text@) == Some(k.bytes@),
            Err(e) => !is_address(text@) && e is InvalidPublicKey
                && e.detail_spec() == parse_error_text(text@),
        },
        !is_address(text@) ==> r is Err,
        text@.len() > 44 ==> r is Err,
        (exists|i: int| 0 <= i < text@.len() && !is_base58_char(#[trigger] text@[i])) ==> r is Err,
{
    match parse_address(text) {
        Ok(k) => Ok(k),
        Err(reason) => Err(BubblegumError::InvalidPublicKey(reason)),
    }
}

} // verus!
