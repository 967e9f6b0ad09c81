//! The error kinds of the library and the text in which each leaves it.
use vstd::prelude::*;
use vstd::string::StringExecFns;

verus! {

/// Text of a failure as it crosses the host boundary: `"<prefix>: <detail>"`.
pub open spec fn formatted(prefix: Seq<char>, detail: Seq<char>) -> Seq<char> {
    prefix + ": "@ + detail
}

/// The failures of this library; each carries a human-readable detail.
#[derive(Debug)]
pub enum BubblegumError {
    InvalidPublicKey(String),
    TransactionError(String),
    NetworkError(String),
    SerializationError(String),
    RpcError(String),
    CacheError(String),
    InvalidInstruction(String),
    MerkleTreeError(String),
    InvalidMetadata(String),
    InvalidTransfer(String),
}

impl BubblegumError {
    /// The detail text carried by the error.
    pub open spec fn detail_spec(&self) -> Seq<char> {
        match self {
            BubblegumError::InvalidPublicKey(m) => m@,
            BubblegumError::TransactionError(m) => m@,
            BubblegumError::NetworkError(m) => m@,
            BubblegumError::SerializationError(m) => m@,
            BubblegumError::RpcError(m) => m@,
            BubblegumError::CacheError(m) => m@,
            BubblegumError::InvalidInstruction(m) => m@,
            BubblegumError::MerkleTreeError(m) => m@,
            BubblegumError::InvalidMetadata(m) => m@,
            BubblegumError::InvalidTransfer(m) => m@,
        }
    }

    /// The label that names the kind of the error.
    pub open spec fn prefix_spec(&self) -> Seq<char> {
        match self {
            BubblegumError::InvalidPublicKey(_) => "Invalid public key"@,
            BubblegumError::TransactionError(_) => "Transaction error"@,
            BubblegumError::NetworkError(_) => "Network error"@,
            BubblegumError::SerializationError(_) => "Serialization error"@,
            BubblegumError::RpcError(_) => "RPC error"@,
            BubblegumError::CacheError(_) => "Cache error"@,
            BubblegumError::InvalidInstruction(_) => "Invalid instruction"@,
            BubblegumError::MerkleTreeError(_) => "Merkle tree error"@,
            BubblegumError::InvalidMetadata(_) => "Invalid metadata"@,
            BubblegumError::InvalidTransfer(_) => "Invalid transfer"@,
        }
    }

    /// The full text of the error, as shown to callers.
    pub open spec fn text_spec(&self) -> Seq<char> {
        formatted(self.prefix_spec(), self.detail_spec())
    }

    pub fn prefix(&self) -> (r: &'static str)
        ensures
            r@ == self.prefix_spec(),
    {
        match self {
            BubblegumError::InvalidPublicKey(_) => "Invalid public key",
            BubblegumError::TransactionError(_) => "Transaction error",
            BubblegumError::NetworkError(_) => "Network error",
            BubblegumError::SerializationError(_) => "Serialization error",
            BubblegumError::RpcError(_) => "RPC error",
            BubblegumError::CacheError(_) => "Cache error",
            BubblegumError::InvalidInstruction(_) => "Invalid instruction",
            BubblegumError::MerkleTreeError(_) => "Merkle tree error",
            BubblegumError::InvalidMetadata(_) => "Invalid metadata",
            BubblegumError::InvalidTransfer(_) => "Invalid transfer",
        }
    }

    pub fn detail(&self) -> (r: &String)
        ensures
            r@ == self.detail_spec(),
    {
        match self {
            BubblegumError::InvalidPublicKey(m) => m,
            BubblegumError::TransactionError(m) => m,
            BubblegumError::NetworkError(m) => m,
            BubblegumError::SerializationError(m) => m,
            BubblegumError::RpcError(m) => m,
            BubblegumError::CacheError(m) => m,
            BubblegumError::InvalidInstruction(m) => m,
            BubblegumError::MerkleTreeError(m) => m,
            BubblegumError::InvalidMetadata(m) => m,
            BubblegumError::InvalidTransfer(m) => m,
        }
    }

    /// Renders the error as `"<prefix>: <detail>"`, the one form in which
    /// it leaves the library.
    pub fn to_text(&self) -> (r: String)
        ensures
            r@ == self.text_spec(),
    {
        let mut s = String::from_str(self.prefix());
        s.append(": ");
        s.append(self.detail().as_str());
        s
    }
}

} // verus!
