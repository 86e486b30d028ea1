use vstd::prelude::*;

verus! {

/// Everything that can go wrong in a registration or a lookup.
///
/// `InvalidMnemonic`, `InvalidContentHash`, `PublisherNotFound` and
/// `NoContentProvided` mean the input was refused before any ledger was
/// asked; `ChainConnection` and `Ledger` mean a ledger could not be reached
/// or refused a transaction; `ArticleNotFound` and `CollectionNotFound` mean
/// the record does not exist. `IncompleteContainer` and `IncompleteUnit`
/// report a two-step write whose first step is final and whose second is not.
#[derive(Clone, Debug, PartialEq, Eq)]
pub enum EduNewsError {
    ChainConnection { chain: String, reason: String },
    InvalidMnemonic,
    ArticleNotFound { collection_id: u32, item_id: u32 },
    FileRead { path: String, reason: String },
    PublisherNotFound { address: String },
    CollectionNotFound { collection_id: u32 },
    NoContentProvided,
    InvalidContentHash { hash: String },
    IncompleteContainer { collection_id: u32 },
    IncompleteUnit { collection_id: u32, item_id: u32 },
    Ledger { reason: String },
    Json { reason: String },
    Io { reason: String },
}

impl EduNewsError {
    /// This is `InvalidContentHash` for the text `s`.
    pub open spec fn is_invalid_hash_of(&self, s: Seq<char>) -> bool {
        match self {
            EduNewsError::InvalidContentHash { hash } => hash@ == s,
            _ => false,
        }
    }

    /// This is `PublisherNotFound` for the address text `s`.
    pub open spec fn is_unknown_publisher(&self, s: Seq<char>) -> bool {
        match self {
            EduNewsError::PublisherNotFound { address } => address@ == s,
            _ => false,
        }
    }
}

} // verus!
