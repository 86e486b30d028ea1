use vstd::prelude::*;

verus! {

/// The family of ledgers to connect to.
#[derive(Clone, Copy, Debug, PartialEq, Eq, Structural)]
pub enum Network {
    Testnet,
    Mainnet,
}

/// An article as seen across the ledgers: the registry record, with the
/// issuance and identity flags checked afresh on every read.
#[derive(Clone, Debug, PartialEq, Eq)]
pub struct Article {
    pub collection_id: u32,
    pub item_id: u32,
    pub title: String,
    pub url: String,
    pub content_hash: String,
    pub publisher: String,
    pub timestamp: u64,
    pub verified_nft: bool,
    pub verified_identity: bool,
}

/// What the identity ledger says of an address. `verified` only means that
/// some identity record exists; no registrar judgement is looked at.
#[derive(Clone, Debug, PartialEq, Eq)]
pub struct PublisherIdentity {
    pub address: String,
    pub display_name: Option<String>,
    pub legal_name: Option<String>,
    pub verified: bool,
}

/// The outcome of checking one `(collection_id, item_id)` pair on all three ledgers.
#[derive(Clone, Copy, Debug, PartialEq, Eq, Structural)]
pub struct VerificationResult {
    pub collection_id: u32,
    pub item_id: u32,
    pub article_exists: bool,
    pub nft_exists: bool,
    pub publisher_verified: bool,
}

/// The receipt of a completed registration.
#[derive(Clone, Debug, PartialEq, Eq)]
pub struct RegistrationResult {
    pub collection_id: u32,
    pub item_id: u32,
    pub tx_hash: String,
    pub content_hash: String,
}

/// Arguments of a registration: the article, and the signing phrase.
/// At most one of `content` and `content_file` is given.
#[derive(Clone, Debug, PartialEq, Eq)]
pub struct RegisterArgs {
    pub title: String,
    pub url: String,
    pub content: Option<String>,
    pub content_file: Option<String>,
    pub mnemonic: String,
}

/// Arguments of a verification.
#[derive(Clone, Copy, Debug, PartialEq, Eq, Structural)]
pub struct VerifyArgs {
    pub collection_id: u32,
    pub item_id: u32,
}

/// Arguments of a listing by publisher.
#[derive(Clone, Debug, PartialEq, Eq)]
pub struct ListArgs {
    pub publisher: String,
}

/// Arguments of an identity lookup.
#[derive(Clone, Debug, PartialEq, Eq)]
pub struct IdentityArgs {
    pub address: String,
}

/// Arguments of a detailed view of one article.
#[derive(Clone, Copy, Debug, PartialEq, Eq, Structural)]
pub struct ShowArgs {
    pub collection_id: u32,
    pub item_id: u32,
}

/// The five operations offered to callers.
#[derive(Clone, Debug, PartialEq, Eq)]
pub enum Commands {
    Register(RegisterArgs),
    Verify(VerifyArgs),
    List(ListArgs),
    Identity(IdentityArgs),
    Show(ShowArgs),
}

/// A full invocation: the operation, the network, and whether to answer in JSON.
#[derive(Clone, Debug, PartialEq, Eq)]
pub struct Cli {
    pub command: Commands,
    pub network: Network,
    pub json: bool,
}

} // verus!
