use vstd::prelude::*;
use vstd::utf8::{valid_utf8, decode_utf8};

use crate::digest::{ContentDigest, is_prefixed_hex_of};
use crate::error::EduNewsError;
use crate::issuer::AccountId;
use crate::types::Article;

verus! {

/// What `String::from_utf8_lossy` makes of some bytes.
pub uninterp spec fn utf8_lossy(bytes: Seq<u8>) -> Seq<char>;

/// The SS58 text (generic prefix 42) of an account id.
pub uninterp spec fn ss58_text(account: Seq<u8>) -> Seq<char>;

/// The account id that an SS58 text denotes, if it denotes one.
pub uninterp spec fn ss58_account(text: Seq<char>) -> Option<Seq<u8>>;

/// A record of the registry ledger, as stored under a content digest.
#[derive(Clone, Debug, PartialEq, Eq)]
pub struct RegistryRecord {
    pub collection_id: u32,
    pub item_id: u32,
    pub title: Vec<u8>,
    pub canonical_url: Vec<u8>,
    pub publisher: AccountId,
    pub last_updated_at: u64,
}

/// Relies on `String::from_utf8_lossy`: valid UTF-8 is decoded as it
/// stands; invalid sequences become replacement characters.
#[verifier::external_body]
fn text_from_bytes(bytes: &[u8]) -> (r: String)
    ensures
        r@ == utf8_lossy(bytes@),
        valid_utf8(bytes@) ==> r@ == decode_utf8(bytes@),
{
    String::from_utf8_lossy(bytes).into_owned()
}

/// Relies on subxt's `AccountId32` `Display`: the account's SS58 text.
#[verifier::external_body]
fn account_text(account: &AccountId) -> (r: String)
    ensures
        r@ == ss58_text(account@),
{
    subxt::utils::AccountId32(*account).to_string()
}

/// Relies on subxt's `AccountId32::from_str`: decodes SS58 text, checking
/// its prefix, length and checksum.
#[verifier::external_body]
fn read_account(text: &str) -> (r: Option<AccountId>)
    ensures
        match r {
            Some(a) => ss58_account(text@) == Some(a@),
            None => ss58_account(text@) is None,
        },
{
    match text.parse::<subxt::utils::AccountId32>() {
        Ok(a) => Some(a.0),
        Err(_) => None,
    }
}

/// Reads a publisher address; text that is no SS58 address is refused with
/// `PublisherNotFound`, before any ledger is asked.
pub fn parse_address(address: &str) -> (r: Result<AccountId, EduNewsError>)
    ensures
        match r {
            Ok(a) => ss58_account(address@) == Some(a@),
            Err(e) => ss58_account(address@) is None && e.is_unknown_publisher(address@),
        },
{
    match read_account(address) {
        Some(a) => Ok(a),
        None => Err(EduNewsError::PublisherNotFound { address: address.to_owned() }),
    }
}

/// `a` shows the record `record`, stored under `digest`, with both
/// cross-ledger flags still unchecked.
pub open spec fn is_article_of(a: Article, digest: ContentDigest, record: RegistryRecord) -> bool {
    &&& a.collection_id == record.collection_id
    &&& a.item_id == record.item_id
    &&& a.title@ == utf8_lossy(record.title@)
    &&& a.url@ == utf8_lossy(record.canonical_url@)
    &&& is_prefixed_hex_of(a.content_hash@, digest.bytes@)
    &&& a.publisher@ == ss58_text(record.publisher@)
    &&& a.timestamp == record.last_updated_at
    &&& !a.verified_nft
    &&& !a.verified_identity
}

/// The article view of a registry record.
pub fn article_from_record(digest: &ContentDigest, record: &RegistryRecord) -> (r: Article)
    ensures
        is_article_of(r, *digest, *record),
{
    Article {
        collection_id: record.collection_id,
        item_id: record.item_id,
        title: text_from_bytes(record.title.as_slice()),
        url: text_from_bytes(record.canonical_url.as_slice()),
        content_hash: digest.to_hex_prefixed(),
        publisher: account_text(&record.publisher),
        timestamp: record.last_updated_at,
        verified_nft: false,
        verified_identity: false,
    }
}

/// The outcome of the two-step lookup `(collection_id, item_id) -> digest -> record`.
#[derive(Clone, Debug, PartialEq, Eq)]
pub enum LookupOutcome {
    /// No digest is indexed under the pair.
    Absent,
    /// A digest is indexed under the pair but no record is stored under it:
    /// the registry is inconsistent, which callers report as a warning.
    Dangling(ContentDigest),
    /// The article stored under the pair.
    Found(Article),
}

impl LookupOutcome {
    /// The article, if one was found.
    pub fn article(self) -> (r: Option<Article>)
        ensures
            self matches LookupOutcome::Found(a) ==> r == Some(a),
            !(self is Found) ==> r is None,
    {
        match self {
            LookupOutcome::Found(a) => Some(a),
            _ => None,
        }
    }
}

/// Resolves an article by its pair of ids. `root` is what the registry's
/// secondary index holds for the pair; `record` is what its primary map
/// holds for that digest (not read, so `None`, where `root` is `None`).
/// Absence at either step is an outcome, never an error.
pub fn get_article_by_ids(root: Option<ContentDigest>, record: Option<RegistryRecord>) -> (r:
    LookupOutcome)
    ensures
        root is None ==> r is Absent,
        root matches Some(d) ==> match record {
            None => r == LookupOutcome::Dangling(d),
            Some(rec) => r matches LookupOutcome::Found(a) && is_article_of(a, d, rec),
        },
{
    match root {
        None => LookupOutcome::Absent,
        Some(d) => match record {
            None => LookupOutcome::Dangling(d),
            Some(rec) => LookupOutcome::Found(article_from_record(&d, &rec)),
        },
    }
}

/// The positions, in order, at which a record was found.
pub open spec fn present_positions(records: Seq<Option<RegistryRecord>>) -> Seq<int>
    decreases records.len(),
{
    if records.len() == 0 {
        Seq::empty()
    } else {
        let before = present_positions(records.drop_last());
        if records.last() is Some {
            before.push(records.len() - 1)
        } else {
            before
        }
    }
}

proof fn lemma_present_positions_bounded(records: Seq<Option<RegistryRecord>>)
    ensures
        forall|k: int|
            0 <= k < present_positions(records).len() ==> 0 <= #[trigger] present_positions(
                records,
            )[k] < records.len() && records[present_positions(records)[k]] is Some,
    decreases records.len(),
{
    if records.len() > 0 {
        lemma_present_positions_bounded(records.drop_last());
    }
}

/// The articles of a publisher. `digests` is the publisher's index on the
/// registry (empty where it holds none) and `records[i]` what the registry
/// holds under `digests[i]`. Digests without a record are skipped; the
/// others keep their order.
pub fn get_articles_by_publisher(
    digests: &Vec<ContentDigest>,
    records: &Vec<Option<RegistryRecord>>,
) -> (r: Vec<Article>)
    requires
        digests@.len() == records@.len(),
    ensures
        r@.len() == present_positions(records@).len(),
        forall|k: int|
            0 <= k < r@.len() ==> {
                let i = #[trigger] present_positions(records@)[k];
                is_article_of(r@[k], digests@[i], records@[i]->0)
            },
        digests@.len() == 0 ==> r@.len() == 0,
{
    let mut r: Vec<Article> = Vec::new();
    let mut i: usize = 0;
    while i < records.len()
        invariant
            0 <= i <= records@.len() == digests@.len(),
            r@.len() == present_positions(records@.take(i as int)).len(),
            forall|k: int|
                0 <= k < r@.len() ==> {
                    let j = #[trigger] present_positions(records@.take(i as int))[k];
                    is_article_of(r@[k], digests@[j], records@[j]->0)
                },
        decreases records@.len() - i,
    {
        let ghost before = records@.take(i as int);
        let ghost after = records@.take(i + 1);
        assert(after.drop_last() =~= before);
        proof {
            lemma_present_positions_bounded(before);
        }
        match &records[i] {
            Some(rec) => {
                r.push(article_from_record(&digests[i], rec));
            },
            None => {},
        }
        i = i + 1;
        assert(forall|k: int|
            0 <= k < present_positions(before).len() ==> #[trigger] present_positions(after)[k]
                == present_positions(before)[k]);
        assert(forall|k: int|
            0 <= k < present_positions(before).len() ==> #[trigger] after[present_positions(
                before,
            )[k]] == records@[present_positions(before)[k]]);
    }
    assert(records@.take(records@.len() as int) =~= records@);
    r
}

} // verus!
