use vstd::prelude::*;

use crate::error::EduNewsError;
use crate::types::{Article, VerificationResult};

verus! {

/// A flag read from one ledger; `None` where that ledger could not be read.
/// An unreadable flag counts as `false`.
pub open spec fn flag(read: Option<bool>) -> bool {
    read == Some(true)
}

fn flag_of(read: Option<bool>) -> (r: bool)
    ensures
        r == flag(read),
{
    match read {
        Some(b) => b,
        None => false,
    }
}

/// The verification of a pair, from three independent reads: whether the
/// registry indexes the pair, whether the issuance ledger holds the unit,
/// and whether the identity of the record's publisher is verified (read only
/// where the article exists). Each unreadable ledger turns its own flag
/// `false` and leaves the others alone.
pub open spec fn verification_of(
    collection_id: u32,
    item_id: u32,
    article_exists: Option<bool>,
    nft_exists: Option<bool>,
    identity_verified: Option<bool>,
) -> VerificationResult {
    VerificationResult {
        collection_id,
        item_id,
        article_exists: flag(article_exists),
        nft_exists: flag(nft_exists),
        publisher_verified: flag(article_exists) && flag(identity_verified),
    }
}

/// Merges the three reads of a verification into its result.
pub fn verification_result(
    collection_id: u32,
    item_id: u32,
    article_exists: Option<bool>,
    nft_exists: Option<bool>,
    identity_verified: Option<bool>,
) -> (r: VerificationResult)
    ensures
        r == verification_of(collection_id, item_id, article_exists, nft_exists, identity_verified),
{
    let exists = flag_of(article_exists);
    VerificationResult {
        collection_id,
        item_id,
        article_exists: exists,
        nft_exists: flag_of(nft_exists),
        publisher_verified: exists && flag_of(identity_verified),
    }
}

/// A pair that neither the registry nor the issuance ledger holds verifies
/// as all `false`, whatever the identity ledger says.
pub proof fn lemma_verify_unknown_pair(collection_id: u32, item_id: u32, identity_verified: Option<bool>)
    ensures
        ({
            let v = verification_of(collection_id, item_id, Some(false), Some(false), identity_verified);
            !v.article_exists && !v.nft_exists && !v.publisher_verified
        }),
{
}

/// An article with its two cross-ledger flags set from fresh reads.
pub fn annotate_article(article: Article, nft_exists: Option<bool>, identity_verified: Option<bool>) -> (r:
    Article)
    ensures
        r == (Article {
            verified_nft: flag(nft_exists),
            verified_identity: flag(identity_verified),
            ..article
        }),
{
    Article {
        verified_nft: flag_of(nft_exists),
        verified_identity: flag_of(identity_verified),
        ..article
    }
}

/// The articles of a publisher, each with its own fresh reads:
/// `nft_exists[i]` and `identity_verified[i]` belong to `articles[i]`.
pub fn annotate_articles(
    articles: Vec<Article>,
    nft_exists: &Vec<Option<bool>>,
    identity_verified: &Vec<Option<bool>>,
) -> (r: Vec<Article>)
    requires
        nft_exists@.len() == articles@.len(),
        identity_verified@.len() == articles@.len(),
    ensures
        r@.len() == articles@.len(),
        forall|i: int|
            0 <= i < r@.len() ==> #[trigger] r@[i] == (Article {
                verified_nft: flag(nft_exists@[i]),
                verified_identity: flag(identity_verified@[i]),
                ..articles@[i]
            }),
{
    let mut r: Vec<Article> = Vec::new();
    let mut i: usize = 0;
    let n = articles.len();
    let mut rest = articles;
    while i < n
        invariant
            0 <= i <= n == nft_exists@.len() == identity_verified@.len() == articles@.len(),
            rest@.len() == n - i,
            rest@ == articles@.skip(i as int),
            r@.len() == i,
            forall|k: int|
                0 <= k < i ==> #[trigger] r@[k] == (Article {
                    verified_nft: flag(nft_exists@[k]),
                    verified_identity: flag(identity_verified@[k]),
                    ..articles@[k]
                }),
        decreases n - i,
    {
        let a = rest.remove(0);
        assert(rest@ =~= articles@.skip(i + 1));
        r.push(annotate_article(a, nft_exists[i], identity_verified[i]));
        i = i + 1;
    }
    r
}

/// The detailed view of a pair: the article, or `ArticleNotFound` for the pair.
pub fn show_article(collection_id: u32, item_id: u32, found: Option<Article>) -> (r: Result<
    Article,
    EduNewsError,
>)
    ensures
        found matches Some(a) ==> r == Ok::<Article, EduNewsError>(a),
        found is None ==> (r matches Err(EduNewsError::ArticleNotFound { collection_id: c, item_id: u })
            && c == collection_id && u == item_id),
{
    match found {
        Some(a) => Ok(a),
        None => Err(EduNewsError::ArticleNotFound { collection_id, item_id }),
    }
}

} // verus!
