use vstd::prelude::*;
use vstd::slice::slice_to_vec;
use vstd::string::*;

use crate::digest::{
    ContentDigest,
    is_digest_text,
    is_lower_hex_digit,
    is_prefixed_hex_of,
    lemma_digest_text_round_trip,
    parse_content_hash,
    spells_bytes,
    strip_hex_prefix,
};
use crate::binding::PublisherKey;
use crate::error::EduNewsError;
use crate::issuer::{AccountId, ContainerChoice, chosen_container, next_unit_id, select_container};
use crate::types::RegistrationResult;

verus! {

/// How many whitespace-separated words `str::split_whitespace` finds in a text.
pub uninterp spec fn whitespace_words(text: Seq<char>) -> nat;

/// Relies on `str::split_whitespace`: the number of words it yields; an
/// empty text has none.
#[verifier::external_body]
fn count_words(text: &str) -> (r: usize)
    ensures
        r == whitespace_words(text@),
        text@.len() == 0 ==> r == 0,
{
    text.split_whitespace().count()
}

/// The word count recorded with an article, kept to 32 bits as the
/// registry stores it.
pub fn word_count(content: &str) -> (r: u32)
    ensures
        r == whitespace_words(content@) as u32,
        content@.len() == 0 ==> r == 0,
{
    count_words(content) as u32
}

/// The article's content: the text given inline, else the text read from
/// the given file; `NoContentProvided` when neither was given.
pub fn select_content(inline: Option<String>, from_file: Option<String>) -> (r: Result<
    String,
    EduNewsError,
>)
    ensures
        inline matches Some(c) ==> r == Ok::<String, EduNewsError>(c),
        inline is None ==> (from_file matches Some(c) ==> r == Ok::<String, EduNewsError>(c)),
        inline is None && from_file is None ==> (r matches Err(e) && e is NoContentProvided),
{
    match inline {
        Some(c) => Ok(c),
        None => match from_file {
            Some(c) => Ok(c),
            None => Err(EduNewsError::NoContentProvided),
        },
    }
}

/// The record submitted to the registry ledger.
#[derive(Clone, Debug, PartialEq, Eq)]
pub struct ArticleSubmission {
    pub content_hash: ContentDigest,
    pub collection_id: u32,
    pub item_id: u32,
    pub title: Vec<u8>,
    pub url: Vec<u8>,
    pub signature: [u8; 64],
    pub word_count: u32,
}

/// Builds the registry submission that binds the minted unit to the digest.
/// A `content_hash` that is no well-formed digest text is refused with
/// `InvalidContentHash` before anything is sent.
pub fn register_article(
    collection_id: u32,
    signature: [u8; 64],
    item_id: u32,
    title: &str,
    url: &str,
    content_hash: &str,
    word_count: u32,
) -> (r: Result<ArticleSubmission, EduNewsError>)
    ensures
        r is Ok <==> is_digest_text(content_hash@),
        r matches Ok(s) ==> {
            &&& spells_bytes(strip_hex_prefix(content_hash@), s.content_hash.bytes@)
            &&& s.collection_id == collection_id
            &&& s.item_id == item_id
            &&& s.title@ == title.spec_bytes()
            &&& s.url@ == url.spec_bytes()
            &&& s.signature == signature
            &&& s.word_count == word_count
        },
        r matches Err(e) ==> e.is_invalid_hash_of(content_hash@),
{
    let digest = parse_content_hash(content_hash)?;
    Ok(
        ArticleSubmission {
            content_hash: digest,
            collection_id,
            item_id,
            title: slice_to_vec(title.as_bytes()),
            url: slice_to_vec(url.as_bytes()),
            signature,
            word_count,
        },
    )
}

/// The registry submission for a unit, signed with the publisher's key over
/// the signing payload of `digest`. The digest travels as its `0x` text, as
/// the registry call takes it; that text always reads back as the same
/// digest, so this step never fails.
pub fn signed_submission(
    collection_id: u32,
    item_id: u32,
    key: &PublisherKey,
    title: &str,
    url: &str,
    digest: &ContentDigest,
    word_count: u32,
) -> (r: ArticleSubmission)
    ensures
        r.content_hash.bytes@ == digest.bytes@,
        r.collection_id == collection_id,
        r.item_id == item_id,
        r.title@ == title.spec_bytes(),
        r.url@ == url.spec_bytes(),
        r.word_count == word_count,
{
    let content_hash = digest.to_hex_prefixed();
    let binding = key.sign_digest(digest);
    let result = register_article(
        collection_id,
        binding.signature,
        item_id,
        title,
        url,
        content_hash.as_str(),
        word_count,
    );
    match result {
        Ok(s) => {
            proof {
                lemma_digest_text_round_trip(content_hash@, digest.bytes@, s.content_hash.bytes@);
            }
            s
        },
        Err(_) => {
            proof {
                lemma_digest_text_round_trip(content_hash@, digest.bytes@, digest.bytes@);
            }
            unreached()
        },
    }
}

/// The receipt of a registration. Its transaction reference is `article_`
/// followed by the first eight characters of the `0x`-prefixed digest.
pub fn registration_receipt(collection_id: u32, item_id: u32, digest: &ContentDigest) -> (r:
    RegistrationResult)
    ensures
        r.collection_id == collection_id,
        r.item_id == item_id,
        is_prefixed_hex_of(r.content_hash@, digest.bytes@),
        r.tx_hash@ == "article_"@ + r.content_hash@.subrange(0, 8),
{
    let content_hash = digest.to_hex_prefixed();
    proof {
        reveal_strlit("0x");
        let s = content_hash@;
        assert(s.subrange(0, 2)[0] == '0' && s.subrange(0, 2)[1] == 'x');
        assert forall|j: int| 0 <= j < s.len() implies '\0' <= #[trigger] s[j] <= '\u{7f}' by {
            if j >= 2 {
                assert(s.subrange(2, s.len() as int)[j - 2] == s[j]);
                assert(is_lower_hex_digit(s[j]));
            } else {
                assert(s.subrange(0, 2)[j] == s[j]);
            }
        }
    }
    let head = content_hash.as_str().substring_ascii(0, 8);
    let tx_hash = "article_".to_owned().concat(head);
    RegistrationResult { collection_id, item_id, tx_hash, content_hash }
}

/// The step a registration has reached. Writes run strictly in this order:
/// container (created and labelled when new), unit minted, unit labelled,
/// then the signed record submitted. Each step names what the caller does
/// next on the ledgers. The unit id is derived from the item count read just
/// before the mint, so a caller must run at most one registration per
/// publisher at a time; two concurrent ones could both read the same count.
#[derive(Clone, Copy, Debug, PartialEq, Eq, Structural)]
pub enum RegistrationStep {
    /// Read the owner of every container below the next free id.
    ReadContainers,
    /// Create the container with this id, owned by the publisher.
    CreateContainer(u32),
    /// Attach the purpose label to the new container.
    LabelContainer(u32),
    /// Read the item count of the container.
    ReadItemCount(u32),
    /// Mint the unit `(container, unit)` to the publisher.
    MintUnit(u32, u32),
    /// Attach the title and digest to the minted unit.
    LabelUnit(u32, u32),
    /// Sign the digest and submit the registry record for the unit.
    SubmitRecord(u32, u32),
    /// The registration is complete.
    Done(u32, u32),
}

/// What the caller observed while carrying out a step.
#[derive(Clone, Debug, PartialEq, Eq)]
pub enum LedgerEvent {
    /// The owners read for `ReadContainers`.
    Owners(Vec<Option<AccountId>>),
    /// The item count read for `ReadItemCount` (`None`: no such container).
    ItemCount(Option<u32>),
    /// The transaction of the step reached finality.
    Finalized,
    /// The transaction of the step failed, for the reason given.
    Rejected(String),
}

/// The step that follows `step` once `event` was observed, or the error that
/// ends the registration. A failed second half of a two-step write is
/// reported as incomplete, naming what exists, so the caller can finish it.
pub fn advance(step: RegistrationStep, event: LedgerEvent, publisher: &AccountId) -> (r: Result<
    RegistrationStep,
    EduNewsError,
>)
    requires
        event matches LedgerEvent::Owners(o) ==> o@.len() <= u32::MAX,
    ensures
        match (step, event) {
            (RegistrationStep::ReadContainers, LedgerEvent::Owners(o)) => match chosen_container(
                o@,
                *publisher,
            ) {
                ContainerChoice::Existing(c) => r == Ok::<_, EduNewsError>(
                    RegistrationStep::ReadItemCount(c),
                ),
                ContainerChoice::Create(c) => r == Ok::<_, EduNewsError>(
                    RegistrationStep::CreateContainer(c),
                ),
            },
            (RegistrationStep::CreateContainer(c), LedgerEvent::Finalized) => r == Ok::<
                _,
                EduNewsError,
            >(RegistrationStep::LabelContainer(c)),
            (RegistrationStep::LabelContainer(c), LedgerEvent::Finalized) => r == Ok::<
                _,
                EduNewsError,
            >(RegistrationStep::ReadItemCount(c)),
            (RegistrationStep::LabelContainer(c), LedgerEvent::Rejected(_)) => (r matches Err(
                EduNewsError::IncompleteContainer { collection_id: x },
            ) && x == c),
            (RegistrationStep::ReadItemCount(c), LedgerEvent::ItemCount(Some(n))) => r == Ok::<
                _,
                EduNewsError,
            >(RegistrationStep::MintUnit(c, n)),
            (RegistrationStep::ReadItemCount(c), LedgerEvent::ItemCount(None)) => (r matches Err(
                EduNewsError::CollectionNotFound { collection_id: x },
            ) && x == c),
            (RegistrationStep::MintUnit(c, u), LedgerEvent::Finalized) => r == Ok::<
                _,
                EduNewsError,
            >(RegistrationStep::LabelUnit(c, u)),
            (RegistrationStep::LabelUnit(c, u), LedgerEvent::Finalized) => r == Ok::<
                _,
                EduNewsError,
            >(RegistrationStep::SubmitRecord(c, u)),
            (RegistrationStep::LabelUnit(c, u), LedgerEvent::Rejected(_)) => (r matches Err(
                EduNewsError::IncompleteUnit { collection_id: x, item_id: y },
            ) && x == c && y == u),
            (RegistrationStep::SubmitRecord(c, u), LedgerEvent::Finalized) => r == Ok::<
                _,
                EduNewsError,
            >(RegistrationStep::Done(c, u)),
            (_, LedgerEvent::Rejected(reason)) => (r matches Err(EduNewsError::Ledger { reason: m })
                && m@ == reason@),
            _ => r matches Err(EduNewsError::Ledger { .. }),
        },
{
    match (step, event) {
        (RegistrationStep::ReadContainers, LedgerEvent::Owners(o)) => {
            match select_container(&o, publisher) {
                ContainerChoice::Existing(c) => Ok(RegistrationStep::ReadItemCount(c)),
                ContainerChoice::Create(c) => Ok(RegistrationStep::CreateContainer(c)),
            }
        },
        (RegistrationStep::CreateContainer(c), LedgerEvent::Finalized) => Ok(
            RegistrationStep::LabelContainer(c),
        ),
        (RegistrationStep::LabelContainer(c), LedgerEvent::Finalized) => Ok(
            RegistrationStep::ReadItemCount(c),
        ),
        (RegistrationStep::LabelContainer(c), LedgerEvent::Rejected(_)) => Err(
            EduNewsError::IncompleteContainer { collection_id: c },
        ),
        (RegistrationStep::ReadItemCount(c), LedgerEvent::ItemCount(n)) => {
            let u = next_unit_id(c, n)?;
            Ok(RegistrationStep::MintUnit(c, u))
        },
        (RegistrationStep::MintUnit(c, u), LedgerEvent::Finalized) => Ok(
            RegistrationStep::LabelUnit(c, u),
        ),
        (RegistrationStep::LabelUnit(c, u), LedgerEvent::Finalized) => Ok(
            RegistrationStep::SubmitRecord(c, u),
        ),
        (RegistrationStep::LabelUnit(c, u), LedgerEvent::Rejected(_)) => Err(
            EduNewsError::IncompleteUnit { collection_id: c, item_id: u },
        ),
        (RegistrationStep::SubmitRecord(c, u), LedgerEvent::Finalized) => Ok(
            RegistrationStep::Done(c, u),
        ),
        (_, LedgerEvent::Rejected(reason)) => Err(EduNewsError::Ledger { reason }),
        _ => Err(EduNewsError::Ledger { reason: "unexpected ledger event".to_owned() }),
    }
}

} // verus!
