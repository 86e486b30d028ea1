use edunews::binding::{create_keypair_from_mnemonic, PublisherKey};
use edunews::digest::content_digest;
use edunews::error::EduNewsError;
use edunews::identity::{get_identity_from_address, is_identity_verified, IdentityRecord};
use edunews::issuer::{container_label, next_unit_id, select_container, unit_metadata, ContainerChoice};
use edunews::registrar::{
    article_from_record, get_article_by_ids, get_articles_by_publisher, parse_address, LookupOutcome,
    RegistryRecord,
};
use edunews::registration::{
    advance, register_article, registration_receipt, select_content, signed_submission, word_count, LedgerEvent,
    RegistrationStep,
};
use edunews::types::{Article, PublisherIdentity};
use edunews::verification::{annotate_article, annotate_articles, show_article, verification_result};

const ALICE_SS58: &str = "5GrwvaEF5zXb26Fz9rcQpDWS57CtERHpNehXCPcNoHGKutQY";

fn account(n: u8) -> [u8; 32] {
    [n; 32]
}

fn record(collection_id: u32, item_id: u32, title: &[u8], publisher: [u8; 32]) -> RegistryRecord {
    RegistryRecord {
        collection_id,
        item_id,
        title: title.to_vec(),
        canonical_url: b"http://x".to_vec(),
        publisher,
        last_updated_at: 77,
    }
}

#[test]
fn first_publisher_gets_container_zero() {
    assert_eq!(select_container(&vec![], &account(1)), ContainerChoice::Create(0));
}

#[test]
fn first_owned_container_is_chosen() {
    let owners = vec![Some(account(2)), None, Some(account(1)), Some(account(1))];
    assert_eq!(select_container(&owners, &account(1)), ContainerChoice::Existing(2));
    assert_eq!(select_container(&owners, &account(3)), ContainerChoice::Create(4));
    assert_eq!(ContainerChoice::Create(4).container_id(), 4);
}

#[test]
fn choosing_again_after_creation_reuses_container() {
    let mut owners = vec![Some(account(2))];
    let first = select_container(&owners, &account(1));
    assert_eq!(first, ContainerChoice::Create(1));
    owners.push(Some(account(1)));
    assert_eq!(select_container(&owners, &account(1)), ContainerChoice::Existing(1));
    assert_eq!(select_container(&owners, &account(1)), ContainerChoice::Existing(1));
}

#[test]
fn unit_id_is_item_count() {
    assert_eq!(next_unit_id(3, Some(5)), Ok(5));
    assert_eq!(next_unit_id(3, None), Err(EduNewsError::CollectionNotFound { collection_id: 3 }));
}

#[test]
fn unit_ids_increase_as_count_grows() {
    let ids: Vec<u32> = (0..4u32).map(|count| next_unit_id(0, Some(count)).unwrap()).collect();
    assert_eq!(ids, vec![0, 1, 2, 3]);
}

#[test]
fn labels_and_metadata() {
    assert_eq!(container_label(), b"news".to_vec());
    assert_eq!(unit_metadata("Test", "0xab"), "{\"title\":\"Test\",\"content_hash\":\"0xab\"}");
}

#[test]
fn address_round_trip() {
    let alice = PublisherKey::from_keypair(create_keypair_from_mnemonic("//Alice").unwrap());
    assert_eq!(parse_address(ALICE_SS58), Ok(alice.account()));
    assert_eq!(
        parse_address("not an address"),
        Err(EduNewsError::PublisherNotFound { address: "not an address".to_string() })
    );
}

#[test]
fn record_becomes_article() {
    let alice = PublisherKey::from_keypair(create_keypair_from_mnemonic("//Alice").unwrap());
    let d = content_digest("hello world");
    let a = article_from_record(&d, &record(0, 0, b"Test", alice.account()));
    assert_eq!(a.collection_id, 0);
    assert_eq!(a.item_id, 0);
    assert_eq!(a.title, "Test");
    assert_eq!(a.url, "http://x");
    assert_eq!(a.content_hash, d.to_hex_prefixed());
    assert_eq!(a.publisher, ALICE_SS58);
    assert_eq!(a.timestamp, 77);
    assert!(!a.verified_nft && !a.verified_identity);
}

#[test]
fn invalid_title_bytes_are_replaced() {
    let d = content_digest("x");
    let a = article_from_record(&d, &record(0, 0, b"a\xffb", account(1)));
    assert_eq!(a.title, "a\u{fffd}b");
}

#[test]
fn lookup_of_unregistered_pair_is_absent() {
    assert_eq!(get_article_by_ids(None, None), LookupOutcome::Absent);
    assert_eq!(get_article_by_ids(None, None).article(), None);
}

#[test]
fn lookup_with_missing_record_is_dangling() {
    let d = content_digest("x");
    assert_eq!(get_article_by_ids(Some(d), None), LookupOutcome::Dangling(d));
}

#[test]
fn lookup_finds_record() {
    let d = content_digest("x");
    let rec = record(4, 9, b"T", account(1));
    let found = get_article_by_ids(Some(d), Some(rec.clone())).article().unwrap();
    assert_eq!(found, article_from_record(&d, &rec));
}

#[test]
fn publisher_without_entries_lists_nothing() {
    assert!(get_articles_by_publisher(&vec![], &vec![]).is_empty());
}

#[test]
fn publisher_listing_keeps_resolvable_subset_in_order() {
    let d1 = content_digest("one");
    let d2 = content_digest("two");
    let d3 = content_digest("three");
    let r1 = record(0, 0, b"one", account(1));
    let r3 = record(0, 2, b"three", account(1));
    let list = get_articles_by_publisher(&vec![d1, d2, d3], &vec![Some(r1.clone()), None, Some(r3.clone())]);
    assert_eq!(list, vec![article_from_record(&d1, &r1), article_from_record(&d3, &r3)]);
}

#[test]
fn identity_absent_is_unverified() {
    let id = get_identity_from_address("5Abc", None);
    assert_eq!(
        id,
        PublisherIdentity { address: "5Abc".to_string(), display_name: None, legal_name: None, verified: false }
    );
}

#[test]
fn identity_present_is_verified() {
    let id = get_identity_from_address("5Abc", Some(IdentityRecord { has_display: true }));
    assert!(id.verified);
    assert_eq!(id.display_name, Some("Identity Set".to_string()));
    assert_eq!(id.legal_name, None);
    let bare = get_identity_from_address("5Abc", Some(IdentityRecord { has_display: false }));
    assert!(bare.verified);
    assert_eq!(bare.display_name, None);
}

#[test]
fn failed_identity_lookup_counts_as_unverified() {
    let failed: Result<PublisherIdentity, EduNewsError> = Err(EduNewsError::Ledger { reason: "down".to_string() });
    assert!(!is_identity_verified(&failed));
    let ok = Ok(get_identity_from_address("5Abc", Some(IdentityRecord { has_display: false })));
    assert!(is_identity_verified(&ok));
}

#[test]
fn verify_unknown_pair_is_all_false() {
    let v = verification_result(7, 8, Some(false), Some(false), Some(true));
    assert_eq!((v.collection_id, v.item_id), (7, 8));
    assert!(!v.article_exists && !v.nft_exists && !v.publisher_verified);
}

#[test]
fn verify_degrades_unreachable_ledgers() {
    let v = verification_result(1, 2, Some(true), None, None);
    assert!(v.article_exists && !v.nft_exists && !v.publisher_verified);
    let w = verification_result(1, 2, Some(true), Some(true), Some(true));
    assert!(w.article_exists && w.nft_exists && w.publisher_verified);
}

fn sample_article(item_id: u32) -> Article {
    Article {
        collection_id: 0,
        item_id,
        title: "T".to_string(),
        url: "u".to_string(),
        content_hash: "0x00".to_string(),
        publisher: "p".to_string(),
        timestamp: 1,
        verified_nft: false,
        verified_identity: false,
    }
}

#[test]
fn articles_get_their_own_flags() {
    let out = annotate_articles(
        vec![sample_article(0), sample_article(1)],
        &vec![Some(true), None],
        &vec![Some(false), Some(true)],
    );
    assert_eq!(out.len(), 2);
    assert!(out[0].verified_nft && !out[0].verified_identity);
    assert!(!out[1].verified_nft && out[1].verified_identity);
    assert_eq!(out[1].item_id, 1);
    let single = annotate_article(sample_article(3), Some(true), Some(true));
    assert!(single.verified_nft && single.verified_identity);
}

#[test]
fn show_of_unregistered_pair_is_not_found() {
    assert_eq!(
        show_article(5, 6, None),
        Err(EduNewsError::ArticleNotFound { collection_id: 5, item_id: 6 })
    );
    assert_eq!(show_article(5, 6, Some(sample_article(6))), Ok(sample_article(6)));
}

#[test]
fn words_are_counted() {
    assert_eq!(word_count("hello world"), 2);
    assert_eq!(word_count(""), 0);
    assert_eq!(word_count("  a\tb\nc  "), 3);
}

#[test]
fn content_comes_inline_or_from_file() {
    assert_eq!(select_content(Some("a".to_string()), None), Ok("a".to_string()));
    assert_eq!(select_content(None, Some("b".to_string())), Ok("b".to_string()));
    assert_eq!(select_content(None, None), Err(EduNewsError::NoContentProvided));
}

#[test]
fn submission_carries_parsed_digest() {
    let d = content_digest("hello world");
    let s = register_article(1, [9u8; 64], 2, "Test", "http://x", &d.to_hex_prefixed(), 2).unwrap();
    assert_eq!(s.content_hash, d);
    assert_eq!((s.collection_id, s.item_id, s.word_count), (1, 2, 2));
    assert_eq!(s.title, b"Test".to_vec());
    assert_eq!(s.url, b"http://x".to_vec());
    assert_eq!(s.signature, [9u8; 64]);
    assert_eq!(
        register_article(1, [9u8; 64], 2, "Test", "http://x", "0x1234", 2),
        Err(EduNewsError::InvalidContentHash { hash: "0x1234".to_string() })
    );
}

#[test]
fn signed_submission_binds_digest_and_key() {
    let key = PublisherKey::from_keypair(create_keypair_from_mnemonic("//Bob").unwrap());
    let d = content_digest("hello world");
    let s = signed_submission(3, 4, &key, "Test", "http://x", &d, 2);
    assert_eq!(s.content_hash, d);
    assert_eq!((s.collection_id, s.item_id, s.word_count), (3, 4, 2));
    assert_eq!(s.title, b"Test".to_vec());
    let public = subxt_signer::sr25519::PublicKey(key.account());
    let signature = subxt_signer::sr25519::Signature(s.signature);
    assert!(subxt_signer::sr25519::verify(&signature, edunews::binding::signing_payload(&d), &public));
}

#[test]
fn receipt_names_article_by_digest_prefix() {
    let d = content_digest("hello world");
    let r = registration_receipt(0, 0, &d);
    assert_eq!(r.tx_hash, "article_0x256c83");
    assert_eq!(r.content_hash, d.to_hex_prefixed());
    assert_eq!((r.collection_id, r.item_id), (0, 0));
}

#[test]
fn failed_label_reports_incomplete_writes() {
    let p = account(1);
    let reject = || LedgerEvent::Rejected("refused".to_string());
    assert_eq!(
        advance(RegistrationStep::LabelContainer(3), reject(), &p),
        Err(EduNewsError::IncompleteContainer { collection_id: 3 })
    );
    assert_eq!(
        advance(RegistrationStep::LabelUnit(3, 4), reject(), &p),
        Err(EduNewsError::IncompleteUnit { collection_id: 3, item_id: 4 })
    );
    assert_eq!(
        advance(RegistrationStep::MintUnit(3, 4), reject(), &p),
        Err(EduNewsError::Ledger { reason: "refused".to_string() })
    );
    assert_eq!(
        advance(RegistrationStep::ReadItemCount(3), LedgerEvent::ItemCount(None), &p),
        Err(EduNewsError::CollectionNotFound { collection_id: 3 })
    );
    assert!(advance(RegistrationStep::Done(0, 0), LedgerEvent::Finalized, &p).is_err());
}

/// The issuance ledger as far as a registration touches it.
struct FakeIssuance {
    owners: Vec<[u8; 32]>,
    items: Vec<u32>,
}

/// Drives one registration against the fake ledger; returns (container, unit).
fn run_registration(ledger: &mut FakeIssuance, publisher: [u8; 32]) -> (u32, u32) {
    let mut step = RegistrationStep::ReadContainers;
    loop {
        let event = match step {
            RegistrationStep::ReadContainers => {
                LedgerEvent::Owners(ledger.owners.iter().map(|o| Some(*o)).collect())
            }
            RegistrationStep::CreateContainer(c) => {
                assert_eq!(c as usize, ledger.owners.len());
                ledger.owners.push(publisher);
                ledger.items.push(0);
                LedgerEvent::Finalized
            }
            RegistrationStep::ReadItemCount(c) => LedgerEvent::ItemCount(ledger.items.get(c as usize).copied()),
            RegistrationStep::MintUnit(c, _) => {
                ledger.items[c as usize] += 1;
                LedgerEvent::Finalized
            }
            RegistrationStep::Done(c, u) => return (c, u),
            _ => LedgerEvent::Finalized,
        };
        step = advance(step, event, &publisher).unwrap();
    }
}

#[test]
fn end_to_end_first_registration() {
    let key = PublisherKey::from_keypair(create_keypair_from_mnemonic("//Alice").unwrap());
    let publisher = key.account();
    let mut ledger = FakeIssuance { owners: vec![], items: vec![] };
    let (c, u) = run_registration(&mut ledger, publisher);
    assert_eq!((c, u), (0, 0));
    let d = content_digest("hello world");
    assert_eq!(d.bytes.len(), 32);
    let sig = key.sign_digest(&d).signature;
    let sub = register_article(c, sig, u, "Test", "http://x", &d.to_hex_prefixed(), word_count("hello world")).unwrap();
    assert_eq!(sub.content_hash, d);
    let v = verification_result(0, 0, Some(true), Some(ledger.items[0] > 0), Some(false));
    assert!(v.article_exists && v.nft_exists);
}

#[test]
fn end_to_end_two_registrations_share_container() {
    let publisher = account(5);
    let mut ledger = FakeIssuance { owners: vec![account(9)], items: vec![3] };
    let first = run_registration(&mut ledger, publisher);
    let second = run_registration(&mut ledger, publisher);
    assert_eq!(first, (1, 0));
    assert_eq!(second, (1, 1));
    assert_eq!(ledger.owners.len(), 2);
}
