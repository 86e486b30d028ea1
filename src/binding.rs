use vstd::prelude::*;

use subxt_signer::sr25519::Keypair;
use subxt_signer::SecretUri;

use crate::digest::ContentDigest;
use crate::error::EduNewsError;
use crate::issuer::AccountId;

verus! {

/// subxt-signer's sr25519 key pair, carried through unopened.
#[verifier::external_type_specification]
#[verifier::external_body]
pub struct ExKeypair(subxt_signer::sr25519::Keypair);

/// subxt-signer's parsed secret URI, carried through unopened.
#[verifier::external_type_specification]
#[verifier::external_body]
pub struct ExSecretUri(subxt_signer::SecretUri);

/// The marker written before the digest: `<Bytes>`.
pub open spec fn open_marker() -> Seq<u8> {
    seq![60u8, 66u8, 121u8, 116u8, 101u8, 115u8, 62u8]
}

/// The marker written after the digest: `</Bytes>`.
pub open spec fn close_marker() -> Seq<u8> {
    seq![60u8, 47u8, 66u8, 121u8, 116u8, 101u8, 115u8, 62u8]
}

/// The message that binds a publisher's key to a digest: the digest between
/// the two markers, so that the signature cannot pass for one over raw bytes.
pub open spec fn payload_of(digest: Seq<u8>) -> Seq<u8> {
    open_marker() + digest + close_marker()
}

/// The signing payload for a digest.
pub fn signing_payload(digest: &ContentDigest) -> (r: Vec<u8>)
    ensures
        r@ == payload_of(digest.bytes@),
{
    let mut r: Vec<u8> = vec![60u8, 66u8, 121u8, 116u8, 101u8, 115u8, 62u8];
    let mut i: usize = 0;
    while i < 32
        invariant
            0 <= i <= 32,
            r@ == open_marker() + digest.bytes@.take(i as int),
        decreases 32 - i,
    {
        r.push(digest.bytes[i]);
        i = i + 1;
        assert(r@ =~= open_marker() + digest.bytes@.take(i as int));
    }
    let close: [u8; 8] = [60u8, 47u8, 66u8, 121u8, 116u8, 101u8, 115u8, 62u8];
    let mut j: usize = 0;
    while j < 8
        invariant
            0 <= j <= 8,
            close@ == close_marker(),
            r@ == open_marker() + digest.bytes@ + close_marker().take(j as int),
        decreases 8 - j,
    {
        r.push(close[j]);
        j = j + 1;
        assert(r@ =~= open_marker() + digest.bytes@ + close_marker().take(j as int));
    }
    assert(close_marker().take(8) =~= close_marker());
    r
}

/// The payload is the digest between the two markers, and two different
/// digests never give the same payload.
pub proof fn lemma_payload_injective(d1: Seq<u8>, d2: Seq<u8>)
    ensures
        payload_of(d1) == open_marker() + d1 + close_marker(),
        payload_of(d1) == payload_of(d2) ==> d1 == d2,
{
    if payload_of(d1) == payload_of(d2) {
        let n: int = open_marker().len() as int;
        assert(payload_of(d1).len() == open_marker().len() + d1.len() + close_marker().len());
        assert(payload_of(d2).len() == open_marker().len() + d2.len() + close_marker().len());
        assert(d1.len() == d2.len());
        assert(d1 =~= payload_of(d1).subrange(n, n + d1.len()));
        assert(d2 =~= payload_of(d2).subrange(n, n + d2.len()));
    }
}

/// Relies on `SecretUri::from_str` (subxt-signer): reads a mnemonic or
/// secret URI; `None` where the text has no such form.
#[verifier::external_body]
fn parse_secret_uri(phrase: &str) -> (r: Option<SecretUri>) {
    phrase.parse::<SecretUri>().ok()
}

/// Relies on `sr25519::Keypair::from_uri` (subxt-signer): derives the key
/// pair; `None` where the phrase or a derivation step is invalid.
#[verifier::external_body]
fn keypair_from_uri(uri: &SecretUri) -> (r: Option<Keypair>) {
    Keypair::from_uri(uri).ok()
}

/// Relies on `sr25519::Keypair::public_key` (subxt-signer): the 32 bytes of
/// the public key, which are also the account id.
#[verifier::external_body]
fn public_key_of(keypair: &Keypair) -> (r: AccountId) {
    keypair.public_key().0
}

/// Relies on `sr25519::Keypair::sign` (subxt-signer): a 64-byte signature
/// over the message. The signing nonce is random, so nothing more is stated.
#[verifier::external_body]
fn sign_message(keypair: &Keypair, message: &[u8]) -> (r: [u8; 64]) {
    keypair.sign(message).0
}

/// Derives the publisher's key pair from a mnemonic phrase or secret URI.
/// Every failure is reported as `InvalidMnemonic`.
pub fn create_keypair_from_mnemonic(mnemonic: &str) -> (r: Result<Keypair, EduNewsError>)
    ensures
        r is Err ==> r->Err_0 is InvalidMnemonic,
{
    match parse_secret_uri(mnemonic) {
        None => Err(EduNewsError::InvalidMnemonic),
        Some(uri) => match keypair_from_uri(&uri) {
            None => Err(EduNewsError::InvalidMnemonic),
            Some(k) => Ok(k),
        },
    }
}

/// A binding signature, with the account that made it and the exact
/// message that was signed.
#[derive(Clone, Debug, PartialEq, Eq)]
pub struct BindingSignature {
    pub signer: AccountId,
    pub payload: Vec<u8>,
    pub signature: [u8; 64],
}

/// A publisher's key pair together with the account id it controls: the
/// account that owns the minted units is the one that signs the binding.
pub struct PublisherKey {
    keypair: Keypair,
    account: AccountId,
}

impl PublisherKey {
    pub closed spec fn account_spec(&self) -> AccountId {
        self.account
    }

    /// Takes a key pair and records its account id.
    pub fn from_keypair(keypair: Keypair) -> (r: PublisherKey) {
        let account = public_key_of(&keypair);
        PublisherKey { keypair, account }
    }

    /// The account id of the key, as the ledgers know it.
    pub fn account(&self) -> (r: AccountId)
        ensures
            r == self.account_spec(),
    {
        self.account
    }

    /// The binding signature over a digest: the message signed is exactly
    /// the signing payload of the digest, and the signer is this key's account.
    pub fn sign_digest(&self, digest: &ContentDigest) -> (r: BindingSignature)
        ensures
            r.signer == self.account_spec(),
            r.payload@ == payload_of(digest.bytes@),
    {
        let payload = signing_payload(digest);
        let signature = sign_message(&self.keypair, payload.as_slice());
        BindingSignature { signer: self.account, payload, signature }
    }
}

} // verus!
