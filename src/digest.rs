use vstd::prelude::*;
use vstd::string::*;
use vstd::utf8::is_ascii_chars;

use blake2::Digest;

use crate::error::EduNewsError;

verus! {

broadcast use vstd::string::is_ascii_spec_bytes;

/// Number of bytes in a content digest.
pub const DIGEST_LEN: usize = 32;

/// What BLAKE2b with a 32-byte output gives for `data`.
pub uninterp spec fn blake2b_256(data: Seq<u8>) -> Seq<u8>;

/// A lowercase hexadecimal digit.
pub open spec fn is_lower_hex_digit(c: char) -> bool {
    ('0' <= c && c <= '9') || ('a' <= c && c <= 'f')
}

/// A hexadecimal digit of either case.
pub open spec fn is_hex_digit(c: char) -> bool {
    is_lower_hex_digit(c) || ('A' <= c && c <= 'F')
}

/// The value of a hexadecimal digit.
pub open spec fn hex_value(c: char) -> int {
    if '0' <= c && c <= '9' {
        c as int - '0' as int
    } else if 'a' <= c && c <= 'f' {
        c as int - 'a' as int + 10
    } else {
        c as int - 'A' as int + 10
    }
}

/// `s` spells out the bytes `b`, two digits per byte, high digit first.
pub open spec fn spells_bytes(s: Seq<char>, b: Seq<u8>) -> bool {
    &&& s.len() == 2 * b.len()
    &&& forall|i: int|
        0 <= i < b.len() ==> {
            &&& is_hex_digit(#[trigger] s[2 * i])
            &&& is_hex_digit(s[2 * i + 1])
            &&& hex_value(s[2 * i]) * 16 + hex_value(s[2 * i + 1]) == #[trigger] b[i]
        }
}

/// `s` is the lowercase hexadecimal text of the bytes `b`.
pub open spec fn is_hex_of(s: Seq<char>, b: Seq<u8>) -> bool {
    &&& spells_bytes(s, b)
    &&& forall|j: int| 0 <= j < s.len() ==> is_lower_hex_digit(#[trigger] s[j])
}

/// `s` is `0x` followed by the lowercase hexadecimal text of `b`.
pub open spec fn is_prefixed_hex_of(s: Seq<char>, b: Seq<u8>) -> bool {
    &&& s.len() >= 2
    &&& s.subrange(0, 2) == "0x"@
    &&& is_hex_of(s.subrange(2, s.len() as int), b)
}

/// `s` with one leading `0x` taken off, if it has one.
pub open spec fn strip_hex_prefix(s: Seq<char>) -> Seq<char> {
    if s.len() >= 2 && s[0] == '0' && s[1] == 'x' {
        s.subrange(2, s.len() as int)
    } else {
        s
    }
}

/// A well-formed digest text: an optional `0x` and exactly 64 hexadecimal digits.
pub open spec fn is_digest_text(s: Seq<char>) -> bool {
    let body = strip_hex_prefix(s);
    &&& body.len() == 2 * DIGEST_LEN
    &&& forall|j: int| 0 <= j < body.len() ==> is_hex_digit(#[trigger] body[j])
}

/// The fixed-size digest of an article's content; the key that joins the ledgers.
#[derive(Clone, Copy, Debug, PartialEq, Eq)]
pub struct ContentDigest {
    pub bytes: [u8; 32],
}

impl ContentDigest {
    /// The digest as `0x` followed by 64 lowercase hexadecimal digits.
    pub fn to_hex_prefixed(&self) -> (r: String)
        ensures
            r@.len() == 2 + 2 * DIGEST_LEN,
            is_prefixed_hex_of(r@, self.bytes@),
    {
        let digits = encode_hex(&self.bytes);
        let r = "0x".to_owned().concat(digits.as_str());
        proof {
            reveal_strlit("0x");
            assert(r@.subrange(2, r@.len() as int) =~= digits@);
            assert(r@.subrange(0, 2) =~= "0x"@);
        }
        r
    }
}

/// Relies on blake2's `Blake2b<U32>`: the 32-byte BLAKE2b digest of the input.
#[verifier::external_body]
fn blake2b_256_digest(data: &[u8]) -> (r: [u8; 32])
    ensures
        r@ == blake2b_256(data@),
{
    let mut hasher = blake2::Blake2b::<blake2::digest::consts::U32>::new();
    hasher.update(data);
    hasher.finalize().into()
}

/// Relies on hex::encode: two lowercase hexadecimal digits for each byte, in order.
#[verifier::external_body]
fn encode_hex(data: &[u8]) -> (r: String)
    ensures
        is_hex_of(r@, data@),
{
    hex::encode(data)
}

/// Relies on `H256::from_str` (fixed-hash): it drops one leading `0x` and
/// reads exactly 32 bytes of hexadecimal digits, high digit first.
#[verifier::external_body]
fn read_h256(s: &str) -> (r: Option<[u8; 32]>)
    ensures
        is_digest_text(s@) ==> r is Some && spells_bytes(strip_hex_prefix(s@), r->0@),
{
    match s.parse::<subxt::utils::H256>() {
        Ok(h) => Some(h.0),
        Err(_) => None,
    }
}

/// The digest of an article's content: BLAKE2b-256 of its UTF-8 bytes.
pub fn content_digest(content: &str) -> (r: ContentDigest)
    ensures
        r.bytes@ == blake2b_256(content.spec_bytes()),
{
    ContentDigest { bytes: blake2b_256_digest(content.as_bytes()) }
}

/// The digest of an article's content as 64 lowercase hexadecimal digits.
pub fn hash_content(content: &str) -> (r: String)
    ensures
        r@.len() == 2 * DIGEST_LEN,
        is_hex_of(r@, blake2b_256(content.spec_bytes())),
{
    let d = blake2b_256_digest(content.as_bytes());
    encode_hex(&d)
}

proof fn lemma_lower_digit_unique(c1: char, c2: char)
    requires
        is_lower_hex_digit(c1),
        is_lower_hex_digit(c2),
        hex_value(c1) == hex_value(c2),
    ensures
        c1 == c2,
{
}

/// There is one lowercase hexadecimal text of a byte sequence.
pub proof fn lemma_hex_text_unique(s1: Seq<char>, s2: Seq<char>, b: Seq<u8>)
    requires
        is_hex_of(s1, b),
        is_hex_of(s2, b),
    ensures
        s1 == s2,
{
    assert forall|j: int| 0 <= j < s1.len() implies s1[j] == s2[j] by {
        let i = j / 2;
        assert(0 <= i < b.len());
        assert(j == 2 * i || j == 2 * i + 1);
        let (h1, l1) = (hex_value(s1[2 * i]), hex_value(s1[2 * i + 1]));
        let (h2, l2) = (hex_value(s2[2 * i]), hex_value(s2[2 * i + 1]));
        assert(is_lower_hex_digit(s1[2 * i]) && is_lower_hex_digit(s1[2 * i + 1]));
        assert(is_lower_hex_digit(s2[2 * i]) && is_lower_hex_digit(s2[2 * i + 1]));
        assert(h1 * 16 + l1 == b[i] && h2 * 16 + l2 == b[i]);
        assert(h1 == h2 && l1 == l2) by (nonlinear_arith)
            requires
                h1 * 16 + l1 == h2 * 16 + l2,
                0 <= h1 < 16,
                0 <= l1 < 16,
                0 <= h2 < 16,
                0 <= l2 < 16,
        ;
        lemma_lower_digit_unique(s1[2 * i], s2[2 * i]);
        lemma_lower_digit_unique(s1[2 * i + 1], s2[2 * i + 1]);
    }
    assert(s1 =~= s2);
}

/// Hashing is deterministic: equal contents give the same digest and the
/// same 64-digit hexadecimal text, whichever call produced them.
pub proof fn lemma_hash_content_deterministic(
    content1: Seq<char>,
    content2: Seq<char>,
    text1: Seq<char>,
    text2: Seq<char>,
)
    requires
        content1 == content2,
        is_hex_of(text1, blake2b_256(vstd::utf8::encode_utf8(content1))),
        is_hex_of(text2, blake2b_256(vstd::utf8::encode_utf8(content2))),
    ensures
        text1 == text2,
{
    lemma_hex_text_unique(text1, text2, blake2b_256(vstd::utf8::encode_utf8(content1)));
}

/// The `0x`-prefixed text of a digest reads back as that digest: it is
/// well-formed digest text, and the only bytes it spells are the digest's.
pub proof fn lemma_digest_text_round_trip(s: Seq<char>, b: Seq<u8>, other: Seq<u8>)
    requires
        b.len() == DIGEST_LEN,
        is_prefixed_hex_of(s, b),
    ensures
        is_digest_text(s),
        spells_bytes(strip_hex_prefix(s), other) ==> other == b,
{
    reveal_strlit("0x");
    assert(s.subrange(0, 2)[0] == '0' && s.subrange(0, 2)[1] == 'x');
    let body = s.subrange(2, s.len() as int);
    assert(strip_hex_prefix(s) == body);
    assert forall|j: int| 0 <= j < body.len() implies is_hex_digit(#[trigger] body[j]) by {
        assert(is_lower_hex_digit(body[j]));
    }
    if spells_bytes(body, other) {
        assert forall|i: int| 0 <= i < b.len() implies other[i] == b[i] by {
            assert(hex_value(body[2 * i]) * 16 + hex_value(body[2 * i + 1]) == other[i]);
            assert(hex_value(body[2 * i]) * 16 + hex_value(body[2 * i + 1]) == b[i]);
        }
        assert(other =~= b);
    }
}

fn is_hex_byte(b: u8) -> (r: bool)
    ensures
        r == is_hex_digit(b as char),
{
    (48 <= b && b <= 57) || (97 <= b && b <= 102) || (65 <= b && b <= 70)
}

/// Reads a digest written as an optional `0x` and 64 hexadecimal digits.
/// Any other text is refused with `InvalidContentHash`, before anything is sent.
pub fn parse_content_hash(s: &str) -> (r: Result<ContentDigest, EduNewsError>)
    ensures
        is_digest_text(s@) <==> r is Ok,
        r is Ok ==> spells_bytes(strip_hex_prefix(s@), r->Ok_0.bytes@),
        r is Err ==> r->Err_0.is_invalid_hash_of(s@),
{
    let invalid = EduNewsError::InvalidContentHash { hash: s.to_owned() };
    if !s.is_ascii() {
        proof {
            if is_digest_text(s@) {
                lemma_digest_text_is_ascii(s@);
            }
        }
        return Err(invalid);
    }
    let bytes = s.as_bytes();
    let start: usize = if bytes.len() >= 2 && bytes[0] == 48 && bytes[1] == 120 {
        2
    } else {
        0
    };
    proof {
        assert(bytes@ =~= Seq::new(s@.len(), |i| s@[i] as u8));
        if start == 2 {
            assert(s@[0] == '0' && s@[1] == 'x');
        } else if s@.len() >= 2 {
            assert(!(s@[0] == '0' && s@[1] == 'x'));
        }
        assert(strip_hex_prefix(s@) =~= s@.subrange(start as int, s@.len() as int));
    }
    if bytes.len() - start != 2 * DIGEST_LEN {
        return Err(invalid);
    }
    let mut i: usize = start;
    while i < bytes.len()
        invariant
            start <= i <= bytes.len(),
            bytes@ == Seq::new(s@.len(), |k| s@[k] as u8),
            is_ascii_chars(s@),
            strip_hex_prefix(s@) == s@.subrange(start as int, s@.len() as int),
            invalid.is_invalid_hash_of(s@),
            forall|k: int| start <= k < i ==> is_hex_digit(#[trigger] s@[k]),
        decreases bytes.len() - i,
    {
        if !is_hex_byte(bytes[i]) {
            proof {
                assert(strip_hex_prefix(s@)[i - start] == s@[i as int]);
            }
            return Err(invalid);
        }
        i = i + 1;
    }
    proof {
        assert forall|j: int| 0 <= j < strip_hex_prefix(s@).len() implies is_hex_digit(
            #[trigger] strip_hex_prefix(s@)[j],
        ) by {
            assert(strip_hex_prefix(s@)[j] == s@[j + start]);
        }
    }
    match read_h256(s) {
        Some(b) => Ok(ContentDigest { bytes: b }),
        None => Err(invalid),
    }
}

proof fn lemma_digest_text_is_ascii(s: Seq<char>)
    requires
        is_digest_text(s),
    ensures
        is_ascii_chars(s),
{
    let body = strip_hex_prefix(s);
    let off: int = if s.len() >= 2 && s[0] == '0' && s[1] == 'x' { 2 } else { 0 };
    assert forall|k: int| 0 <= k < s.len() implies '\0' <= #[trigger] s[k] <= '\u{7f}' by {
        if k >= off {
            assert(body[k - off] == s[k]);
        }
    }
}

} // verus!
