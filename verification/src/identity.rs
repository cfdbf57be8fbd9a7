//! The signed-in user's identifier and the claims of the access token.
//!
//! The identifier is the RFC 1924 base85 text of the SHA-256 digest of the UTF-8
//! bytes of the service's salt followed by the provider's subject identifier.
//! The token expires sixty days after it is issued.

use vstd::prelude::*;
use vstd::utf8::encode_utf8;
use sha2::Digest;

verus! {

/// What SHA-256 yields for the given bytes.
pub uninterp spec fn sha256_digest(data: Seq<u8>) -> Seq<u8>;

/// The RFC 1924 alphabet: base-85 digit `d` is written as its `d`-th character.
pub open spec fn rfc1924_alphabet() -> Seq<char> {
    seq![
        '0', '1', '2', '3', '4', '5', '6', '7', '8', '9',
        'A', 'B', 'C', 'D', 'E', 'F', 'G', 'H', 'I', 'J', 'K', 'L', 'M',
        'N', 'O', 'P', 'Q', 'R', 'S', 'T', 'U', 'V', 'W', 'X', 'Y', 'Z',
        'a', 'b', 'c', 'd', 'e', 'f', 'g', 'h', 'i', 'j', 'k', 'l', 'm',
        'n', 'o', 'p', 'q', 'r', 's', 't', 'u', 'v', 'w', 'x', 'y', 'z',
        '!', '#', '$', '%', '&', '(', ')', '*', '+', '-', ';', '<', '=',
        '>', '?', '@', '^', '_', '`', '{', '|', '}', '~',
    ]
}

/// The 85 characters of the RFC 1924 alphabet.
pub open spec fn is_rfc1924_char(c: char) -> bool {
    rfc1924_alphabet().contains(c)
}

/// The five base-85 digits of `v`, most significant first, as RFC 1924 characters.
pub open spec fn base85_group(v: int) -> Seq<char> {
    seq![
        rfc1924_alphabet()[v / 52200625],
        rfc1924_alphabet()[(v % 52200625) / 614125],
        rfc1924_alphabet()[(v % 614125) / 7225],
        rfc1924_alphabet()[(v % 7225) / 85],
        rfc1924_alphabet()[v % 85],
    ]
}

/// Byte `i` of `data`, or zero past its end.
pub open spec fn byte_or_zero(data: Seq<u8>, i: int) -> int {
    if i < data.len() {
        data[i] as int
    } else {
        0
    }
}

/// The RFC 1924 base85 text of `data`: each group of four bytes, read as a big-endian
/// number, is written as its five base-85 digits; a last group of one to three bytes is
/// padded with zero bytes and written as the first digits of the result, one more than
/// its bytes.
pub open spec fn base85_text(data: Seq<u8>) -> Seq<char>
    decreases data.len(),
{
    if data.len() == 0 {
        seq![]
    } else {
        let v = byte_or_zero(data, 0) * 16777216 + byte_or_zero(data, 1) * 65536
            + byte_or_zero(data, 2) * 256 + byte_or_zero(data, 3);
        if data.len() >= 4 {
            base85_group(v) + base85_text(data.skip(4))
        } else {
            base85_group(v).take(data.len() + 1int)
        }
    }
}

/// The length of the RFC 1924 base85 text of `n` bytes: five characters for each
/// whole group of four bytes, and one more than the leftover count for a partial group.
pub open spec fn base85_len(n: nat) -> nat {
    if n % 4 == 0 {
        (n / 4) * 5
    } else {
        (n / 4) * 5 + n % 4 + 1
    }
}

/// Every digit of a group is a character of the alphabet, for any value four bytes hold.
proof fn lemma_group_in_alphabet(v: int)
    requires
        0 <= v < 4294967296,
    ensures
        forall|i: int| 0 <= i < 5 ==> is_rfc1924_char(#[trigger] base85_group(v)[i]),
{
    let a = rfc1924_alphabet();
    assert(a.len() == 85);
    let d0 = v / 52200625;
    let d1 = (v % 52200625) / 614125;
    let d2 = (v % 614125) / 7225;
    let d3 = (v % 7225) / 85;
    let d4 = v % 85;
    assert(0 <= d0 < 85);
    assert(0 <= d1 < 85);
    assert(0 <= d2 < 85);
    assert(0 <= d3 < 85);
    assert(0 <= d4 < 85);
    assert(a.contains(a[d0]));
    assert(a.contains(a[d1]));
    assert(a.contains(a[d2]));
    assert(a.contains(a[d3]));
    assert(a.contains(a[d4]));
}

/// The base85 text has `base85_len` characters, each from the RFC 1924 alphabet.
pub proof fn lemma_base85_text(data: Seq<u8>)
    ensures
        base85_text(data).len() == base85_len(data.len()),
        forall|i: int|
            0 <= i < base85_text(data).len() ==> is_rfc1924_char(#[trigger] base85_text(data)[i]),
    decreases data.len(),
{
    if data.len() > 0 {
        let v = byte_or_zero(data, 0) * 16777216 + byte_or_zero(data, 1) * 65536
            + byte_or_zero(data, 2) * 256 + byte_or_zero(data, 3);
        lemma_group_in_alphabet(v);
        if data.len() >= 4 {
            lemma_base85_text(data.skip(4));
            let g = base85_group(v);
            let rest = base85_text(data.skip(4));
            assert(base85_text(data) == g + rest);
            assert forall|i: int| 0 <= i < base85_text(data).len() implies is_rfc1924_char(
                #[trigger] base85_text(data)[i],
            ) by {
                if i < 5 {
                    assert(base85_text(data)[i] == g[i]);
                } else {
                    assert(base85_text(data)[i] == rest[i - 5]);
                }
            }
        } else {
            let g = base85_group(v);
            assert forall|i: int| 0 <= i < base85_text(data).len() implies is_rfc1924_char(
                #[trigger] base85_text(data)[i],
            ) by {
                assert(base85_text(data)[i] == g[i]);
            }
        }
    }
}

/// `sha2::Sha256::digest` (the `Digest` trait's one-shot hash).
/// Claimed: the result is the 32-byte SHA-256 digest of `data`, named by `sha256_digest`.
#[verifier::external_body]
fn sha256(data: &[u8]) -> (digest: Vec<u8>)
    ensures
        digest@ == sha256_digest(data@),
        digest@.len() == 32,
{
    sha2::Sha256::digest(data).to_vec()
}

/// `base85::encode`.
/// Claimed: the result is the RFC 1924 base85 text of `data`, as `base85_text` states it.
#[verifier::external_body]
fn base85_encode(data: &[u8]) -> (text: String)
    ensures
        text@ == base85_text(data@),
{
    base85::encode(data)
}

/// The identifier of the user whom the provider knows as `open_id`, under `salt`.
pub open spec fn spec_user_id(salt: Seq<char>, open_id: Seq<char>) -> Seq<char> {
    base85_text(sha256_digest(encode_utf8(salt + open_id)))
}

/// The UTF-8 bytes of two strings one after the other are those of the first followed by
/// those of the second.
pub proof fn lemma_encode_utf8_concat(a: Seq<char>, b: Seq<char>)
    ensures
        encode_utf8(a + b) == encode_utf8(a) + encode_utf8(b),
    decreases a.len(),
{
    if a.len() == 0 {
        assert(a + b =~= b);
        assert(encode_utf8(a) + encode_utf8(b) =~= encode_utf8(b));
    } else {
        assert((a + b)[0] == a[0]);
        assert((a + b).drop_first() =~= a.drop_first() + b);
        lemma_encode_utf8_concat(a.drop_first(), b);
        assert(encode_utf8(a + b) =~= encode_utf8(a) + encode_utf8(b));
    }
}

/// The identifier of the user whom the provider knows as `open_id`: the base85 text of
/// the SHA-256 digest of the UTF-8 bytes of `salt` followed by `open_id`. It is always
/// forty characters of the RFC 1924 alphabet.
pub fn user_id_for(salt: &str, open_id: &str) -> (id: String)
    ensures
        id@ == spec_user_id(salt@, open_id@),
        id@ == base85_text(sha256_digest(encode_utf8(salt@) + encode_utf8(open_id@))),
        id@.len() == 40,
        forall|i: int| 0 <= i < id@.len() ==> is_rfc1924_char(#[trigger] id@[i]),
{
    let salted: String = salt.to_owned().concat(open_id);
    let digest = sha256(salted.as_str().as_bytes());
    proof {
        lemma_base85_text(digest@);
        lemma_encode_utf8_concat(salt@, open_id@);
    }
    base85_encode(digest.as_slice())
}

/// How long an access token stays valid: sixty days, in seconds.
pub const TOKEN_LIFETIME_SECS: i64 = 60 * 60 * 24 * 60;

/// The claims an access token carries.
pub struct TokenClaims {
    /// When the token expires, in seconds since the Unix epoch.
    pub exp: i64,
    /// The service's identifier of the user.
    pub user_id: String,
    /// The identity provider's subject identifier of the user.
    pub open_id: String,
}

/// The claims of a token issued at `now` (seconds since the Unix epoch): it expires
/// `TOKEN_LIFETIME_SECS` later and names the user by both identifiers.
pub fn token_claims(now: i64, user_id: String, open_id: String) -> (claims: TokenClaims)
    requires
        now <= i64::MAX - TOKEN_LIFETIME_SECS,
    ensures
        claims.exp == now + TOKEN_LIFETIME_SECS,
        claims.user_id@ == user_id@,
        claims.open_id@ == open_id@,
{
    TokenClaims { exp: now + TOKEN_LIFETIME_SECS, user_id, open_id }
}

} // verus!
