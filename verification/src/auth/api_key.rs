use crate::auth::{OrgId, Scope};
use crate::clock::Timestamp;
use crate::ids::Id;
use vstd::prelude::*;

verus! {

pub type ApiKeyId = Id;

/// What is kept of an API key: its hash, never the key itself.
#[derive(Debug, PartialEq)]
pub struct ApiKey {
    pub id: ApiKeyId,
    pub org_id: OrgId,
    pub name: String,
    /// The first sixteen characters of the key, by which it is looked up.
    pub key_prefix: String,
    /// The bcrypt hash of the whole key.
    pub key_hash: String,
    pub scopes: Vec<Scope>,
    pub created_at: Timestamp,
    pub last_used_at: Option<Timestamp>,
    pub expires_at: Option<Timestamp>,
}

/// A new API key as its owner sees it, once.
#[derive(Debug, PartialEq)]
pub struct GeneratedApiKey {
    pub id: ApiKeyId,
    pub key: String,
    pub key_prefix: String,
}

/// Every API key starts with this.
pub const KEY_PREFIX: &'static str = "tw_sk_";

/// An API key holds this many random bytes.
pub const KEY_BYTES: usize = 24;

/// The lookup prefix of an API key has this many characters.
pub const PREFIX_LEN: usize = 16;

/// The URL-safe base64 text of a sequence of bytes, without padding.
pub uninterp spec fn base64_url_text(bytes: Seq<u8>) -> Seq<char>;

/// True when bcrypt finds that a hash was made from a key.
pub uninterp spec fn bcrypt_matches(key: Seq<char>, hash: Seq<char>) -> bool;

/// `rand::RngCore::fill_bytes` of the thread's generator on a buffer of
/// `n` bytes: `n` bytes of chance.
#[verifier::external_body]
pub(crate) fn random_bytes(n: usize) -> (v: Vec<u8>)
    ensures
        v.len() == n,
{
    let mut v = vec![0u8; n];
    rand::RngCore::fill_bytes(&mut rand::thread_rng(), &mut v);
    v
}

/// `encode` of base64's `URL_SAFE_NO_PAD` engine: the text of the bytes,
/// four characters for every three bytes, rounded up.
#[verifier::external_body]
pub(crate) fn base64_url(bytes: &[u8]) -> (s: String)
    ensures
        s@ == base64_url_text(bytes@),
        s@.len() == (4 * bytes@.len() + 2) / 3,
{
    base64::Engine::encode(&base64::engine::general_purpose::URL_SAFE_NO_PAD, bytes)
}

/// `bcrypt::hash` at the default cost: a hash that bcrypt finds to match
/// the key, with a salt of chance; `None` where the system gave no
/// randomness.
#[verifier::external_body]
fn bcrypt_hash(key: &str) -> (r: Option<String>)
    ensures
        r matches Some(h) ==> bcrypt_matches(key@, h@),
{
    bcrypt::hash(key, bcrypt::DEFAULT_COST).ok()
}

/// `bcrypt::verify`, with a hash that cannot be read counted as no match.
#[verifier::external_body]
fn bcrypt_verify(key: &str, hash: &str) -> (r: bool)
    ensures
        r == bcrypt_matches(key@, hash@),
{
    bcrypt::verify(key, hash).unwrap_or(false)
}

/// True for a text that has the form of an API key: it starts with
/// `tw_sk_` and is at least twenty-two characters long.
pub open spec fn spec_is_api_key(s: Seq<char>) -> bool {
    "tw_sk_"@.is_prefix_of(s) && s.len() >= 22
}

/// The lookup prefix of a key: its first sixteen characters.
pub open spec fn spec_prefix(s: Seq<char>) -> Option<Seq<char>> {
    if spec_is_api_key(s) {
        Some(s.subrange(0, 16))
    } else {
        None
    }
}

/// Hashes an API key for keeping.  `None` where the system gave no
/// randomness for the salt.
pub fn hash_api_key(key: &str) -> (r: Option<String>)
    ensures
        r matches Some(h) ==> bcrypt_matches(key@, h@),
{
    bcrypt_hash(key)
}

/// True when `hash` was made from `key`.
pub fn verify_api_key(key: &str, hash: &str) -> (r: bool)
    ensures
        r == bcrypt_matches(key@, hash@),
{
    bcrypt_verify(key, hash)
}

/// True for a text that has the form of an API key.
pub fn is_api_key(s: &str) -> (r: bool)
    ensures
        r == spec_is_api_key(s@),
{
    crate::text::str_starts_with(s, KEY_PREFIX) && s.unicode_len() >= 22
}

/// The lookup prefix of a key; `None` for a text that has not the form of
/// an API key.
pub fn extract_prefix(key: &str) -> (r: Option<&str>)
    ensures
        crate::text::opt_str(r) == spec_prefix(key@),
{
    if is_api_key(key) {
        Some(key.substring_char(0, PREFIX_LEN))
    } else {
        None
    }
}

/// The key that the random bytes `random` make, with what is kept of it
/// under a hash that bcrypt makes of the key; `None` where it made none.
pub fn api_key_from(
    org_id: OrgId,
    name: String,
    scopes: Vec<Scope>,
    id: ApiKeyId,
    random: &[u8],
    now: Timestamp,
) -> (r: Option<(GeneratedApiKey, ApiKey)>)
    requires
        random@.len() == KEY_BYTES,
    ensures
        match r {
            Some((shown, kept)) => {
                &&& shown.key@ == "tw_sk_"@ + base64_url_text(random@)
                &&& shown.key@.len() == 38
                &&& spec_is_api_key(shown.key@)
                &&& spec_prefix(shown.key@) == Some(shown.key_prefix@)
                &&& shown.id == id
                &&& kept.id == id
                &&& kept.org_id == org_id
                &&& kept.name@ == name@
                &&& kept.key_prefix@ == shown.key_prefix@
                &&& bcrypt_matches(shown.key@, kept.key_hash@)
                &&& kept.scopes@ == scopes@
                &&& kept.created_at == now
                &&& kept.last_used_at.is_none()
                &&& kept.expires_at.is_none()
            },
            None => true,
        },
{
    let part = base64_url(random);
    let full = crate::text::concat(KEY_PREFIX, part.as_str());
    proof {
        reveal_strlit("tw_sk_");
        assert("tw_sk_"@.is_prefix_of(full@)) by {
            assert(full@.subrange(0, 6) =~= "tw_sk_"@);
        }
    }
    let key_hash = match hash_api_key(full.as_str()) {
        Some(h) => h,
        None => {
            return None;
        },
    };
    let ghost hashed = key_hash@;
    let made = api_key_with_hash(
        org_id,
        name,
        scopes,
        id,
        random,
        key_hash,
        now,
    );
    proof {
        assert(made.0.key@ == full@);
        assert(bcrypt_matches(made.0.key@, hashed));
    }
    Some(made)
}

/// Makes a new API key of 24 random bytes and what is kept of it, under a
/// fresh identifier.  The key is shown to its owner once; only its prefix
/// and its hash are kept.  `None` where bcrypt made no hash.
pub fn generate_api_key(org_id: OrgId, name: String, scopes: Vec<Scope>) -> (r: Option<
    (GeneratedApiKey, ApiKey),
>)
    ensures
        match r {
            Some((shown, kept)) => {
                &&& made_of_random_bytes(shown.key@)
                &&& crate::ids::is_time_ordered(shown.id)
                &&& shown.key@.len() == 38
                &&& spec_is_api_key(shown.key@)
                &&& spec_prefix(shown.key@) == Some(shown.key_prefix@)
                &&& kept.id == shown.id
                &&& kept.org_id == org_id
                &&& kept.name@ == name@
                &&& kept.key_prefix@ == shown.key_prefix@
                &&& bcrypt_matches(shown.key@, kept.key_hash@)
                &&& kept.scopes@ == scopes@
                &&& kept.last_used_at.is_none()
                &&& kept.expires_at.is_none()
            },
            None => true,
        },
{
    let id = crate::ids::fresh_id();
    let random = random_bytes(KEY_BYTES);
    let now = crate::clock::now();
    let r = api_key_from(org_id, name, scopes, id, random.as_slice(), now);
    proof {
        if r.is_some() {
            assert(key_text(random@) == r.unwrap().0.key@);
        }
    }
    r
}

/// The text of the key that the random bytes `random` make: `tw_sk_` and
/// the URL-safe base64 text of the bytes.
pub open spec fn key_text(random: Seq<u8>) -> Seq<char> {
    "tw_sk_"@ + base64_url_text(random)
}

/// True when `key` is the text of the key that some 24 bytes make.
pub open spec fn made_of_random_bytes(key: Seq<char>) -> bool {
    exists|random: Seq<u8>| random.len() == KEY_BYTES && #[trigger] key_text(random) == key
}

fn key_of(random: &[u8]) -> (key: String)
    requires
        random@.len() == KEY_BYTES,
    ensures
        key@ == key_text(random@),
        key@.len() == 38,
        spec_is_api_key(key@),
{
    let part = base64_url(random);
    let full = crate::text::concat(KEY_PREFIX, part.as_str());
    proof {
        reveal_strlit("tw_sk_");
        assert("tw_sk_"@.is_prefix_of(full@)) by {
            assert(full@.subrange(0, 6) =~= "tw_sk_"@);
        }
    }
    full
}

/// The key that the random bytes `random` make, with what is kept of it
/// under the hash `key_hash`: the key is shown under the identifier `id`;
/// its first sixteen characters are its prefix; what is kept has no use
/// and no expiry yet.
pub fn api_key_with_hash(
    org_id: OrgId,
    name: String,
    scopes: Vec<Scope>,
    id: ApiKeyId,
    random: &[u8],
    key_hash: String,
    now: Timestamp,
) -> (r: (GeneratedApiKey, ApiKey))
    requires
        random@.len() == KEY_BYTES,
    ensures
        r.0.id == id,
        r.0.key@ == key_text(random@),
        r.0.key@.len() == 38,
        spec_is_api_key(r.0.key@),
        r.0.key_prefix@ == key_text(random@).subrange(0, 16),
        spec_prefix(r.0.key@) == Some(r.0.key_prefix@),
        r.1.id == id,
        r.1.org_id == org_id,
        r.1.name@ == name@,
        r.1.key_prefix@ == r.0.key_prefix@,
        r.1.key_hash@ == key_hash@,
        r.1.scopes@ == scopes@,
        r.1.created_at == now,
        r.1.last_used_at.is_none(),
        r.1.expires_at.is_none(),
{
    let full = key_of(random);
    let key_prefix = full.as_str().substring_char(0, PREFIX_LEN).to_owned();
    let kept_prefix = key_prefix.clone();
    let shown = GeneratedApiKey { id, key: full, key_prefix };
    let kept = ApiKey {
        id,
        org_id,
        name,
        key_prefix: kept_prefix,
        key_hash,
        scopes,
        created_at: now,
        last_used_at: None,
        expires_at: None,
    };
    (shown, kept)
}

} // verus!
