use crate::auth::api_key::{bcrypt_matches, hash_api_key};
use crate::auth::middleware::{ApiKeyRecord, AuthConfig};
use crate::auth::Scope;
use crate::text::{opt_str, opt_text, parts_view, split_on, trimmed};
use vstd::prelude::*;

verus! {

/// True for a key that the environment may name: it starts as an API key
/// and has the sixteen characters of a prefix.
pub open spec fn usable_key(key: Seq<char>) -> bool {
    "tw_sk_"@.is_prefix_of(key) && key.len() >= 16
}

/// The usable keys among a list of parts, each without the spaces around
/// it, in their order.
pub open spec fn usable_among(parts: Seq<Seq<char>>) -> Seq<Seq<char>>
    decreases parts.len(),
{
    if parts.len() == 0 {
        Seq::empty()
    } else if usable_key(trimmed(parts.last())) {
        usable_among(parts.drop_last()).push(trimmed(parts.last()))
    } else {
        usable_among(parts.drop_last())
    }
}

/// The keys that the environment names: the usable ones of the list,
/// which commas part, and after them the single key, where it is usable.
pub open spec fn env_keys(api_keys: Option<Seq<char>>, api_key: Option<Seq<char>>) -> Seq<Seq<char>> {
    let listed = match api_keys {
        Some(list) => usable_among(split_on(list, ',')),
        None => Seq::empty(),
    };
    match api_key {
        Some(key) => if usable_key(trimmed(key)) {
            listed.push(trimmed(key))
        } else {
            listed
        },
        None => listed,
    }
}

fn usable(key: &Vec<char>) -> (r: bool)
    ensures
        r == usable_key(key@),
{
    let prefix = crate::text::to_chars("tw_sk_");
    crate::text::starts_with(key, &prefix) && key.len() >= 16
}

/// The keys that the environment names, from the values of its two
/// variables.
pub fn accepted_env_keys(api_keys: Option<&str>, api_key: Option<&str>) -> (keys: Vec<String>)
    ensures
        crate::text::texts_view(keys@) == env_keys(opt_str(api_keys), opt_str(api_key)),
{
    let mut keys: Vec<String> = Vec::new();
    assert(crate::text::texts_view(keys@) =~= Seq::empty());
    if let Some(list) = api_keys {
        let chars = crate::text::to_chars(list);
        let parts = crate::text::split(&chars, ',');
        let ghost all = parts_view(parts@);
        let mut i: usize = 0;
        assert(all.take(0) =~= Seq::empty());
        while i < parts.len()
            invariant
                i <= parts.len(),
                all == parts_view(parts@),
                crate::text::texts_view(keys@) == usable_among(all.take(i as int)),
            decreases parts.len() - i,
        {
            proof {
                assert(all.take(i + 1).drop_last() =~= all.take(i as int));
                assert(all.take(i + 1).last() == parts[i as int]@);
            }
            let key = crate::text::trim(&parts[i]);
            if usable(&key) {
                let ghost before = crate::text::texts_view(keys@);
                keys.push(crate::text::from_chars(&key));
                assert(crate::text::texts_view(keys@) =~= before.push(key@));
            }
            i = i + 1;
        }
        assert(all.take(parts.len() as int) =~= all);
    }
    if let Some(single) = api_key {
        let key = crate::text::trim(&crate::text::to_chars(single));
        if usable(&key) {
            let ghost before = crate::text::texts_view(keys@);
            keys.push(crate::text::from_chars(&key));
            assert(crate::text::texts_view(keys@) =~= before.push(key@));
        }
    }
    keys
}

/// What is kept of the keys of a list of which a hash was made: the
/// first sixteen characters of each such key, and its hash, in the order
/// of the keys.
pub open spec fn kept_of(keys: Seq<Seq<char>>, hashes: Seq<Option<Seq<char>>>) -> Seq<
    (Seq<char>, Seq<char>),
>
    decreases keys.len(),
{
    if keys.len() == 0 || hashes.len() != keys.len() {
        Seq::empty()
    } else {
        let rest = kept_of(keys.drop_last(), hashes.drop_last());
        match hashes.last() {
            Some(h) => rest.push((keys.last().subrange(0, 16), h)),
            None => rest,
        }
    }
}

/// The values of a list of hashes, of which some may be missing.
pub open spec fn hashes_view(hashes: Seq<Option<String>>) -> Seq<Option<Seq<char>>> {
    Seq::new(hashes.len(), |i: int| opt_text(hashes[i]))
}

/// True when there is a place for a hash to each key, and each hash that
/// is there is one that bcrypt finds to match its key.
pub open spec fn hashes_match(keys: Seq<Seq<char>>, hashes: Seq<Option<Seq<char>>>) -> bool {
    &&& hashes.len() == keys.len()
    &&& forall|i: int|
        0 <= i < keys.len() ==> ((#[trigger] hashes[i]) matches Some(h) ==> bcrypt_matches(
            keys[i],
            h,
        ))
}

/// True when the records are what is kept: each under its prefix and its
/// hash, for the nil organisation, with every scope and without expiry.
pub open spec fn records_are(records: Seq<ApiKeyRecord>, kept: Seq<(Seq<char>, Seq<char>)>) -> bool {
    &&& records.len() == kept.len()
    &&& forall|j: int|
        0 <= j < records.len() ==> {
            let record = #[trigger] records[j];
            &&& record.prefix@ == kept[j].0
            &&& record.key_hash@ == kept[j].1
            &&& record.org_id == crate::ids::NIL
            &&& record.scopes@ == Scope::spec_all()
            &&& record.expires_at.is_none()
        }
}

/// True when the records are what is kept of the keys under hashes that
/// match them, whichever of the keys got a hash.
pub open spec fn hashed_lookup(records: Seq<ApiKeyRecord>, keys: Seq<Seq<char>>) -> bool {
    exists|hashes: Seq<Option<Seq<char>>>|
        hashes_match(keys, hashes) && #[trigger] records_are(records, kept_of(keys, hashes))
}

/// Looks API keys up among those that the environment named.  Each of
/// them speaks for the nil organisation with every scope.
#[derive(Debug, PartialEq)]
pub struct EnvApiKeyLookup {
    keys: Vec<ApiKeyRecord>,
}

impl EnvApiKeyLookup {
    /// What is kept of the keys.
    pub closed spec fn records(&self) -> Seq<ApiKeyRecord> {
        self.keys@
    }

    /// The lookup over a list of keys and the hash that was made of each.
    /// A key without a hash is left out; each other key is kept under its
    /// first sixteen characters, and speaks for the nil organisation with
    /// every scope and without expiry.
    pub fn from_hashes(keys: &Vec<String>, hashes: &Vec<Option<String>>) -> (r: EnvApiKeyLookup)
        requires
            hashes.len() == keys.len(),
            forall|i: int| 0 <= i < keys.len() ==> (#[trigger] keys[i])@.len() >= 16,
        ensures
            records_are(
                r.records(),
                kept_of(crate::text::texts_view(keys@), hashes_view(hashes@)),
            ),
    {
        let ghost all_keys = crate::text::texts_view(keys@);
        let ghost all_hashes = hashes_view(hashes@);
        let mut records: Vec<ApiKeyRecord> = Vec::new();
        let mut i: usize = 0;
        assert(all_keys.take(0) =~= Seq::empty());
        while i < keys.len()
            invariant
                i <= keys.len(),
                hashes.len() == keys.len(),
                all_keys == crate::text::texts_view(keys@),
                all_hashes == hashes_view(hashes@),
                forall|k: int| 0 <= k < keys.len() ==> (#[trigger] keys[k])@.len() >= 16,
                records_are(records@, kept_of(all_keys.take(i as int), all_hashes.take(i as int))),
            decreases keys.len() - i,
        {
            proof {
                assert(all_keys.take(i + 1).drop_last() =~= all_keys.take(i as int));
                assert(all_hashes.take(i + 1).drop_last() =~= all_hashes.take(i as int));
                assert(all_keys.take(i + 1).last() == keys[i as int]@);
                assert(all_hashes.take(i + 1).last() == opt_text(hashes[i as int]));
            }
            if let Some(key_hash) = &hashes[i] {
                assert(keys[i as int]@.len() >= 16);
                let chars = crate::text::to_chars(keys[i].as_str());
                let prefix = crate::text::from_chars(&crate::text::slice(&chars, 0, 16));
                records.push(
                    ApiKeyRecord {
                        prefix,
                        key_hash: key_hash.clone(),
                        org_id: crate::ids::NIL,
                        scopes: Scope::all(),
                        expires_at: None,
                    },
                );
            }
            i = i + 1;
        }
        assert(all_keys.take(keys.len() as int) =~= all_keys);
        assert(all_hashes.take(keys.len() as int) =~= all_hashes);
        EnvApiKeyLookup { keys: records }
    }

    /// The lookup over a list of keys, each under a hash that bcrypt makes
    /// of it.  A key of which bcrypt made no hash is left out.
    pub fn from_keys(keys: &Vec<String>) -> (r: EnvApiKeyLookup)
        requires
            forall|i: int| 0 <= i < keys.len() ==> (#[trigger] keys[i])@.len() >= 16,
        ensures
            hashed_lookup(r.records(), crate::text::texts_view(keys@)),
    {
        let ghost all_keys = crate::text::texts_view(keys@);
        let mut hashes: Vec<Option<String>> = Vec::new();
        let mut i: usize = 0;
        while i < keys.len()
            invariant
                i <= keys.len(),
                hashes.len() == i,
                all_keys == crate::text::texts_view(keys@),
                forall|k: int|
                    0 <= k < i ==> ((#[trigger] hashes[k]) matches Some(h) ==> bcrypt_matches(
                        keys[k]@,
                        h@,
                    )),
            decreases keys.len() - i,
        {
            hashes.push(hash_api_key(keys[i].as_str()));
            i = i + 1;
        }
        let r = EnvApiKeyLookup::from_hashes(keys, &hashes);
        proof {
            let made = hashes_view(hashes@);
            assert(hashes_match(all_keys, made)) by {
                assert forall|k: int| 0 <= k < all_keys.len() implies ((#[trigger] made[k]) matches Some(
                    h,
                ) ==> bcrypt_matches(all_keys[k], h)) by {
                    assert(made[k] == opt_text(hashes[k]));
                    assert(all_keys[k] == keys[k]@);
                }
            }
            assert(hashes_match(all_keys, made) && records_are(r.records(), kept_of(all_keys, made)));
        }
        r
    }

    /// The lookup over the keys that the environment names, from the
    /// values of its two variables, each under a hash that bcrypt makes of
    /// it.
    pub fn from_values(api_keys: Option<&str>, api_key: Option<&str>) -> (r: EnvApiKeyLookup)
        ensures
            hashed_lookup(r.records(), env_keys(opt_str(api_keys), opt_str(api_key))),
    {
        let keys = accepted_env_keys(api_keys, api_key);
        proof {
            lemma_env_keys_usable(opt_str(api_keys), opt_str(api_key));
            assert forall|i: int| 0 <= i < keys.len() implies (#[trigger] keys[i])@.len() >= 16 by {
                assert(crate::text::texts_view(keys@)[i] == keys[i]@);
            }
        }
        EnvApiKeyLookup::from_keys(&keys)
    }

    /// True when there is a key to look up.
    pub fn has_keys(&self) -> (r: bool)
        ensures
            r == (self.records().len() > 0),
    {
        self.keys.len() > 0
    }

    /// What is kept of the first key with the prefix `prefix`.
    pub fn lookup_api_key(&self, prefix: &str) -> (r: Option<&ApiKeyRecord>)
        ensures
            match r {
                Some(record) => exists|i: int|
                    0 <= i < self.records().len() && #[trigger] self.records()[i] == *record
                        && record.prefix@ == prefix@ && forall|j: int|
                        0 <= j < i ==> self.records()[j].prefix@ != prefix@,
                None => forall|i: int|
                    0 <= i < self.records().len() ==> (#[trigger] self.records()[i]).prefix@
                        != prefix@,
            },
    {
        let mut i: usize = 0;
        while i < self.keys.len()
            invariant
                i <= self.keys.len(),
                forall|j: int| 0 <= j < i ==> (#[trigger] self.keys@[j]).prefix@ != prefix@,
            decreases self.keys.len() - i,
        {
            if crate::text::same_text(self.keys[i].prefix.as_str(), prefix) {
                return Some(&self.keys[i]);
            }
            i = i + 1;
        }
        None
    }
}

proof fn lemma_usable_among(parts: Seq<Seq<char>>)
    ensures
        forall|i: int| 0 <= i < usable_among(parts).len() ==> usable_key(#[trigger] usable_among(parts)[i]),
    decreases parts.len(),
{
    if parts.len() > 0 {
        lemma_usable_among(parts.drop_last());
        let rest = usable_among(parts.drop_last());
        let all = usable_among(parts);
        assert forall|i: int| 0 <= i < all.len() implies usable_key(#[trigger] all[i]) by {
            if i < rest.len() {
                assert(all[i] == rest[i]);
            }
        }
    }
}

/// Every key that the environment names is usable.
pub proof fn lemma_env_keys_usable(api_keys: Option<Seq<char>>, api_key: Option<Seq<char>>)
    ensures
        forall|i: int|
            0 <= i < env_keys(api_keys, api_key).len() ==> usable_key(
                #[trigger] env_keys(api_keys, api_key)[i],
            ),
{
    let listed = match api_keys {
        Some(list) => usable_among(split_on(list, ',')),
        None => Seq::empty(),
    };
    if let Some(list) = api_keys {
        lemma_usable_among(split_on(list, ','));
    }
    let all = env_keys(api_keys, api_key);
    assert forall|i: int| 0 <= i < all.len() implies usable_key(#[trigger] all[i]) by {
        if i < listed.len() {
            assert(all[i] == listed[i]);
        }
    }
}

/// Finds no key: the lookup of a daemon without tenants.
#[derive(Clone, Copy, Debug, PartialEq, Eq, Structural)]
pub struct NoopApiKeyLookup;

impl NoopApiKeyLookup {
    /// Nothing, whatever the prefix.
    pub fn lookup_api_key(&self, prefix: &str) -> (r: Option<ApiKeyRecord>)
        ensures
            r.is_none(),
    {
        None
    }
}

/// How requests are let in, as the environment asks for it: with
/// tenants where the environment names the cloud or a backend, under the
/// secret that it sets, or under `fallback` where it sets none; without
/// tenants otherwise.
pub fn auth_config_from_values(
    cloud: bool,
    storage_backend: bool,
    jwt_secret: Option<String>,
    fallback: Vec<u8>,
) -> (c: AuthConfig)
    ensures
        c.local_mode == !(cloud || storage_backend),
        c.local_mode ==> c.jwt_secret@ == Seq::<u8>::empty(),
        !c.local_mode ==> c.jwt_secret@ == match jwt_secret {
            Some(s) => vstd::utf8::encode_utf8(s@),
            None => fallback@,
        },
{
    if cloud || storage_backend {
        match jwt_secret {
            Some(s) => AuthConfig::cloud(vstd::slice::slice_to_vec(s.as_str().as_bytes())),
            None => AuthConfig::cloud(fallback),
        }
    } else {
        AuthConfig::local()
    }
}

} // verus!
