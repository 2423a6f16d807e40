use crate::auth::api_key::{base64_url, base64_url_text, random_bytes};
use crate::auth::{Role, Scope};
use crate::trace::entities::{content_hash, sha256_hex};
use vstd::prelude::*;

verus! {

/// The scopes of an API key whose maker names none.
pub fn default_scopes() -> (v: Vec<Scope>)
    ensures
        v@ == Scope::spec_default_sdk(),
{
    Scope::default_sdk()
}

/// The role of an invitation that names none.
pub fn default_invite_role() -> (r: Role)
    ensures
        r == Role::Member,
{
    Role::Member
}

/// The `Set-Cookie` header that hands a client its session token for
/// seven days.
pub fn session_cookie(token: &str) -> (r: String)
    ensures
        r@ == "session="@ + token@ + "; HttpOnly; SameSite=Lax; Path=/; Max-Age=604800"@,
{
    crate::text::concat3("session=", token, "; HttpOnly; SameSite=Lax; Path=/; Max-Age=604800")
}

/// The `Set-Cookie` header that takes the session away from a client.
pub fn clear_session_cookie() -> (r: String)
    ensures
        r@ == "session=; HttpOnly; SameSite=Lax; Path=/; Max-Age=0"@,
{
    "session=; HttpOnly; SameSite=Lax; Path=/; Max-Age=0".to_owned()
}

/// A text in lower case, as the standard library turns it.
pub uninterp spec fn lowercase_of(s: Seq<char>) -> Seq<char>;

/// True for a letter or a digit of any script.
pub uninterp spec fn alphanumeric(c: char) -> bool;

/// `str::to_lowercase`: the text in lower case.
#[verifier::external_body]
pub(crate) fn lowercase(s: &str) -> (r: String)
    ensures
        r@ == lowercase_of(s@),
{
    s.to_lowercase()
}

/// `char::is_alphanumeric`: true for a letter or a digit.
#[verifier::external_body]
fn is_alphanumeric(c: char) -> (r: bool)
    ensures
        r == alphanumeric(c),
{
    c.is_alphanumeric()
}

/// `s` with a hyphen in the place of every character that is no letter
/// and no digit.
pub open spec fn hyphenated(s: Seq<char>) -> Seq<char> {
    Seq::new(
        s.len(),
        |i: int|
            if alphanumeric(s[i]) {
                s[i]
            } else {
                '-'
            },
    )
}

/// `s` without the hyphens at its start.
pub open spec fn without_leading_hyphens(s: Seq<char>) -> Seq<char>
    decreases s.len(),
{
    if s.len() > 0 && s[0] == '-' {
        without_leading_hyphens(s.drop_first())
    } else {
        s
    }
}

/// `s` without the hyphens at its end.
pub open spec fn without_trailing_hyphens(s: Seq<char>) -> Seq<char>
    decreases s.len(),
{
    if s.len() > 0 && s.last() == '-' {
        without_trailing_hyphens(s.drop_last())
    } else {
        s
    }
}

/// The slug of a name: the name in lower case, with a hyphen for every
/// character that is no letter and no digit, and without the hyphens at
/// its two ends.
pub open spec fn slug_of(name: Seq<char>) -> Seq<char> {
    without_trailing_hyphens(without_leading_hyphens(hyphenated(lowercase_of(name))))
}

/// The slug of a name.
pub fn slug_from_name(name: &str) -> (r: String)
    ensures
        r@ == slug_of(name@),
{
    let lower = lowercase(name);
    let chars = crate::text::to_chars(lower.as_str());
    let mut mapped: Vec<char> = Vec::new();
    let mut i: usize = 0;
    while i < chars.len()
        invariant
            i <= chars.len(),
            mapped.len() == i,
            forall|k: int| 0 <= k < i ==> mapped@[k] == hyphenated(chars@)[k],
        decreases chars.len() - i,
    {
        let c = chars[i];
        if is_alphanumeric(c) {
            mapped.push(c);
        } else {
            mapped.push('-');
        }
        i = i + 1;
    }
    assert(mapped@ =~= hyphenated(chars@));
    let mut from: usize = 0;
    assert(mapped@.skip(0) =~= mapped@);
    while from < mapped.len() && mapped[from] == '-'
        invariant
            from <= mapped.len(),
            without_leading_hyphens(mapped@) == without_leading_hyphens(mapped@.skip(from as int)),
        decreases mapped.len() - from,
    {
        proof {
            let rest = mapped@.skip(from as int);
            assert(rest[0] == mapped@[from as int]);
            assert(rest.drop_first() =~= mapped@.skip(from + 1));
        }
        from = from + 1;
    }
    proof {
        let rest = mapped@.skip(from as int);
        if from < mapped.len() {
            assert(rest[0] == mapped@[from as int]);
        }
    }
    let ghost body = mapped@.skip(from as int);
    let mut to: usize = mapped.len();
    assert(mapped@.subrange(from as int, to as int) =~= body);
    while to > from && mapped[to - 1] == '-'
        invariant
            from <= to <= mapped.len(),
            body == mapped@.skip(from as int),
            without_trailing_hyphens(body) == without_trailing_hyphens(
                mapped@.subrange(from as int, to as int),
            ),
        decreases to - from,
    {
        proof {
            let part = mapped@.subrange(from as int, to as int);
            assert(part.last() == mapped@[to - 1]);
            assert(part.drop_last() =~= mapped@.subrange(from as int, to - 1));
        }
        to = to - 1;
    }
    proof {
        let part = mapped@.subrange(from as int, to as int);
        if to > from {
            assert(part.last() == mapped@[to - 1]);
        }
    }
    crate::text::from_chars(&crate::text::slice(&mapped, from, to))
}

/// The hash under which a token is kept: the SHA-256 digest of its text,
/// in hexadecimal.
pub fn token_hash(token: &str) -> (r: String)
    ensures
        r@ == sha256_hex(vstd::utf8::encode_utf8(token@)),
        r@.len() == 64,
{
    content_hash(token.as_bytes())
}

/// The token that 32 random bytes make, and the hash under which it is
/// kept.
pub fn token_from(random: &[u8]) -> (r: (String, String))
    ensures
        r.0@ == base64_url_text(random@),
        r.0@.len() == (4 * random@.len() + 2) / 3,
        r.1@ == sha256_hex(vstd::utf8::encode_utf8(r.0@)),
{
    let token = base64_url(random);
    let hash = token_hash(token.as_str());
    (token, hash)
}

/// A new token for an invitation or for a change of password, and the
/// hash under which it is kept.
pub fn generate_token() -> (r: (String, String))
    ensures
        r.1@ == sha256_hex(vstd::utf8::encode_utf8(r.0@)),
        r.0@.len() == 43,
{
    let bytes = random_bytes(32);
    token_from(bytes.as_slice())
}

/// The name of the way in which the daemon lets requests in.
pub fn auth_mode(local_mode: bool) -> (r: &'static str)
    ensures
        r@ == if local_mode {
            "local"@
        } else {
            "cloud"@
        },
{
    if local_mode {
        "local"
    } else {
        "cloud"
    }
}

/// What the daemon offers beyond tracing: nothing without tenants; with
/// them, accounts, teams and API keys.
pub fn auth_features(local_mode: bool) -> (r: Vec<String>)
    ensures
        crate::text::texts_view(r@) == if local_mode {
            Seq::<Seq<char>>::empty()
        } else {
            seq!["auth"@, "teams"@, "api_keys"@]
        },
{
    let mut r: Vec<String> = Vec::new();
    if !local_mode {
        r.push("auth".to_owned());
        r.push("teams".to_owned());
        r.push("api_keys".to_owned());
        assert(crate::text::texts_view(r@) =~= seq!["auth"@, "teams"@, "api_keys"@]);
    } else {
        assert(crate::text::texts_view(r@) =~= Seq::<Seq<char>>::empty());
    }
    r
}

} // verus!
