use crate::api::auth_routes::{lowercase, lowercase_of};
use crate::auth::Plan;
use crate::ids::{uuid_parsed, Id};
use crate::json::text_i64;
use crate::text::{
    has_substring, lossy_text, opt_str, parts_view, split_on, stripped, utf8_lossy,
};
use vstd::prelude::*;

verus! {

/// The plan that a product stands for: what its metadata names, where it
/// names anything; else what its name holds, the largest plan first.
pub open spec fn product_plan(metadata_plan: Option<Seq<char>>, name: Seq<char>) -> Plan {
    match metadata_plan {
        Some(p) => if p == "pro"@ {
            Plan::Pro
        } else if p == "team"@ {
            Plan::Team
        } else if p == "enterprise"@ {
            Plan::Enterprise
        } else {
            Plan::Free
        },
        None => if has_substring(lowercase_of(name), "enterprise"@) {
            Plan::Enterprise
        } else if has_substring(lowercase_of(name), "team"@) {
            Plan::Team
        } else if has_substring(lowercase_of(name), "pro"@) {
            Plan::Pro
        } else {
            Plan::Free
        },
    }
}

/// The plan that a product stands for.
pub fn plan_from_product(metadata_plan: Option<&str>, name: &str) -> (r: Plan)
    ensures
        r == product_plan(opt_str(metadata_plan), name@),
{
    match metadata_plan {
        Some(p) => if crate::text::same_text(p, "pro") {
            Plan::Pro
        } else if crate::text::same_text(p, "team") {
            Plan::Team
        } else if crate::text::same_text(p, "enterprise") {
            Plan::Enterprise
        } else {
            Plan::Free
        },
        None => {
            let lower = lowercase(name);
            if crate::text::str_contains(lower.as_str(), "enterprise") {
                Plan::Enterprise
            } else if crate::text::str_contains(lower.as_str(), "team") {
                Plan::Team
            } else if crate::text::str_contains(lower.as_str(), "pro") {
                Plan::Pro
            } else {
                Plan::Free
            }
        },
    }
}

/// True for a subscription that is paid for or on trial.
pub open spec fn is_live(status: Seq<char>) -> bool {
    status == "active"@ || status == "trialing"@
}

/// The plan of an organisation after an event of its subscription.  A
/// subscription that starts, or comes back, gives the plan of its product
/// while it is live.  One that changes gives the plan of its product
/// while it is live, and the free plan once it is cancelled for good.  One
/// that is revoked or cancelled gives the free plan, unless it runs on to
/// the end of its period.  Anything else leaves the plan as it is.
pub open spec fn plan_after(
    event_type: Seq<char>,
    status: Seq<char>,
    cancel_at_period_end: bool,
    product: Plan,
    current: Plan,
) -> Plan {
    if event_type == "subscription.created"@ || event_type == "subscription.active"@ || event_type
        == "subscription.uncanceled"@ {
        if is_live(status) {
            product
        } else {
            current
        }
    } else if event_type == "subscription.updated"@ {
        if is_live(status) {
            product
        } else if status == "canceled"@ && !cancel_at_period_end {
            Plan::Free
        } else {
            current
        }
    } else if event_type == "subscription.revoked"@ || event_type == "subscription.canceled"@ {
        if status == "canceled"@ && event_type == "subscription.revoked"@ {
            Plan::Free
        } else if cancel_at_period_end {
            current
        } else {
            Plan::Free
        }
    } else {
        current
    }
}

/// The plan of an organisation after an event of its subscription.
pub fn plan_after_event(
    event_type: &str,
    status: &str,
    cancel_at_period_end: bool,
    product: Plan,
    current: Plan,
) -> (r: Plan)
    ensures
        r == plan_after(event_type@, status@, cancel_at_period_end, product, current),
{
    let live = crate::text::same_text(status, "active") || crate::text::same_text(
        status,
        "trialing",
    );
    let canceled = crate::text::same_text(status, "canceled");
    if crate::text::same_text(event_type, "subscription.created") || crate::text::same_text(
        event_type,
        "subscription.active",
    ) || crate::text::same_text(event_type, "subscription.uncanceled") {
        if live {
            product
        } else {
            current
        }
    } else if crate::text::same_text(event_type, "subscription.updated") {
        if live {
            product
        } else if canceled && !cancel_at_period_end {
            Plan::Free
        } else {
            current
        }
    } else if crate::text::same_text(event_type, "subscription.revoked") {
        if canceled {
            Plan::Free
        } else if cancel_at_period_end {
            current
        } else {
            Plan::Free
        }
    } else if crate::text::same_text(event_type, "subscription.canceled") {
        if cancel_at_period_end {
            current
        } else {
            Plan::Free
        }
    } else {
        current
    }
}

/// True for the events that tell of a subscription.
pub fn is_subscription_event(event_type: &str) -> (r: bool)
    ensures
        r == "subscription."@.is_prefix_of(event_type@),
{
    crate::text::str_starts_with(event_type, "subscription.")
}

/// The identifier that an optional text names.
pub open spec fn named_id(text: Option<Seq<char>>) -> Option<Id> {
    match text {
        Some(t) => uuid_parsed(t),
        None => None,
    }
}

/// The organisation that a subscription belongs to: what its own
/// metadata names; else what the customer is known as elsewhere; else what
/// the metadata of the customer names.
pub open spec fn org_of(
    subscription_org: Option<Seq<char>>,
    external_id: Option<Seq<char>>,
    customer_org: Option<Seq<char>>,
) -> Option<Id> {
    if named_id(subscription_org).is_some() {
        named_id(subscription_org)
    } else if named_id(external_id).is_some() {
        named_id(external_id)
    } else {
        named_id(customer_org)
    }
}

fn id_named(text: Option<&str>) -> (r: Option<Id>)
    ensures
        r == named_id(opt_str(text)),
{
    match text {
        Some(t) => crate::ids::parse_id(t),
        None => None,
    }
}

/// The organisation that a subscription belongs to.
pub fn resolve_org_id(
    subscription_org: Option<&str>,
    external_id: Option<&str>,
    customer_org: Option<&str>,
) -> (r: Option<Id>)
    ensures
        r == org_of(opt_str(subscription_org), opt_str(external_id), opt_str(customer_org)),
{
    let a = id_named(subscription_org);
    if a.is_some() {
        return a;
    }
    let b = id_named(external_id);
    if b.is_some() {
        return b;
    }
    id_named(customer_org)
}

/// Why a webhook was not believed.
#[derive(Clone, Copy, Debug, PartialEq, Eq, Structural)]
pub enum WebhookError {
    MissingId,
    MissingTimestamp,
    MissingSignature,
    InvalidTimestamp,
    /// The webhook was signed more than five minutes before or after now.
    TimestampOutOfTolerance,
    InvalidSecret,
    InvalidSignature,
}

impl WebhookError {
    /// The error in words.
    pub fn message(&self) -> (r: &'static str)
        ensures
            r@ == match *self {
                WebhookError::MissingId => "Missing webhook-id header"@,
                WebhookError::MissingTimestamp => "Missing webhook-timestamp header"@,
                WebhookError::MissingSignature => "Missing webhook-signature header"@,
                WebhookError::InvalidTimestamp => "Invalid webhook-timestamp"@,
                WebhookError::TimestampOutOfTolerance => "Webhook timestamp too old or too new"@,
                WebhookError::InvalidSecret => "Invalid webhook secret encoding"@,
                WebhookError::InvalidSignature => "Invalid webhook signature"@,
            },
    {
        match self {
            WebhookError::MissingId => "Missing webhook-id header",
            WebhookError::MissingTimestamp => "Missing webhook-timestamp header",
            WebhookError::MissingSignature => "Missing webhook-signature header",
            WebhookError::InvalidTimestamp => "Invalid webhook-timestamp",
            WebhookError::TimestampOutOfTolerance => "Webhook timestamp too old or too new",
            WebhookError::InvalidSecret => "Invalid webhook secret encoding",
            WebhookError::InvalidSignature => "Invalid webhook signature",
        }
    }
}

/// A webhook is believed for this many seconds before and after it was
/// signed.
pub const TOLERANCE_SECS: i64 = 300;

/// The standard base64 text of a sequence of bytes, with padding.
pub uninterp spec fn base64_text(bytes: Seq<u8>) -> Seq<char>;

/// The bytes that a standard base64 text stands for; `None` where the
/// text is no base64.
pub uninterp spec fn base64_decoded(text: Seq<char>) -> Option<Seq<u8>>;

/// The HMAC-SHA256 code of a message under a key.
pub uninterp spec fn hmac_sha256(key: Seq<u8>, message: Seq<u8>) -> Seq<u8>;

/// `encode` of base64's `STANDARD` engine: the text of the bytes.
#[verifier::external_body]
pub(crate) fn base64_standard(bytes: &[u8]) -> (s: String)
    ensures
        s@ == base64_text(bytes@),
{
    base64::Engine::encode(&base64::engine::general_purpose::STANDARD, bytes)
}

/// `decode` of base64's `STANDARD` engine: the bytes of the text.
#[verifier::external_body]
pub(crate) fn base64_decode(text: &str) -> (r: Option<Vec<u8>>)
    ensures
        match r {
            Some(v) => base64_decoded(text@) == Some(v@),
            None => base64_decoded(text@).is_none(),
        },
{
    base64::Engine::decode(&base64::engine::general_purpose::STANDARD, text).ok()
}

/// `Hmac<Sha256>` over the message with the key: the code of the message.
#[verifier::external_body]
fn hmac_code(key: &[u8], message: &[u8]) -> (code: Vec<u8>)
    ensures
        code@ == hmac_sha256(key@, message@),
{
    let mut mac = <hmac::Hmac<sha2::Sha256> as hmac::Mac>::new_from_slice(key).unwrap();
    hmac::Mac::update(&mut mac, message);
    hmac::Mac::finalize(mac).into_bytes().to_vec()
}

/// What is signed of a webhook: its identifier, the time of its signing
/// and its body, with a dot between two of them.
pub open spec fn signed_content(id: Seq<char>, timestamp: Seq<char>, body: Seq<u8>) -> Seq<u8> {
    vstd::utf8::encode_utf8(id + "."@ + timestamp + "."@ + utf8_lossy(body))
}

/// The key that a secret holds: what follows `whsec_`, or all of it, read
/// as base64.
pub open spec fn secret_key(secret: Seq<char>) -> Option<Seq<u8>> {
    match stripped(secret, "whsec_"@) {
        Some(rest) => base64_decoded(rest),
        None => base64_decoded(secret),
    }
}

/// True when one of the signatures of the header, which blanks part, is
/// `v1,` and the expected signature.
pub open spec fn names_signature(parts: Seq<Seq<char>>, expected: Seq<char>) -> bool {
    exists|i: int| 0 <= i < parts.len() && stripped(#[trigger] parts[i], "v1,"@) == Some(expected)
}

/// What comes of checking a webhook against a secret at the second `now`:
/// the first of the checks that fails, in the order of the errors.
pub open spec fn webhook_check(
    body: Seq<u8>,
    id: Option<Seq<char>>,
    timestamp: Option<Seq<char>>,
    signature: Option<Seq<char>>,
    secret: Seq<char>,
    now: i64,
) -> Result<(), WebhookError> {
    if id.is_none() {
        Err(WebhookError::MissingId)
    } else if timestamp.is_none() {
        Err(WebhookError::MissingTimestamp)
    } else if signature.is_none() {
        Err(WebhookError::MissingSignature)
    } else {
        match text_i64(timestamp.unwrap()) {
            None => Err(WebhookError::InvalidTimestamp),
            Some(ts) => if now - ts > TOLERANCE_SECS || ts - now > TOLERANCE_SECS {
                Err(WebhookError::TimestampOutOfTolerance)
            } else {
                match secret_key(secret) {
                    None => Err(WebhookError::InvalidSecret),
                    Some(key) => if names_signature(
                        split_on(signature.unwrap(), ' '),
                        base64_text(
                            hmac_sha256(key, signed_content(id.unwrap(), timestamp.unwrap(), body)),
                        ),
                    ) {
                        Ok(())
                    } else {
                        Err(WebhookError::InvalidSignature)
                    },
                }
            },
        }
    }
}

fn parse_seconds(text: &str) -> (r: Option<i64>)
    ensures
        r == text_i64(text@),
{
    crate::json::Json::Number(text.to_owned()).as_i64()
}

/// Checks that a webhook was signed with the secret, not more than five
/// minutes before or after the second `now`.
#[verifier::loop_isolation(false)]
pub fn verify_webhook_signature(
    body: &[u8],
    id: Option<&str>,
    timestamp: Option<&str>,
    signature: Option<&str>,
    secret: &str,
    now: i64,
) -> (r: Result<(), WebhookError>)
    ensures
        r == webhook_check(body@, opt_str(id), opt_str(timestamp), opt_str(signature), secret@, now),
{
    let id = match id {
        Some(v) => v,
        None => {
            return Err(WebhookError::MissingId);
        },
    };
    let timestamp = match timestamp {
        Some(v) => v,
        None => {
            return Err(WebhookError::MissingTimestamp);
        },
    };
    let signature = match signature {
        Some(v) => v,
        None => {
            return Err(WebhookError::MissingSignature);
        },
    };
    let ts = match parse_seconds(timestamp) {
        Some(v) => v,
        None => {
            return Err(WebhookError::InvalidTimestamp);
        },
    };
    let delta: i128 = now as i128 - ts as i128;
    if delta > TOLERANCE_SECS as i128 || -delta > TOLERANCE_SECS as i128 {
        return Err(WebhookError::TimestampOutOfTolerance);
    }
    let secret_chars = crate::text::to_chars(secret);
    let prefix = crate::text::to_chars("whsec_");
    let key = match crate::text::strip_prefix(&secret_chars, &prefix) {
        Some(rest) => base64_decode(crate::text::from_chars(&rest).as_str()),
        None => base64_decode(secret),
    };
    let key = match key {
        Some(k) => k,
        None => {
            return Err(WebhookError::InvalidSecret);
        },
    };
    let head = crate::text::concat3(id, ".", timestamp);
    let content = crate::text::concat3(head.as_str(), ".", lossy_text(body).as_str());
    let code = hmac_code(key.as_slice(), content.as_str().as_bytes());
    let expected = base64_standard(code.as_slice());
    let expected_chars = crate::text::to_chars(expected.as_str());
    let parts = crate::text::split(&crate::text::to_chars(signature), ' ');
    let marker = crate::text::to_chars("v1,");
    let ghost all = parts_view(parts@);
    let ghost key_bytes = key@;
    let mut i: usize = 0;
    assert(content@ == id@ + "."@ + timestamp@ + "."@ + utf8_lossy(body@));
    assert(expected@ == base64_text(
        hmac_sha256(key_bytes, signed_content(id@, timestamp@, body@)),
    ));
    while i < parts.len()
        invariant
            i <= parts.len(),
            marker@ == "v1,"@,
            expected_chars@ == expected@,
            all == parts_view(parts@),
            all == split_on(signature@, ' '),
            forall|j: int|
                0 <= j < i ==> stripped(#[trigger] parts_view(parts@)[j], "v1,"@) != Some(expected@),
        decreases parts.len() - i,
    {
        assert(parts_view(parts@)[i as int] == parts[i as int]@);
        if let Some(rest) = crate::text::strip_prefix(&parts[i], &marker) {
            if crate::text::matches_at(&rest, &expected_chars, 0) && rest.len() == expected_chars.len() {
                assert(rest@ =~= expected@);
                assert(stripped(all[i as int], "v1,"@) == Some(expected@));
                assert(names_signature(all, expected@));
                return Ok(());
            }
            proof {
                if rest@ == expected@ {
                    assert(rest@.subrange(0, expected@.len() as int) =~= expected@);
                }
            }
        }
        i = i + 1;
    }
    Err(WebhookError::InvalidSignature)
}

} // verus!
