use crate::api::billing::{
    org_of, plan_after, plan_after_event, plan_from_product, product_plan, resolve_org_id,
    verify_webhook_signature, webhook_check, WebhookError,
};
use crate::auth::{Organization, Plan};
use crate::clock::Timestamp;
use crate::ids::{uuid_text, Id};
use crate::json::{json_parsed, Json, JsonView};
use crate::text::{opt_str, opt_text};
use crate::trace::codec::{get_opt_str, opt_str_at};
use crate::wire::{get_str, str_at};
use vstd::prelude::*;

verus! {

/// What a webhook tells of a subscription.
#[derive(Debug, PartialEq)]
pub struct Subscription {
    pub event_type: String,
    pub status: String,
    pub cancel_at_period_end: bool,
    pub product_name: String,
    /// The plan that the metadata of the product names.
    pub product_plan: Option<String>,
    pub customer_email: String,
    pub external_id: Option<String>,
    /// The organisation that the metadata of the subscription names.
    pub subscription_org: Option<String>,
    /// The organisation that the metadata of the customer names.
    pub customer_org: Option<String>,
}

/// The mathematical value of a [`Subscription`].
pub struct SubscriptionView {
    pub event_type: Seq<char>,
    pub status: Seq<char>,
    pub cancel_at_period_end: bool,
    pub product_name: Seq<char>,
    pub product_plan: Option<Seq<char>>,
    pub customer_email: Seq<char>,
    pub external_id: Option<Seq<char>>,
    pub subscription_org: Option<Seq<char>>,
    pub customer_org: Option<Seq<char>>,
}

impl View for Subscription {
    type V = SubscriptionView;

    open spec fn view(&self) -> SubscriptionView {
        SubscriptionView {
            event_type: self.event_type@,
            status: self.status@,
            cancel_at_period_end: self.cancel_at_period_end,
            product_name: self.product_name@,
            product_plan: opt_text(self.product_plan),
            customer_email: self.customer_email@,
            external_id: opt_text(self.external_id),
            subscription_org: opt_text(self.subscription_org),
            customer_org: opt_text(self.customer_org),
        }
    }
}

/// The text under `name` in the metadata of an object, where the
/// metadata hold a text there.
pub open spec fn metadata_text(j: JsonView, name: Seq<char>) -> Option<Seq<char>> {
    match j.get("metadata"@) {
        Some(m) => str_at(m, name),
        None => None,
    }
}

/// The flag under `key`: not set where the field is missing; `None`
/// where something else than a flag stands there.
pub open spec fn flag_at(j: JsonView, key: Seq<char>) -> Option<bool> {
    match j.get(key) {
        None => Some(false),
        Some(JsonView::Bool(b)) => Some(b),
        Some(_) => None,
    }
}

/// What a payload tells of a subscription; `None` where it names no
/// event, or its data lack the status, the product with its name, or the
/// customer with the address, or a field is of another type.
pub open spec fn subscription_of(j: JsonView) -> Option<SubscriptionView> {
    match (str_at(j, "type"@), j.get("data"@)) {
        (Some(event_type), Some(data)) => match (
            str_at(data, "status"@),
            flag_at(data, "cancel_at_period_end"@),
            data.get("product"@),
            data.get("customer"@),
        ) {
            (Some(status), Some(cancel_at_period_end), Some(product), Some(customer)) => match (
                str_at(product, "name"@),
                str_at(customer, "email"@),
                opt_str_at(customer, "external_id"@),
            ) {
                (Some(product_name), Some(customer_email), Some(external_id)) => Some(
                    SubscriptionView {
                        event_type,
                        status,
                        cancel_at_period_end,
                        product_name,
                        product_plan: metadata_text(product, "traceway_plan"@),
                        customer_email,
                        external_id,
                        subscription_org: metadata_text(data, "org_id"@),
                        customer_org: metadata_text(customer, "org_id"@),
                    },
                ),
                _ => None,
            },
            _ => None,
        },
        _ => None,
    }
}

fn read_metadata(j: &Json, name: &str) -> (r: Option<String>)
    ensures
        opt_text(r) == metadata_text(j@, name@),
{
    match j.get("metadata") {
        Some(m) => match get_str(m, name) {
            Some(s) => Some(s.to_owned()),
            None => None,
        },
        None => None,
    }
}

fn read_flag(j: &Json, key: &str) -> (r: Option<bool>)
    ensures
        r == flag_at(j@, key@),
{
    match j.get(key) {
        None => Some(false),
        Some(v) => match v {
            Json::Bool(b) => Some(*b),
            _ => None,
        },
    }
}

impl Subscription {
    /// What a payload tells of a subscription.
    pub fn from_json(j: &Json) -> (r: Option<Subscription>)
        ensures
            match r {
                Some(s) => subscription_of(j@) == Some(s@),
                None => subscription_of(j@).is_none(),
            },
    {
        let event_type = get_str(j, "type");
        let data = j.get("data");
        match (event_type, data) {
            (Some(event_type), Some(data)) => {
                let status = get_str(data, "status");
                let cancel = read_flag(data, "cancel_at_period_end");
                match (status, cancel, data.get("product"), data.get("customer")) {
                    (Some(status), Some(cancel_at_period_end), Some(product), Some(customer)) => {
                        match (
                            get_str(product, "name"),
                            get_str(customer, "email"),
                            get_opt_str(customer, "external_id"),
                        ) {
                            (Some(product_name), Some(customer_email), Some(external_id)) => Some(
                                Subscription {
                                    event_type: event_type.to_owned(),
                                    status: status.to_owned(),
                                    cancel_at_period_end,
                                    product_name: product_name.to_owned(),
                                    product_plan: read_metadata(product, "traceway_plan"),
                                    customer_email: customer_email.to_owned(),
                                    external_id,
                                    subscription_org: read_metadata(data, "org_id"),
                                    customer_org: read_metadata(customer, "org_id"),
                                },
                            ),
                            _ => None,
                        }
                    },
                    _ => None,
                }
            },
            _ => None,
        }
    }

    /// The plan of the product of the subscription.
    pub fn plan(&self) -> (r: Plan)
        ensures
            r == product_plan(self@.product_plan, self@.product_name),
    {
        plan_from_product(crate::text::opt_as_str(&self.product_plan), self.product_name.as_str())
    }

    /// The organisation that the subscription belongs to.
    pub fn org_id(&self) -> (r: Option<Id>)
        ensures
            r == org_of(self@.subscription_org, self@.external_id, self@.customer_org),
    {
        resolve_org_id(
            crate::text::opt_as_str(&self.subscription_org),
            crate::text::opt_as_str(&self.external_id),
            crate::text::opt_as_str(&self.customer_org),
        )
    }
}

/// What comes of a webhook before the organisation is looked up.
#[derive(Debug, PartialEq)]
pub enum WebhookStep {
    /// The webhook is turned away with a status and a reason.
    Reject { status: u16, message: String },
    /// The webhook tells of nothing that changes a plan: the answer is
    /// 200.
    Ignore,
    /// The organisation is to be looked up.
    LoadOrg { org_id: Id, subscription: Subscription },
}

/// The mathematical value of a [`WebhookStep`].
pub enum WebhookStepView {
    Reject { status: u16, message: Seq<char> },
    Ignore,
    LoadOrg { org_id: Id, subscription: SubscriptionView },
}

impl View for WebhookStep {
    type V = WebhookStepView;

    open spec fn view(&self) -> WebhookStepView {
        match self {
            WebhookStep::Reject { status, message } => WebhookStepView::Reject {
                status: *status,
                message: message@,
            },
            WebhookStep::Ignore => WebhookStepView::Ignore,
            WebhookStep::LoadOrg { org_id, subscription } => WebhookStepView::LoadOrg {
                org_id: *org_id,
                subscription: subscription@,
            },
        }
    }
}

/// The words of an error of a webhook.
pub open spec fn error_text(e: WebhookError) -> Seq<char> {
    match e {
        WebhookError::MissingId => "Missing webhook-id header"@,
        WebhookError::MissingTimestamp => "Missing webhook-timestamp header"@,
        WebhookError::MissingSignature => "Missing webhook-signature header"@,
        WebhookError::InvalidTimestamp => "Invalid webhook-timestamp"@,
        WebhookError::TimestampOutOfTolerance => "Webhook timestamp too old or too new"@,
        WebhookError::InvalidSecret => "Invalid webhook secret encoding"@,
        WebhookError::InvalidSignature => "Invalid webhook signature"@,
    }
}

/// What comes of the payload of a webhook that is believed: 400 for a
/// payload that cannot be read; nothing for an event that tells of no
/// subscription; 503 where there is no store of accounts; 400 where the
/// organisation cannot be told; else the organisation is looked up.
pub open spec fn payload_step(body: Seq<u8>, store_configured: bool) -> WebhookStepView {
    let read = match json_parsed(body) {
        Some(j) => subscription_of(j),
        None => None,
    };
    match read {
        None => WebhookStepView::Reject { status: 400, message: "Invalid payload"@ },
        Some(s) => if !"subscription."@.is_prefix_of(s.event_type) {
            WebhookStepView::Ignore
        } else if !store_configured {
            WebhookStepView::Reject { status: 503, message: "Auth store not configured"@ }
        } else {
            match org_of(s.subscription_org, s.external_id, s.customer_org) {
                Some(org_id) => WebhookStepView::LoadOrg { org_id, subscription: s },
                None => WebhookStepView::Reject {
                    status: 400,
                    message: "Cannot determine org_id from webhook data"@,
                },
            }
        },
    }
}

/// What comes of a webhook: 403 with the reason where a secret is set
/// and the webhook is not signed with it; else what comes of its payload.
pub open spec fn received(
    body: Seq<u8>,
    id: Option<Seq<char>>,
    timestamp: Option<Seq<char>>,
    signature: Option<Seq<char>>,
    secret: Option<Seq<char>>,
    now: i64,
    store_configured: bool,
) -> WebhookStepView {
    match secret {
        Some(s) => match webhook_check(body, id, timestamp, signature, s, now) {
            Err(e) => WebhookStepView::Reject { status: 403, message: error_text(e) },
            Ok(_) => payload_step(body, store_configured),
        },
        None => payload_step(body, store_configured),
    }
}

fn reject(status: u16, message: &str) -> (r: WebhookStep)
    ensures
        r@ == (WebhookStepView::Reject { status, message: message@ }),
{
    WebhookStep::Reject { status, message: message.to_owned() }
}

fn read_payload(body: &[u8], store_configured: bool) -> (r: WebhookStep)
    ensures
        r@ == payload_step(body@, store_configured),
{
    let read = match crate::json::parse(body) {
        Some(j) => Subscription::from_json(&j),
        None => None,
    };
    let subscription = match read {
        Some(s) => s,
        None => {
            return reject(400, "Invalid payload");
        },
    };
    if !crate::api::billing::is_subscription_event(subscription.event_type.as_str()) {
        return WebhookStep::Ignore;
    }
    if !store_configured {
        return reject(503, "Auth store not configured");
    }
    match subscription.org_id() {
        Some(org_id) => WebhookStep::LoadOrg { org_id, subscription },
        None => reject(400, "Cannot determine org_id from webhook data"),
    }
}

/// Decides on a webhook at the second `now`, before the organisation is
/// looked up.
pub fn webhook_received(
    body: &[u8],
    id: Option<&str>,
    timestamp: Option<&str>,
    signature: Option<&str>,
    secret: Option<&str>,
    now: i64,
    store_configured: bool,
) -> (r: WebhookStep)
    ensures
        r@ == received(
            body@,
            opt_str(id),
            opt_str(timestamp),
            opt_str(signature),
            opt_str(secret),
            now,
            store_configured,
        ),
{
    if let Some(s) = secret {
        if let Err(e) = verify_webhook_signature(body, id, timestamp, signature, s, now) {
            return reject(403, e.message());
        }
    }
    read_payload(body, store_configured)
}

/// The message for an organisation that is not known.
pub fn org_not_found(org_id: Id) -> (r: String)
    ensures
        r@ == "Org "@ + uuid_text(org_id) + " not found"@,
{
    crate::text::concat3("Org ", crate::ids::id_to_string(org_id).as_str(), " not found")
}

/// The plan of an organisation after what a webhook tells of its
/// subscription.
pub open spec fn plan_of(s: SubscriptionView, current: Plan) -> Plan {
    plan_after(
        s.event_type,
        s.status,
        s.cancel_at_period_end,
        product_plan(s.product_plan, s.product_name),
        current,
    )
}

/// The organisation as it is to be kept after a webhook, at the instant
/// `now`: on its new plan; `None` where its plan stays as it is and
/// nothing is to be kept.
pub fn organization_after(org: Organization, subscription: &Subscription, now: Timestamp) -> (r: Option<
    Organization,
>)
    ensures
        plan_of(subscription@, org.plan) == org.plan ==> r.is_none(),
        plan_of(subscription@, org.plan) != org.plan ==> r == Some(
            Organization { plan: plan_of(subscription@, org.plan), updated_at: now, ..org },
        ),
{
    let new_plan = plan_after_event(
        subscription.event_type.as_str(),
        subscription.status.as_str(),
        subscription.cancel_at_period_end,
        subscription.plan(),
        org.plan,
    );
    if new_plan == org.plan {
        None
    } else {
        let mut changed = org;
        changed.plan = new_plan;
        changed.updated_at = now;
        Some(changed)
    }
}

} // verus!
