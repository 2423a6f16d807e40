use crate::json::{Json, JsonView};
use crate::text::decimal;
use vstd::prelude::*;

verus! {

/// A letter to be sent.
#[derive(Debug, PartialEq)]
pub struct Email {
    pub to: String,
    pub subject: String,
    pub html: String,
}

/// Why a letter was not sent.
#[derive(Debug, PartialEq)]
pub enum EmailError {
    Http(String),
    Api { status: u16, message: String },
    NotConfigured,
}

impl EmailError {
    /// The error in words.
    pub fn message(&self) -> (s: String)
        ensures
            s@ == match *self {
                EmailError::Http(m) => "HTTP error: "@ + m@,
                EmailError::Api { status, message } => "API error ("@ + decimal(status as nat)
                    + "): "@ + message@,
                EmailError::NotConfigured => "Not configured"@,
            },
    {
        match self {
            EmailError::Http(m) => crate::text::concat("HTTP error: ", m.as_str()),
            EmailError::Api { status, message } => {
                let head = crate::text::concat(
                    "API error (",
                    crate::text::u64_to_string(*status as u64).as_str(),
                );
                crate::text::concat3(head.as_str(), "): ", message.as_str())
            },
            EmailError::NotConfigured => "Not configured".to_owned(),
        }
    }
}

/// Sends nothing: the sender of a daemon without tenants.
#[derive(Clone, Copy, Debug, PartialEq, Eq, Structural)]
pub struct NoopEmailSender;

impl NoopEmailSender {
    /// Lets the letter go unsent, and reports no error.
    pub fn send(&self, email: &Email) -> (r: Result<(), EmailError>)
        ensures
            r.is_ok(),
    {
        Ok(())
    }
}

/// Who a letter comes from unless the configuration says otherwise.
pub const DEFAULT_FROM: &'static str = "Traceway <noreply@traceway.dev>";

/// Where letters are handed in.
pub const RESEND_URL: &'static str = "https://api.resend.com/emails";

/// What comes of handing a letter in: no error for an answer with a
/// status in the 200s, else the status with what the service said.
pub fn delivery(status: u16, body: String) -> (r: Result<(), EmailError>)
    ensures
        (200 <= status < 300) ==> r.is_ok(),
        !(200 <= status < 300) ==> (r matches Err(EmailError::Api { status: s, message }) && s
            == status && message@ == body@),
{
    if 200 <= status && status < 300 {
        Ok(())
    } else {
        Err(EmailError::Api { status, message: body })
    }
}

/// What stands in a letter between the address that its button leads to
/// and the sentence after the button.
pub const BUTTON_STYLE: &'static str =
    "\" style=\"display:inline-block;padding:12px 24px;background:#2563eb;color:#fff;text-decoration:none;border-radius:6px;\">";

/// The last paragraph of a letter that invites.
pub const INVITE_FOOTER: &'static str =
    "Accept Invite</a></p>\n<p>This invite expires in 7 days.</p>\n<p style=\"color:#888;font-size:12px;\">If you didn't expect this, you can ignore this email.</p>";

/// The last paragraph of a letter for a new password.
pub const RESET_FOOTER: &'static str =
    "Reset Password</a></p>\n<p>This link expires in 1 hour.</p>\n<p style=\"color:#888;font-size:12px;\">If you didn't request this, you can ignore this email.</p>";

/// The letter that invites someone to an organisation.
pub fn invite_email(to: String, org_name: &str, invite_url: &str) -> (e: Email)
    ensures
        e.to@ == to@,
        e.subject@ == "Join "@ + org_name@ + " on Traceway"@,
        e.html@ == "<p>You've been invited to join <strong>"@ + org_name@
            + "</strong> on Traceway.</p>\n<p><a href=\""@ + invite_url@ + BUTTON_STYLE@
            + INVITE_FOOTER@,
{
    let subject = crate::text::concat3("Join ", org_name, " on Traceway");
    let head = crate::text::concat3(
        "<p>You've been invited to join <strong>",
        org_name,
        "</strong> on Traceway.</p>\n<p><a href=\"",
    );
    let html = crate::text::concat3(head.as_str(), invite_url, BUTTON_STYLE);
    let html = crate::text::concat(html.as_str(), INVITE_FOOTER);
    Email { to, subject, html }
}

/// The letter that lets someone set a new password.
pub fn reset_email(to: String, reset_url: &str) -> (e: Email)
    ensures
        e.to@ == to@,
        e.subject@ == "Reset your Traceway password"@,
        e.html@
            == "<p>You requested a password reset for your Traceway account.</p>\n<p><a href=\""@
            + reset_url@ + BUTTON_STYLE@ + RESET_FOOTER@,
{
    let html = crate::text::concat3(
        "<p>You requested a password reset for your Traceway account.</p>\n<p><a href=\"",
        reset_url,
        BUTTON_STYLE,
    );
    let html = crate::text::concat(html.as_str(), RESET_FOOTER);
    Email { to, subject: "Reset your Traceway password".to_owned(), html }
}

/// Sends letters through the service at [`RESEND_URL`].
#[derive(Debug, PartialEq)]
pub struct ResendSender {
    pub api_key: String,
    pub from: String,
}

impl ResendSender {
    pub fn new(api_key: String, from: String) -> (s: ResendSender)
        ensures
            s.api_key@ == api_key@,
            s.from@ == from@,
    {
        ResendSender { api_key, from }
    }

    /// The sender that the environment asks for: the key must be set;
    /// the letters come from [`DEFAULT_FROM`] unless the environment says
    /// otherwise.
    pub fn from_values(api_key: Option<String>, from: Option<String>) -> (r: Result<
        ResendSender,
        EmailError,
    >)
        ensures
            match api_key {
                None => r == Err::<ResendSender, EmailError>(EmailError::NotConfigured),
                Some(key) => r matches Ok(s) && s.api_key@ == key@ && s.from@ == (match from {
                    Some(f) => f@,
                    None => DEFAULT_FROM@,
                }),
            },
    {
        match api_key {
            None => Err(EmailError::NotConfigured),
            Some(key) => {
                let from = match from {
                    Some(f) => f,
                    None => DEFAULT_FROM.to_owned(),
                };
                Ok(ResendSender { api_key: key, from })
            },
        }
    }

    /// The `Authorization` header of a request to the service.
    pub fn authorization(&self) -> (r: String)
        ensures
            r@ == "Bearer "@ + self.api_key@,
    {
        crate::text::concat("Bearer ", self.api_key.as_str())
    }

    /// The body of the request that hands a letter in: who it comes
    /// from, the one address it goes to, its subject and its text.
    pub fn request_body(&self, email: &Email) -> (j: Json)
        ensures
            j@ == JsonView::Object(
                seq![
                    ("from"@, JsonView::Str(self.from@)),
                    ("to"@, JsonView::Array(seq![JsonView::Str(email.to@)])),
                    ("subject"@, JsonView::Str(email.subject@)),
                    ("html"@, JsonView::Str(email.html@)),
                ],
            ),
    {
        let mut to: Vec<Json> = Vec::new();
        to.push(Json::Str(email.to.clone()));
        proof {
            crate::json::lemma_array_view(to);
            assert(crate::json::items_view(to@) =~= seq![JsonView::Str(email.to@)]);
        }
        let mut fields: Vec<(String, Json)> = Vec::new();
        fields.push(("from".to_owned(), Json::Str(self.from.clone())));
        fields.push(("to".to_owned(), Json::Array(to)));
        fields.push(("subject".to_owned(), Json::Str(email.subject.clone())));
        fields.push(("html".to_owned(), Json::Str(email.html.clone())));
        proof {
            crate::json::lemma_object_view(fields);
            assert(crate::json::fields_view(fields@) =~= seq![
                ("from"@, JsonView::Str(self.from@)),
                ("to"@, JsonView::Array(seq![JsonView::Str(email.to@)])),
                ("subject"@, JsonView::Str(email.subject@)),
                ("html"@, JsonView::Str(email.html@)),
            ]);
        }
        Json::Object(fields)
    }
}

} // verus!
