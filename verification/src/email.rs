//! The email tool's decision logic: the autonomy and budget gates, the
//! recipient allowlist, parameter screening, and the syntactic side of the
//! attachment sandbox. The SMTP transport, filesystem reads and address
//! parsing are performed by the surrounding process, which canonicalizes
//! each attachment candidate and asks the security policy's resolved-path
//! gate before touching it.

use vstd::prelude::*;
use vstd::string::*;
use crate::allowlist::allowed;
use crate::allowlist::allowed_spec;
use crate::jsonval;
use crate::jsonval::JsonStrArray;
use crate::security::AutonomyLevel;
use crate::security::SecurityPolicy;
use crate::security::count_in_window;
use crate::security::is_descendant_of;
use crate::security::lemma_join_stays_inside;
use crate::security::record_step;
use crate::security::syntactic_path_ok;
use crate::text::str_eq;
use crate::text::trim_of;
use crate::text::trim_str;

verus! {

/// Ceiling on the byte length of one attachment.
pub const MAX_ATTACHMENT_BYTES: usize = 10485760;

/// True when a prospective attachment of `len` bytes is within the size
/// limit.
pub fn attachment_size_ok(len: usize) -> (r: bool)
    ensures
        r == (len <= MAX_ATTACHMENT_BYTES),
{
    len <= MAX_ATTACHMENT_BYTES
}

/// The email tool's configuration, supplied at process start.
pub struct EmailToolConfig {
    pub enabled: bool,
    pub smtp_host: String,
    pub smtp_port: u16,
    pub smtp_tls: bool,
    pub username: String,
    pub password: String,
    pub from_address: String,
    /// Who the agent may write to, under the shared allowlist rules.
    pub allowed_recipients: Vec<String>,
}

/// Sends email via SMTP, gated by the shared security policy.
pub struct EmailSendTool {
    /// The shared security gate consulted before every send.
    pub security: SecurityPolicy,
    pub config: EmailToolConfig,
}

/// A parameter after trimming; empty when absent.
pub open spec fn opt_trimmed(v: Option<String>) -> Seq<char> {
    match v {
        Some(s) => trim_of(s@),
        None => Seq::empty(),
    }
}

/// Whether a required string parameter is absent or blank.
pub open spec fn opt_blank(v: Option<String>) -> bool {
    opt_trimmed(v).len() == 0
}

/// Whether one attachment entry is a usable candidate: a non-blank string
/// whose trimmed path passes the syntactic sandbox pre-check.
pub open spec fn item_good(it: Option<String>) -> bool {
    !opt_blank(it) && syntactic_path_ok(opt_trimmed(it))
}

/// Whether the `attachments` parameter raises no objection: absent, or an
/// array of usable candidates.
pub open spec fn atts_ok(atts: JsonStrArray) -> bool {
    match atts {
        JsonStrArray::Missing => true,
        JsonStrArray::NotAnArray => false,
        JsonStrArray::Items(v) => forall|i: int| 0 <= i < v@.len() ==> item_good(#[trigger] v@[i]),
    }
}

/// Whether the autonomy and budget gates both let a request through at
/// time `now`.
pub open spec fn gates_open(t: EmailSendTool, now: u64) -> bool {
    t.security.autonomy != AutonomyLevel::ReadOnly && count_in_window(t.security.actions@, now)
        < t.security.max_actions_per_hour
}

/// Whether the three required parameters are all usable.
pub open spec fn params_ok(to: Option<String>, subject: Option<String>, body: Option<String>)
    -> bool {
    !opt_blank(to) && !opt_blank(subject) && !opt_blank(body)
}

/// What screening the attachment array found.
pub enum AttachmentScreen {
    /// The entry at `index` is not a non-empty string.
    BadItem { index: usize },
    /// The trimmed path at `index` failed the syntactic sandbox pre-check.
    Refused { index: usize },
    /// One joined workspace candidate per entry, order kept.
    Candidates(Vec<String>),
}

/// Screens each attachment entry in order and joins the survivors under
/// the workspace root; the first objection wins.
pub fn screen_attachment_items(policy: &SecurityPolicy, items: &Vec<Option<String>>) -> (r:
    AttachmentScreen)
    ensures
        r matches AttachmentScreen::Candidates(c) ==> (forall|i: int|
            0 <= i < items@.len() ==> item_good(#[trigger] items@[i])) && c@.len() == items@.len()
            && (forall|i: int|
            0 <= i < c@.len() ==> (#[trigger] c@[i])@ == policy.workspace_dir@ + seq!['/']
                + opt_trimmed(items@[i])),
        r matches AttachmentScreen::BadItem { index } ==> index < items@.len() && opt_blank(
            items@[index as int],
        ) && (forall|j: int| 0 <= j < index ==> item_good(#[trigger] items@[j])),
        r matches AttachmentScreen::Refused { index } ==> index < items@.len() && !opt_blank(
            items@[index as int],
        ) && !syntactic_path_ok(opt_trimmed(items@[index as int])) && (forall|j: int|
            0 <= j < index ==> item_good(#[trigger] items@[j])),
        (forall|i: int| 0 <= i < items@.len() ==> item_good(#[trigger] items@[i]))
            ==> r is Candidates,
{
    let n = items.len();
    let mut cands: Vec<String> = Vec::new();
    let mut i: usize = 0;
    while i < n
        invariant
            0 <= i <= n,
            n == items@.len(),
            cands@.len() == i,
            forall|j: int| 0 <= j < i ==> item_good(#[trigger] items@[j]),
            forall|j: int|
                0 <= j < i ==> (#[trigger] cands@[j])@ == policy.workspace_dir@ + seq!['/']
                    + opt_trimmed(items@[j]),
        decreases n - i,
    {
        match &items[i] {
            None => {
                return AttachmentScreen::BadItem { index: i };
            },
            Some(s) => {
                let t = trim_str(s.as_str());
                if t.as_str().is_empty() {
                    return AttachmentScreen::BadItem { index: i };
                }
                if !policy.is_path_allowed(t.as_str()) {
                    return AttachmentScreen::Refused { index: i };
                }
                cands.push(policy.join_workspace_path(t.as_str()));
            },
        }
        i = i + 1;
    }
    AttachmentScreen::Candidates(cands)
}

/// What the tool decided about one send request, in the order the gates
/// run. Every refusal names its reason; a send is attempted only when
/// every gate passed.
pub enum EmailGate {
    /// Autonomy is read-only: no side-effecting action may proceed.
    ReadOnly,
    /// The action budget refused the reservation.
    RateLimited,
    /// The `to` parameter is absent or blank.
    MissingTo,
    /// The `subject` parameter is absent or blank.
    MissingSubject,
    /// The `body` parameter is absent or blank.
    MissingBody,
    /// The `attachments` parameter is present but not an array.
    AttachmentsNotArray,
    /// The attachment entry at `index` is not a non-empty string.
    AttachmentBadItem { index: usize },
    /// The attachment path at `index` failed the syntactic sandbox check.
    AttachmentRefused { index: usize },
    /// The recipient is not admitted by `allowed_recipients`.
    RecipientNotAllowed { to: String },
    /// No SMTP host is configured.
    NoSmtpHost,
    /// No from address is configured.
    NoFromAddress,
    /// Deliver: every gate passed; the candidates still await
    /// canonicalization and the resolved-path check.
    Send {
        to: String,
        subject: String,
        body: String,
        html: bool,
        attachment_candidates: Vec<String>,
    },
}

impl EmailSendTool {
    pub fn new(security: SecurityPolicy, config: EmailToolConfig) -> (t: Self)
        ensures
            t.security == security,
            t.config == config,
    {
        EmailSendTool { security, config }
    }

    /// The tool's stable name.
    pub fn name(&self) -> (r: &'static str)
        ensures
            r@ == "email_send"@,
    {
        "email_send"
    }

    pub fn description(&self) -> (r: &'static str)
        ensures
            r@.len() > 0,
    {
        proof {
            reveal_strlit(
                "Send an email via SMTP. Supports plain text/HTML body and optional attachments from workspace files.",
            );
        }
        "Send an email via SMTP. Supports plain text/HTML body and optional attachments from workspace files."
    }

    /// The JSON schema of the tool's parameters, as text.
    pub fn parameters_schema_json(&self) -> (r: &'static str)
        ensures
            r@.len() > 0,
    {
        proof {
            reveal_strlit(
                "{\"type\":\"object\",\"properties\":{\"to\":{\"type\":\"string\",\"description\":\"Recipient email address\"},\"subject\":{\"type\":\"string\",\"description\":\"Email subject line\"},\"body\":{\"type\":\"string\",\"description\":\"Email body content (plain text by default, or HTML if html=true)\"},\"html\":{\"type\":\"boolean\",\"description\":\"Set to true to send body as HTML instead of plain text (default: false)\"},\"attachments\":{\"type\":\"array\",\"description\":\"Optional attachment file paths (relative to workspace only)\",\"items\":{\"type\":\"string\"}}},\"required\":[\"to\",\"subject\",\"body\"]}",
            );
        }
        "{\"type\":\"object\",\"properties\":{\"to\":{\"type\":\"string\",\"description\":\"Recipient email address\"},\"subject\":{\"type\":\"string\",\"description\":\"Email subject line\"},\"body\":{\"type\":\"string\",\"description\":\"Email body content (plain text by default, or HTML if html=true)\"},\"html\":{\"type\":\"boolean\",\"description\":\"Set to true to send body as HTML instead of plain text (default: false)\"},\"attachments\":{\"type\":\"array\",\"description\":\"Optional attachment file paths (relative to workspace only)\",\"items\":{\"type\":\"string\"}}},\"required\":[\"to\",\"subject\",\"body\"]}"
    }

    /// The JSON schema of the tool's parameters.
    pub fn parameters_schema(&self) -> serde_json::Value {
        jsonval::parse_json_text(self.parameters_schema_json())
    }

    /// Whether `allowed_recipients` admits `addr`, under the shared
    /// allowlist rules.
    pub fn is_recipient_allowed(&self, addr: &str) -> (r: bool)
        ensures
            r == allowed_spec(addr@, self.config.allowed_recipients.deep_view()),
    {
        allowed(addr, &self.config.allowed_recipients)
    }

    /// Screens one send request given its plain parameter values and the
    /// wall clock second `now`. The gates run in the order listed on
    /// [`EmailGate`]; the budget is charged once autonomy allows acting,
    /// whatever is later refused.
    pub fn plan_send(
        &mut self,
        to: Option<String>,
        subject: Option<String>,
        body: Option<String>,
        html: Option<bool>,
        atts: JsonStrArray,
        now: u64,
    ) -> (g: EmailGate)
        ensures
            g is ReadOnly <==> old(self).security.autonomy == AutonomyLevel::ReadOnly,
            g is RateLimited <==> old(self).security.autonomy != AutonomyLevel::ReadOnly
                && count_in_window(old(self).security.actions@, now)
                >= old(self).security.max_actions_per_hour,
            g is MissingTo <==> gates_open(*old(self), now) && opt_blank(to),
            g is MissingSubject <==> gates_open(*old(self), now) && !opt_blank(to) && opt_blank(
                subject,
            ),
            g is MissingBody <==> gates_open(*old(self), now) && !opt_blank(to) && !opt_blank(
                subject,
            ) && opt_blank(body),
            g is AttachmentsNotArray <==> gates_open(*old(self), now) && params_ok(
                to,
                subject,
                body,
            ) && atts is NotAnArray,
            g matches EmailGate::AttachmentBadItem { index } ==> gates_open(*old(self), now)
                && params_ok(to, subject, body) && (atts matches JsonStrArray::Items(v) && index
                < v@.len() && opt_blank(v@[index as int]) && (forall|j: int|
                0 <= j < index ==> item_good(#[trigger] v@[j]))),
            g matches EmailGate::AttachmentRefused { index } ==> gates_open(*old(self), now)
                && params_ok(to, subject, body) && (atts matches JsonStrArray::Items(v) && index
                < v@.len() && !opt_blank(v@[index as int]) && !syntactic_path_ok(
                opt_trimmed(v@[index as int]),
            ) && (forall|j: int| 0 <= j < index ==> item_good(#[trigger] v@[j]))),
            g is RecipientNotAllowed <==> gates_open(*old(self), now) && params_ok(
                to,
                subject,
                body,
            ) && atts_ok(atts) && !allowed_spec(
                opt_trimmed(to),
                old(self).config.allowed_recipients.deep_view(),
            ),
            g matches EmailGate::RecipientNotAllowed { to: t } ==> t@ == opt_trimmed(to),
            g is NoSmtpHost <==> gates_open(*old(self), now) && params_ok(to, subject, body)
                && atts_ok(atts) && allowed_spec(
                opt_trimmed(to),
                old(self).config.allowed_recipients.deep_view(),
            ) && old(self).config.smtp_host@.len() == 0,
            g is NoFromAddress <==> gates_open(*old(self), now) && params_ok(to, subject, body)
                && atts_ok(atts) && allowed_spec(
                opt_trimmed(to),
                old(self).config.allowed_recipients.deep_view(),
            ) && old(self).config.smtp_host@.len() > 0 && old(self).config.from_address@.len()
                == 0,
            g is Send <==> gates_open(*old(self), now) && params_ok(to, subject, body) && atts_ok(
                atts,
            ) && allowed_spec(opt_trimmed(to), old(self).config.allowed_recipients.deep_view())
                && old(self).config.smtp_host@.len() > 0 && old(self).config.from_address@.len()
                > 0,
            g matches EmailGate::Send { to: t, subject: s, body: b, html: h, attachment_candidates: c }
                ==> t@ == opt_trimmed(to) && s@ == opt_trimmed(subject) && b@ == opt_trimmed(body)
                && h == (match html {
                    Some(x) => x,
                    None => false,
                }) && (atts is Missing ==> c@.len() == 0) && (atts matches JsonStrArray::Items(v)
                ==> c@.len() == v@.len() && (forall|i: int|
                    0 <= i < c@.len() ==> (#[trigger] c@[i])@ == old(self).security.workspace_dir@
                        + seq!['/'] + opt_trimmed(v@[i]))) && (forall|i: int|
                    0 <= i < c@.len() ==> is_descendant_of(
                        (#[trigger] c@[i])@,
                        old(self).security.workspace_dir@,
                    )),
            old(self).security.autonomy == AutonomyLevel::ReadOnly ==> *final(self) == *old(self),
            old(self).security.autonomy != AutonomyLevel::ReadOnly ==> final(self).security.actions@
                == record_step(
                old(self).security.actions@,
                old(self).security.max_actions_per_hour,
                now,
            ).0,
            final(self).security.autonomy == old(self).security.autonomy,
            final(self).security.max_actions_per_hour == old(self).security.max_actions_per_hour,
            final(self).security.workspace_dir == old(self).security.workspace_dir,
            final(self).config == old(self).config,
    {
        if !self.security.can_act() {
            return EmailGate::ReadOnly;
        }
        if !self.security.record_action_at(now) {
            return EmailGate::RateLimited;
        }
        let to_t = match &to {
            Some(s) => trim_str(s.as_str()),
            None => String::new(),
        };
        if to_t.as_str().is_empty() {
            return EmailGate::MissingTo;
        }
        let subject_t = match &subject {
            Some(s) => trim_str(s.as_str()),
            None => String::new(),
        };
        if subject_t.as_str().is_empty() {
            return EmailGate::MissingSubject;
        }
        let body_t = match &body {
            Some(s) => trim_str(s.as_str()),
            None => String::new(),
        };
        if body_t.as_str().is_empty() {
            return EmailGate::MissingBody;
        }
        let h = match html {
            Some(x) => x,
            None => false,
        };
        let cands: Vec<String> = match &atts {
            JsonStrArray::Missing => Vec::new(),
            JsonStrArray::NotAnArray => {
                return EmailGate::AttachmentsNotArray;
            },
            JsonStrArray::Items(v) => {
                match screen_attachment_items(&self.security, v) {
                    AttachmentScreen::BadItem { index } => {
                        return EmailGate::AttachmentBadItem { index };
                    },
                    AttachmentScreen::Refused { index } => {
                        return EmailGate::AttachmentRefused { index };
                    },
                    AttachmentScreen::Candidates(c) => c,
                }
            },
        };
        proof {
            assert(forall|i: int|
                0 <= i < cands@.len() ==> is_descendant_of(
                    (#[trigger] cands@[i])@,
                    self.security.workspace_dir@,
                )) by {
                assert forall|i: int| 0 <= i < cands@.len() implies is_descendant_of(
                    (#[trigger] cands@[i])@,
                    self.security.workspace_dir@,
                ) by {
                    match atts {
                        JsonStrArray::Items(v) => {
                            lemma_join_stays_inside(
                                self.security.workspace_dir@,
                                opt_trimmed(v@[i]),
                            );
                        },
                        _ => {},
                    }
                }
            }
        }
        if !allowed(to_t.as_str(), &self.config.allowed_recipients) {
            return EmailGate::RecipientNotAllowed { to: to_t };
        }
        if self.config.smtp_host.as_str().is_empty() {
            return EmailGate::NoSmtpHost;
        }
        if self.config.from_address.as_str().is_empty() {
            return EmailGate::NoFromAddress;
        }
        EmailGate::Send {
            to: to_t,
            subject: subject_t,
            body: body_t,
            html: h,
            attachment_candidates: cands,
        }
    }

    /// Screens one send request as it arrives from the wire: copies the
    /// parameters out of the JSON arguments and judges them with
    /// [`Self::plan_send`]. Whatever the payload held, a request that
    /// reaches `Send` names a non-blank recipient the allowlist admits, a
    /// configured host and from address, and only attachment candidates
    /// joined under the workspace root; and the budget moves by at most
    /// one reservation.
    pub fn plan_send_json(&mut self, args: &serde_json::Value, now: u64) -> (g: EmailGate)
        ensures
            g matches EmailGate::Send { to: t, subject: s, body: b, html: h, attachment_candidates: c }
                ==> t@.len() > 0 && s@.len() > 0 && b@.len() > 0 && allowed_spec(
                t@,
                old(self).config.allowed_recipients.deep_view(),
            ) && old(self).config.smtp_host@.len() > 0 && old(self).config.from_address@.len() > 0
                && (forall|i: int|
                0 <= i < c@.len() ==> is_descendant_of(
                    (#[trigger] c@[i])@,
                    old(self).security.workspace_dir@,
                )),
            g is ReadOnly <==> old(self).security.autonomy == AutonomyLevel::ReadOnly,
            g is RateLimited <==> old(self).security.autonomy != AutonomyLevel::ReadOnly
                && count_in_window(old(self).security.actions@, now)
                >= old(self).security.max_actions_per_hour,
            old(self).security.autonomy == AutonomyLevel::ReadOnly ==> *final(self) == *old(self),
            old(self).security.autonomy != AutonomyLevel::ReadOnly ==> final(self).security.actions@
                == record_step(
                old(self).security.actions@,
                old(self).security.max_actions_per_hour,
                now,
            ).0,
            final(self).security.autonomy == old(self).security.autonomy,
            final(self).security.max_actions_per_hour == old(self).security.max_actions_per_hour,
            final(self).security.workspace_dir == old(self).security.workspace_dir,
            final(self).config == old(self).config,
    {
        let to = jsonval::json_get_str(args, "to");
        let subject = jsonval::json_get_str(args, "subject");
        let body = jsonval::json_get_str(args, "body");
        let html = jsonval::json_get_bool(args, "html");
        let atts = jsonval::json_get_str_array(args, "attachments");
        self.plan_send(to, subject, body, html, atts, now)
    }
}

/// The SMTP password: the configured one when present, else the one found
/// in the environment, else nothing.
pub fn resolve_password(config_password: &String, env_password: Option<String>) -> (r: Option<
    String,
>)
    ensures
        config_password@.len() > 0 ==> (r matches Some(p) && p@ == config_password@),
        config_password@.len() == 0 ==> (match env_password {
            Some(e) => if e@.len() > 0 {
                (r matches Some(p) && p@ == e@)
            } else {
                r is None
            },
            None => r is None,
        }),
{
    if !config_password.as_str().is_empty() {
        Some(config_password.clone())
    } else {
        match env_password {
            Some(e) => if !e.as_str().is_empty() {
                Some(e)
            } else {
                None
            },
            None => None,
        }
    }
}

/// The MIME type announced for an attachment, by its file extension.
pub open spec fn mime_of(ext: Seq<char>) -> Seq<char> {
    if ext == "txt"@ || ext == "md"@ || ext == "log"@ {
        "text/plain; charset=utf-8"@
    } else if ext == "html"@ || ext == "htm"@ {
        "text/html; charset=utf-8"@
    } else if ext == "json"@ {
        "application/json"@
    } else if ext == "csv"@ {
        "text/csv; charset=utf-8"@
    } else if ext == "pdf"@ {
        "application/pdf"@
    } else if ext == "png"@ {
        "image/png"@
    } else if ext == "jpg"@ || ext == "jpeg"@ {
        "image/jpeg"@
    } else if ext == "gif"@ {
        "image/gif"@
    } else if ext == "webp"@ {
        "image/webp"@
    } else {
        "application/octet-stream"@
    }
}

/// Maps an attachment's file extension to the MIME type announced for it;
/// anything unrecognized is shipped as raw bytes.
pub fn mime_for_extension(ext: &str) -> (r: &'static str)
    ensures
        r@ == mime_of(ext@),
{
    if str_eq(ext, "txt") || str_eq(ext, "md") || str_eq(ext, "log") {
        "text/plain; charset=utf-8"
    } else if str_eq(ext, "html") || str_eq(ext, "htm") {
        "text/html; charset=utf-8"
    } else if str_eq(ext, "json") {
        "application/json"
    } else if str_eq(ext, "csv") {
        "text/csv; charset=utf-8"
    } else if str_eq(ext, "pdf") {
        "application/pdf"
    } else if str_eq(ext, "png") {
        "image/png"
    } else if str_eq(ext, "jpg") || str_eq(ext, "jpeg") {
        "image/jpeg"
    } else if str_eq(ext, "gif") {
        "image/gif"
    } else if str_eq(ext, "webp") {
        "image/webp"
    } else {
        "application/octet-stream"
    }
}

} // verus!
