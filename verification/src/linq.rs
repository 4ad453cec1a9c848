//! The Linq channel: webhook-delivered unified messaging (SMS, iMessage,
//! RCS). Inbound payloads arrive through an external HTTP layer, which
//! hands the decoded JSON to [`LinqChannel::parse_webhook_payload`]; the
//! normalization itself — event filtering, the sender allowlist, content
//! fallback, timestamp defaulting — is verified over plain copies of the
//! event fields.

use vstd::prelude::*;
use vstd::string::*;
use crate::allowlist::allowed;
use crate::allowlist::allowed_spec;
use crate::jsonval;
use crate::message::ChannelMessage;
use crate::text::parse_u64;
use crate::text::parse_u64_spec;
use crate::text::str_eq;

verus! {

/// The fields one webhook event can carry, each copied out of the JSON
/// payload as it was found: the event kind at the top level, the rest from
/// the event's `data` object. An absent or non-string field is `None`.
pub struct LinqEvent {
    /// Top-level event kind, e.g. `message_received` or `message_delivered`.
    pub event: Option<String>,
    /// Sender: a phone number or an email address.
    pub from: Option<String>,
    /// First-choice content field.
    pub body: Option<String>,
    /// Second-choice content field.
    pub text: Option<String>,
    /// Third-choice content field.
    pub message: Option<String>,
    /// Provider-reported sub-type: `sms`, `imessage` or `rcs`.
    pub msg_type: Option<String>,
    /// Send time as a decimal string of Unix seconds.
    pub timestamp: Option<String>,
}

/// Everything a normalized message holds except its freshly drawn id.
pub struct MessageModel {
    pub reply_target: Seq<char>,
    pub sender: Seq<char>,
    pub content: Seq<char>,
    pub channel: Seq<char>,
    pub timestamp: u64,
}

/// The id-free part of one normalized message.
pub open spec fn model_of(m: ChannelMessage) -> MessageModel {
    MessageModel {
        reply_target: m.reply_target@,
        sender: m.sender@,
        content: m.content@,
        channel: m.channel@,
        timestamp: m.timestamp,
    }
}

/// The id-free parts of a run of normalized messages.
pub open spec fn models_of(ms: Seq<ChannelMessage>) -> Seq<MessageModel> {
    ms.map_values(|m: ChannelMessage| model_of(m))
}

/// Whether the event is a "message received" event; every other kind is
/// silently skipped.
pub open spec fn event_kind_is_message(e: LinqEvent) -> bool {
    match e.event {
        Some(t) => t@ == "message_received"@,
        None => false,
    }
}

/// The sender field, empty when absent.
pub open spec fn event_sender(e: LinqEvent) -> Seq<char> {
    match e.from {
        Some(f) => f@,
        None => Seq::empty(),
    }
}

/// The content after the fixed fallback precedence: the first *present*
/// field among `body`, `text`, `message` wins, even when it is empty.
pub open spec fn resolved_content(e: LinqEvent) -> Seq<char> {
    match e.body {
        Some(b) => b@,
        None => match e.text {
            Some(t) => t@,
            None => match e.message {
                Some(m) => m@,
                None => Seq::<char>::empty(),
            },
        },
    }
}

/// The provider sub-type, defaulting to `sms`.
pub open spec fn event_msg_type(e: LinqEvent) -> Seq<char> {
    match e.msg_type {
        Some(t) => t@,
        None => "sms"@,
    }
}

/// The send time: the event's decimal timestamp when it parses as a `u64`,
/// else the ingestion time `now`.
pub open spec fn event_timestamp(e: LinqEvent, now: u64) -> u64 {
    match e.timestamp {
        Some(t) => match parse_u64_spec(t@) {
            Some(v) => v,
            None => now,
        },
        None => now,
    }
}

/// Whether the event yields a message: a "message received" event with a
/// sender that the allowlist admits and non-empty resolved content.
pub open spec fn keep_event(e: LinqEvent, allowed_pats: Seq<Seq<char>>) -> bool {
    &&& event_kind_is_message(e)
    &&& e.from is Some
    &&& allowed_spec(event_sender(e), allowed_pats)
    &&& resolved_content(e).len() > 0
}

/// The normalized message a kept event yields (all but its id).
pub open spec fn event_message(e: LinqEvent, channel_name: Seq<char>, now: u64) -> MessageModel {
    MessageModel {
        reply_target: event_sender(e),
        sender: event_sender(e),
        content: resolved_content(e),
        channel: channel_name + "-"@ + event_msg_type(e),
        timestamp: event_timestamp(e, now),
    }
}

/// What a batch of events yields: the kept events' messages, in the order
/// the events came. One malformed or filtered event never disturbs its
/// siblings.
pub open spec fn parse_events_spec(
    events: Seq<LinqEvent>,
    allowed_pats: Seq<Seq<char>>,
    channel_name: Seq<char>,
    now: u64,
) -> Seq<MessageModel>
    decreases events.len(),
{
    if events.len() == 0 {
        Seq::empty()
    } else {
        let head = parse_events_spec(events.drop_last(), allowed_pats, channel_name, now);
        if keep_event(events.last(), allowed_pats) {
            head.push(event_message(events.last(), channel_name, now))
        } else {
            head
        }
    }
}

/// How many events of a batch are kept.
pub open spec fn count_kept(events: Seq<LinqEvent>, allowed_pats: Seq<Seq<char>>) -> nat
    decreases events.len(),
{
    if events.len() == 0 {
        0
    } else {
        count_kept(events.drop_last(), allowed_pats) + if keep_event(events.last(), allowed_pats) {
            1nat
        } else {
            0nat
        }
    }
}

/// A batch yields exactly one message per kept event: a payload of N valid
/// "message received" events among other events yields exactly N messages,
/// and `parse_events_spec` lists them in the original order.
pub proof fn lemma_batch_count(
    events: Seq<LinqEvent>,
    allowed_pats: Seq<Seq<char>>,
    channel_name: Seq<char>,
    now: u64,
)
    ensures
        parse_events_spec(events, allowed_pats, channel_name, now).len() == count_kept(
            events,
            allowed_pats,
        ),
    decreases events.len(),
{
    if events.len() > 0 {
        lemma_batch_count(events.drop_last(), allowed_pats, channel_name, now);
    }
}

/// The order law: what a batch yields is exactly its kept events, in
/// their original order, each turned into its message.
pub proof fn lemma_parse_order(
    events: Seq<LinqEvent>,
    allowed_pats: Seq<Seq<char>>,
    channel_name: Seq<char>,
    now: u64,
)
    ensures
        parse_events_spec(events, allowed_pats, channel_name, now) == events.filter(
            |e: LinqEvent| keep_event(e, allowed_pats),
        ).map_values(|e: LinqEvent| event_message(e, channel_name, now)),
    decreases events.len(),
{
    reveal(Seq::filter);
    let pred = |e: LinqEvent| keep_event(e, allowed_pats);
    let to_msg = |e: LinqEvent| event_message(e, channel_name, now);
    if events.len() == 0 {
        assert(parse_events_spec(events, allowed_pats, channel_name, now) =~= events.filter(
            pred,
        ).map_values(to_msg));
    } else {
        lemma_parse_order(events.drop_last(), allowed_pats, channel_name, now);
        assert(parse_events_spec(events, allowed_pats, channel_name, now) =~= events.filter(
            pred,
        ).map_values(to_msg));
    }
}

/// Parsing is deterministic per input: two parses of the same events under
/// the same allowlist and clock agree on every message field except the
/// freshly drawn ids, which the models do not contain.
pub proof fn lemma_parse_idempotent(
    m1: Seq<ChannelMessage>,
    m2: Seq<ChannelMessage>,
    events: Seq<LinqEvent>,
    allowed_pats: Seq<Seq<char>>,
    channel_name: Seq<char>,
    now: u64,
)
    requires
        models_of(m1) == parse_events_spec(events, allowed_pats, channel_name, now),
        models_of(m2) == parse_events_spec(events, allowed_pats, channel_name, now),
    ensures
        models_of(m1) == models_of(m2),
{
}

/// Every message a batch yields is well-formed: non-empty content, a
/// sender the allowlist admits, and a reply target equal to that sender.
pub proof fn lemma_parse_messages_wf(
    events: Seq<LinqEvent>,
    allowed_pats: Seq<Seq<char>>,
    channel_name: Seq<char>,
    now: u64,
)
    ensures
        forall|k: int|
            0 <= k < parse_events_spec(events, allowed_pats, channel_name, now).len() ==> {
                let m = #[trigger] parse_events_spec(events, allowed_pats, channel_name, now)[k];
                &&& m.content.len() > 0
                &&& allowed_spec(m.sender, allowed_pats)
                &&& m.reply_target == m.sender
            },
    decreases events.len(),
{
    if events.len() > 0 {
        lemma_parse_messages_wf(events.drop_last(), allowed_pats, channel_name, now);
        let s = parse_events_spec(events, allowed_pats, channel_name, now);
        let prev = parse_events_spec(events.drop_last(), allowed_pats, channel_name, now);
        if keep_event(events.last(), allowed_pats) {
            assert(s == prev.push(event_message(events.last(), channel_name, now)));
            assert(forall|k: int| 0 <= k < prev.len() ==> s[k] == prev[k]);
            assert(s[s.len() - 1] == event_message(events.last(), channel_name, now));
            assert(allowed_spec(event_sender(events.last()), allowed_pats));
        }
    }
}

/// Relies on uuid::Uuid::new_v4 and its hyphenated rendering through
/// ToString: 36 characters. The value is random, so nothing more is
/// claimed of it.
#[verifier::external_body]
fn fresh_message_id() -> (r: String)
    ensures
        r@.len() == 36,
{
    uuid::Uuid::new_v4().to_string()
}

/// Normalizes a batch of copied-out events under `allowed_pats`, stamping
/// unparseable or missing timestamps with `now` and each message with a
/// fresh 36-character id.
pub fn parse_events(
    events: &Vec<LinqEvent>,
    allowed_contacts: &Vec<String>,
    channel_name: &str,
    now: u64,
) -> (msgs: Vec<ChannelMessage>)
    ensures
        models_of(msgs@) == parse_events_spec(
            events@,
            allowed_contacts.deep_view(),
            channel_name@,
            now,
        ),
        forall|i: int| 0 <= i < msgs@.len() ==> (#[trigger] msgs@[i]).id@.len() == 36,
{
    let ghost pats = allowed_contacts.deep_view();
    let mut msgs: Vec<ChannelMessage> = Vec::new();
    let n = events.len();
    let mut i: usize = 0;
    proof {
        assert(models_of(msgs@) =~= parse_events_spec(
            events@.subrange(0, 0),
            pats,
            channel_name@,
            now,
        ));
    }
    while i < n
        invariant
            0 <= i <= n,
            n == events@.len(),
            pats == allowed_contacts.deep_view(),
            models_of(msgs@) == parse_events_spec(
                events@.subrange(0, i as int),
                pats,
                channel_name@,
                now,
            ),
            forall|k: int| 0 <= k < msgs@.len() ==> (#[trigger] msgs@[k]).id@.len() == 36,
        decreases n - i,
    {
        let ghost ev = events@[i as int];
        let ghost pre_msgs = msgs@;
        let e = &events[i];
        let is_msg = match &e.event {
            Some(t) => str_eq(t.as_str(), "message_received"),
            None => false,
        };
        proof {
            assert(is_msg == event_kind_is_message(ev));
        }
        if is_msg {
            match &e.from {
                Some(from) => {
                    if allowed(from.as_str(), allowed_contacts) {
                        let content_str: &str = match &e.body {
                            Some(b) => b.as_str(),
                            None => match &e.text {
                                Some(t) => t.as_str(),
                                None => match &e.message {
                                    Some(m) => m.as_str(),
                                    None => "",
                                },
                            },
                        };
                        proof {
                            reveal_strlit("");
                            assert(content_str@ =~= resolved_content(ev));
                        }
                        if content_str.unicode_len() > 0 {
                            let msg_type: &str = match &e.msg_type {
                                Some(t) => t.as_str(),
                                None => "sms",
                            };
                            let ts: u64 = match &e.timestamp {
                                Some(t) => match parse_u64(t.as_str()) {
                                    Some(v) => v,
                                    None => now,
                                },
                                None => now,
                            };
                            let mut channel = channel_name.to_owned();
                            channel.append("-");
                            channel.append(msg_type);
                            let m = ChannelMessage {
                                id: fresh_message_id(),
                                reply_target: from.clone(),
                                sender: from.clone(),
                                content: content_str.to_owned(),
                                channel,
                                timestamp: ts,
                            };
                            proof {
                                assert(keep_event(ev, pats));
                                assert(model_of(m) == event_message(ev, channel_name@, now));
                            }
                            msgs.push(m);
                        } else {
                            proof {
                                assert(!keep_event(ev, pats));
                            }
                        }
                    } else {
                        proof {
                            assert(!keep_event(ev, pats));
                        }
                    }
                },
                None => {
                    proof {
                        assert(!keep_event(ev, pats));
                    }
                },
            }
        } else {
            proof {
                assert(!keep_event(ev, pats));
            }
        }
        proof {
            let cur = events@.subrange(0, i + 1);
            assert(cur.drop_last() =~= events@.subrange(0, i as int));
            assert(cur.last() == ev);
            if keep_event(ev, pats) {
                assert(models_of(msgs@) =~= parse_events_spec(cur, pats, channel_name@, now));
            } else {
                assert(msgs@ == pre_msgs);
                assert(models_of(msgs@) =~= parse_events_spec(cur, pats, channel_name@, now));
            }
        }
        i = i + 1;
    }
    proof {
        assert(events@.subrange(0, n as int) =~= events@);
    }
    msgs
}

/// Copies the recognized fields of one webhook event out of the JSON
/// payload; decisions about them are made by the verified callers.
fn extract_event(v: &serde_json::Value) -> LinqEvent {
    let event = jsonval::json_get_str(v, "event");
    match jsonval::json_get(v, "data") {
        Some(d) => LinqEvent {
            event,
            from: jsonval::json_get_str(&d, "from"),
            body: jsonval::json_get_str(&d, "body"),
            text: jsonval::json_get_str(&d, "text"),
            message: jsonval::json_get_str(&d, "message"),
            msg_type: jsonval::json_get_str(&d, "type"),
            timestamp: jsonval::json_get_str(&d, "timestamp"),
        },
        None => LinqEvent {
            event,
            from: None,
            body: None,
            text: None,
            message: None,
            msg_type: None,
            timestamp: None,
        },
    }
}

/// The Linq channel's configuration: credentials and the inbound contact
/// allowlist. The channel is webhook-driven, so its own listen loop is a
/// heartbeat run by the surrounding process.
pub struct LinqChannel {
    /// Linq API key for authentication.
    pub api_key: String,
    /// Webhook verification token the operator defines; Linq echoes it back.
    pub verify_token: String,
    /// Allowed phone numbers or email addresses.
    pub allowed_contacts: Vec<String>,
}

impl LinqChannel {
    pub fn new(api_key: String, verify_token: String, allowed_contacts: Vec<String>) -> (c: Self)
        ensures
            c.api_key == api_key,
            c.verify_token == verify_token,
            c.allowed_contacts == allowed_contacts,
    {
        LinqChannel { api_key, verify_token, allowed_contacts }
    }

    /// The stable identifier outbound sends are routed by.
    pub fn name(&self) -> (r: &'static str)
        ensures
            r@ == "linq"@,
    {
        "linq"
    }

    /// The token the webhook endpoint must present for verification.
    pub fn verify_token(&self) -> (r: &str)
        ensures
            r@ == self.verify_token@,
    {
        self.verify_token.as_str()
    }

    /// Whether the configured contact allowlist admits `contact`.
    pub fn is_contact_allowed(&self, contact: &str) -> (r: bool)
        ensures
            r == allowed_spec(contact@, self.allowed_contacts.deep_view()),
    {
        allowed(contact, &self.allowed_contacts)
    }

    /// Turns one webhook payload — a single event object or an array of
    /// event objects — into zero or more normalized messages. Every message
    /// that comes out has non-empty content, a sender the contact allowlist
    /// admits, its reply target equal to that sender, and a fresh
    /// 36-character id; unauthorized, malformed or foreign-kind events are
    /// dropped without disturbing the rest of the batch.
    pub fn parse_webhook_payload(&self, payload: &serde_json::Value) -> (msgs: Vec<ChannelMessage>)
        ensures
            forall|i: int|
                0 <= i < msgs@.len() ==> {
                    let m = #[trigger] msgs@[i];
                    &&& m.wf()
                    &&& allowed_spec(m.sender@, self.allowed_contacts.deep_view())
                    &&& m.reply_target@ == m.sender@
                    &&& m.id@.len() == 36
                },
    {
        let mut events: Vec<LinqEvent> = Vec::new();
        if jsonval::json_has_key(payload, "event") {
            events.push(extract_event(payload));
        } else {
            match jsonval::json_as_array(payload) {
                Some(arr) => {
                    let n = arr.len();
                    let mut i: usize = 0;
                    while i < n
                        invariant
                            0 <= i <= n,
                            n == arr@.len(),
                        decreases n - i,
                    {
                        events.push(extract_event(&arr[i]));
                        i = i + 1;
                    }
                },
                None => {},
            }
        }
        let now = crate::clock::now_unix();
        let msgs = parse_events(&events, &self.allowed_contacts, "linq", now);
        proof {
            lemma_parse_messages_wf(events@, self.allowed_contacts.deep_view(), "linq"@, now);
            assert(forall|i: int|
                0 <= i < msgs@.len() ==> models_of(msgs@)[i] == model_of(#[trigger] msgs@[i]));
        }
        msgs
    }
}

} // verus!
