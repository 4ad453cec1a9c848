//! The normalized message envelopes that every channel produces and
//! consumes, and the result shape shared by the tools.

use vstd::prelude::*;

verus! {

/// One inbound, already-normalized unit of conversation input.
pub struct ChannelMessage {
    /// Process-unique handle, generated at ingestion.
    pub id: String,
    /// Opaque address the owning channel can route a reply to.
    pub reply_target: String,
    /// Human-readable originator identity.
    pub sender: String,
    /// Non-empty text payload.
    pub content: String,
    /// Channel name plus provider-reported sub-type, e.g. `linq-sms`.
    pub channel: String,
    /// Best known send time, Unix seconds.
    pub timestamp: u64,
}

impl ChannelMessage {
    /// The envelope invariant: content is never empty.
    pub open spec fn wf(&self) -> bool {
        self.content@.len() > 0
    }
}

/// One outbound unit: fire-and-forget, no identity needed.
pub struct SendMessage {
    /// Channel-specific address of the recipient.
    pub recipient: String,
    /// Text to deliver.
    pub content: String,
}

/// What a tool hands back: either output or an explicit failure reason.
pub struct ToolResult {
    pub success: bool,
    pub output: String,
    pub error: Option<String>,
}

} // verus!
