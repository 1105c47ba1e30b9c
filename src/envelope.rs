//! The routing wrapper around a coordination message.
use vstd::prelude::*;
use crate::coordination_message::{message_text, push_message, CoordinationMessage, MessageModel};
use crate::text::{chars_equal, chars_of, decimal, push_decimal, push_quoted, quoted};

verus! {

/// A coordination message with routing metadata.
#[derive(Debug, Clone)]
pub struct MessageEnvelope {
    /// Title of the target pane; `None` broadcasts to every pane.
    pub target_pane: Option<String>,
    /// The message carried.
    pub coordination_message: CoordinationMessage,
    /// Who sent it, for debugging and routing.
    pub sender: String,
    /// Seconds since the Unix epoch when the envelope was made.
    pub timestamp: u64,
}

/// Mathematical value of a [`MessageEnvelope`].
pub struct EnvelopeModel {
    pub target_pane: Option<Seq<char>>,
    pub coordination_message: MessageModel,
    pub sender: Seq<char>,
    pub timestamp: u64,
}

impl View for MessageEnvelope {
    type V = EnvelopeModel;

    open spec fn view(&self) -> EnvelopeModel {
        EnvelopeModel {
            target_pane: match self.target_pane {
                Some(t) => Some(t@),
                None => None,
            },
            coordination_message: self.coordination_message@,
            sender: self.sender@,
            timestamp: self.timestamp,
        }
    }
}

pub open spec fn target_text(t: Option<Seq<char>>) -> Seq<char> {
    match t {
        Some(s) => quoted(s),
        None => "null"@,
    }
}

/// Canonical wire text of an envelope: a JSON object with the fields
/// `target_pane`, `coordination_message`, `sender` and `timestamp`, in that
/// order and without white space.
pub open spec fn envelope_text(e: EnvelopeModel) -> Seq<char> {
    "{\"target_pane\":"@ + target_text(e.target_pane) + ",\"coordination_message\":"@
        + message_text(e.coordination_message) + ",\"sender\":"@ + quoted(e.sender)
        + ",\"timestamp\":"@ + decimal(e.timestamp as nat) + "}"@
}

/// Relies on `SystemTime::now` and `duration_since(UNIX_EPOCH)`: whole seconds
/// since the epoch, zero for a clock set before it.
#[verifier::external_body]
fn current_timestamp() -> (r: u64) {
    std::time::SystemTime::now().duration_since(std::time::UNIX_EPOCH).unwrap_or_default().as_secs()
}

/// Whether two strings hold the same characters.
pub fn str_eq(a: &str, b: &str) -> (r: bool)
    ensures
        r == (a@ == b@),
{
    let ac = chars_of(a);
    chars_equal(&ac, b)
}

impl MessageEnvelope {
    /// An envelope for the pane titled `target_pane`, stamped `timestamp`.
    pub fn new_targeted_at(
        message: CoordinationMessage,
        target_pane: &str,
        sender: &str,
        timestamp: u64,
    ) -> (r: Self)
        ensures
            r.target_pane matches Some(t) && t@ == target_pane@,
            r.coordination_message == message,
            r.sender@ == sender@,
            r.timestamp == timestamp,
    {
        MessageEnvelope {
            target_pane: Some(String::from_str(target_pane)),
            coordination_message: message,
            sender: String::from_str(sender),
            timestamp,
        }
    }

    /// An envelope for every pane, stamped `timestamp`.
    pub fn new_broadcast_at(message: CoordinationMessage, sender: &str, timestamp: u64) -> (r: Self)
        ensures
            r.target_pane is None,
            r.coordination_message == message,
            r.sender@ == sender@,
            r.timestamp == timestamp,
    {
        MessageEnvelope {
            target_pane: None,
            coordination_message: message,
            sender: String::from_str(sender),
            timestamp,
        }
    }

    /// An envelope for the pane titled `target_pane`, stamped with the
    /// current time.
    pub fn new_targeted(message: CoordinationMessage, target_pane: &str, sender: &str) -> (r: Self)
        ensures
            r.target_pane matches Some(t) && t@ == target_pane@,
            r.coordination_message == message,
            r.sender@ == sender@,
    {
        Self::new_targeted_at(message, target_pane, sender, current_timestamp())
    }

    /// An envelope for every pane, stamped with the current time.
    pub fn new_broadcast(message: CoordinationMessage, sender: &str) -> (r: Self)
        ensures
            r.target_pane is None,
            r.coordination_message == message,
            r.sender@ == sender@,
    {
        Self::new_broadcast_at(message, sender, current_timestamp())
    }

    /// Whether the pane titled `pane_title` should take this envelope: every
    /// pane takes a broadcast, only the exact title takes a targeted one.
    pub fn is_targeted_to(&self, pane_title: &str) -> (r: bool)
        ensures
            r == match self@.target_pane {
                Some(t) => t == pane_title@,
                None => true,
            },
    {
        match &self.target_pane {
            Some(target) => str_eq(target.as_str(), pane_title),
            None => true,
        }
    }

    /// Whether the envelope has no target.
    pub fn is_broadcast(&self) -> (r: bool)
        ensures
            r == (self.target_pane is None),
    {
        self.target_pane.is_none()
    }
}

/// Canonical wire text of `e`.
pub fn encode_envelope(e: &MessageEnvelope) -> (r: String)
    ensures
        r@ == envelope_text(e@),
{
    let mut out = String::new();
    out.append("{\"target_pane\":");
    match &e.target_pane {
        Some(t) => push_quoted(&mut out, t.as_str()),
        None => out.append("null"),
    }
    out.append(",\"coordination_message\":");
    push_message(&mut out, &e.coordination_message);
    out.append(",\"sender\":");
    push_quoted(&mut out, e.sender.as_str());
    out.append(",\"timestamp\":");
    push_decimal(&mut out, e.timestamp);
    out.append("}");
    assert(out@ =~= envelope_text(e@));
    out
}

/// Canonical wire text of a bare message, the form older senders use.
pub fn encode_message(m: &CoordinationMessage) -> (r: String)
    ensures
        r@ == message_text(m@),
{
    let mut out = String::new();
    push_message(&mut out, m);
    assert(out@ =~= message_text(m@));
    out
}

} // verus!
