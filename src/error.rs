//! Errors of the codec and the router.
use vstd::prelude::*;
use crate::pane_role::PaneRole;

verus! {

/// Errors that can occur during inter-pane communication.
#[derive(Debug)]
pub enum CommunicationError {
    /// A text is not a valid message; the reason is given.
    SerializationError(String),
    /// A message could not be delivered.
    MessageDeliveryFailed(String),
    /// An invalid target pane was named.
    InvalidTarget(String),
    /// No pane is registered for the role.
    PaneNotFound(PaneRole),
    /// Discovery found no pane for any role.
    PaneDiscoveryFailed(String),
}

impl CommunicationError {
    /// The human-readable description of the error.
    pub open spec fn description(&self) -> Seq<char> {
        match self {
            CommunicationError::SerializationError(e) => "Message serialization failed: "@ + e@,
            CommunicationError::MessageDeliveryFailed(m) => "Message delivery failed: "@ + m@,
            CommunicationError::InvalidTarget(t) => "Invalid target pane: "@ + t@,
            CommunicationError::PaneNotFound(r) => "Pane not found for role: "@ + r.name(),
            CommunicationError::PaneDiscoveryFailed(m) => "Pane discovery failed: "@ + m@,
        }
    }

    /// Renders the description of the error.
    pub fn describe(&self) -> (r: String)
        ensures
            r@ == self.description(),
    {
        let mut out = String::new();
        match self {
            CommunicationError::SerializationError(e) => {
                out.append("Message serialization failed: ");
                out.append(e.as_str());
            },
            CommunicationError::MessageDeliveryFailed(m) => {
                out.append("Message delivery failed: ");
                out.append(m.as_str());
            },
            CommunicationError::InvalidTarget(t) => {
                out.append("Invalid target pane: ");
                out.append(t.as_str());
            },
            CommunicationError::PaneNotFound(r) => {
                out.append("Pane not found for role: ");
                out.append(r.name_str());
            },
            CommunicationError::PaneDiscoveryFailed(m) => {
                out.append("Pane discovery failed: ");
                out.append(m.as_str());
            },
        }
        out
    }
}

} // verus!
