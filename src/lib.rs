//! Coordination core for a multi-pane planning / implementation / review
//! workflow: the message catalog, the envelope wire codec, the role registry
//! and router, and the pure parts of the durable artifact store.
pub mod codec;
pub mod communication;
pub mod coordination_message;
pub mod envelope;
pub mod error;
pub mod file_system;
pub mod litellm_config;
pub mod notification;
pub mod pane_role;
pub mod router;
pub mod text;
pub mod workflow_phase;
pub mod zellij_service;

pub use communication::{Communication, ParsedMessage};
pub use coordination_message::CoordinationMessage;
pub use envelope::MessageEnvelope;
pub use error::CommunicationError;
pub use file_system::{FileSystem, FileSystemError};
pub use litellm_config::LiteLLMConfig;
pub use pane_role::PaneRole;
pub use router::{MessageRouter, PaneInfo};
pub use workflow_phase::WorkflowPhase;
pub use zellij_service::{PaneId, ZellijService};
