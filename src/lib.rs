//! Message schema and encoding rules for a push-notification service:
//! outbound messages and their builder, the priority scale, inbound
//! responses, and the document form in which all of them travel.
pub mod priority;
pub mod wire;
pub mod message;
pub mod builder;
pub mod response;

pub use builder::NtfyMsgBuilder;
pub use message::{NtfyAction, NtfyActionType, NtfyMsg};
pub use priority::NtfyPriority;
pub use response::{NtfyAttachment, NtfyErrorResponse, NtfyResponse};
pub use wire::{DecodeError, WireValue};
