//! Typed client for a transactional-email HTTP API: API-key resolution,
//! request framing, JSON request bodies and the classification of replies.
pub mod client;
pub mod emails;
pub mod error;
pub mod json;

pub use error::{ErrorResponse, SendKitError};
pub use emails::{
    Attachment, Emails, SendEmailParams, SendEmailResponse, SendMimeEmailParams, SendMimeEmailResponse,
};
pub use client::{
    finish_failure, finish_success, reply_action, resolve_api_key, PostRequest, ReplyAction, SendKit,
};
