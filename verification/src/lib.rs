//! Client-side logic for a remote content-moderation web API.
//!
//! The library covers everything about the protocol that can be computed
//! ahead of the wire: endpoint URLs joined onto a normalized base URL,
//! the JSON bodies of moderation requests (optional fields omitted, not
//! sent as null), the text parts and file name of a multipart upload,
//! decoding of JSON response trees into typed results, and the derivation
//! of error messages from failed responses. The network transport itself
//! lives outside the library and hands plain values in and out.

pub mod client;
pub mod encode;
pub mod json;
pub mod requests;
pub mod responses;
pub mod status;
pub mod text;

pub use client::{
    api_failure, deserialization_error, file_read_error, moderation_outcome, request_error,
    usage_outcome, SafeCommsClient, SafeCommsError,
};
pub use encode::FieldValue;
pub use json::Json;
pub use requests::{ImageFileModerationRequest, ImageModerationRequest, TextModerationRequest};
pub use responses::{
    decode_moderation_response, decode_problem_details, decode_usage_response, AddonUsage,
    ModerationIssue, ModerationResponse, ProblemDetails, UsageResponse,
};
pub use text::str_eq;
