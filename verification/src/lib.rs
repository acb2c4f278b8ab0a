//! A verified verification-and-dispatch pipeline for platform interaction
//! webhooks: header validation, ed25519 signature verification over
//! `timestamp || body`, payload decoding, and command dispatch.

pub mod errors;
pub mod hexcode;
pub mod crypto;
pub mod interaction;
pub mod response;
pub mod dispatch;
pub mod pipeline;
pub mod laws;

pub use errors::PipelineError;
