//! Mail-notification processing library.
//!
//! Inbound messages are classified by sender: mail from the one known
//! storefront release sender has structured release metadata extracted from
//! its HTML body, while every other message is normalized into a compact
//! digest for forwarding. The classification, extraction and digest rules,
//! and the orchestration decisions around them, are verified; MIME decoding
//! and HTML parsing are delegated to outside crates behind trusted wrappers.

pub mod classify;
pub mod digest;
pub mod envelope;
pub mod html;
pub mod pipeline;
pub mod release;
pub mod strutil;
