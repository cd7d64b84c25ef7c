//! Verified core of a bridge from a topic-based message bus to a visualization sink:
//! topic routing, message envelopes and decoding, pixel-format normalization and
//! the sink connection supervisor.

pub mod color;
pub mod compress;
pub mod decode;
pub mod dispatch;
pub mod envelope;
pub mod handlers;
pub mod pixels;
pub mod registry;
pub mod topic;
pub mod supervisor;
