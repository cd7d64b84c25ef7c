//! What the dispatch loop does with a message that it skips: the kind of failure,
//! which decides how it is logged, and counters of each kind for diagnostics.

use vstd::prelude::*;
use crate::compress::CompressError;
use crate::handlers::HandleError;
use crate::pixels::NormalizeError;

verus! {

/// Why a message was skipped.
#[derive(Clone, Copy, Debug, PartialEq, Eq, Structural)]
pub enum SkipReason {
    /// The payload does not parse as the expected schema.
    DecodeFailure,
    /// The payload breaks a size or shape invariant.
    MalformedPayload,
    /// A recognized format that is intentionally not handled.
    UnsupportedFormat,
    /// The conversion routine refused the image.
    ConversionFailure,
    /// The sink rejected the write.
    ForwardFailure,
}

pub open spec fn skip_reason_of(e: HandleError) -> SkipReason {
    match e {
        HandleError::Decode => SkipReason::DecodeFailure,
        HandleError::Normalize(NormalizeError::Unsupported(_)) => SkipReason::UnsupportedFormat,
        HandleError::Compress(CompressError::Encoding) => SkipReason::ConversionFailure,
        _ => SkipReason::MalformedPayload,
    }
}

/// The kind of failure behind a handler error.
pub fn skip_reason(e: &HandleError) -> (r: SkipReason)
    ensures
        r == skip_reason_of(*e),
{
    match e {
        HandleError::Decode => SkipReason::DecodeFailure,
        HandleError::Normalize(NormalizeError::Unsupported(_)) => SkipReason::UnsupportedFormat,
        HandleError::Compress(CompressError::Encoding) => SkipReason::ConversionFailure,
        _ => SkipReason::MalformedPayload,
    }
}

/// Counters of forwarded and skipped messages, owned by one dispatch loop.
#[derive(Clone, Copy, Debug, PartialEq, Eq, Structural)]
pub struct DispatchStats {
    pub forwarded: u64,
    pub decode_failures: u64,
    pub malformed: u64,
    pub unsupported: u64,
    pub conversion_failures: u64,
    pub forward_failures: u64,
}

pub open spec fn bump(x: u64) -> u64 {
    if x < u64::MAX {
        (x + 1) as u64
    } else {
        x
    }
}

fn bump_exec(x: u64) -> (r: u64)
    ensures
        r == bump(x),
{
    if x < u64::MAX {
        x + 1
    } else {
        x
    }
}

impl DispatchStats {
    pub fn new() -> (r: Self)
        ensures
            r == (DispatchStats {
                forwarded: 0,
                decode_failures: 0,
                malformed: 0,
                unsupported: 0,
                conversion_failures: 0,
                forward_failures: 0,
            }),
    {
        DispatchStats {
            forwarded: 0,
            decode_failures: 0,
            malformed: 0,
            unsupported: 0,
            conversion_failures: 0,
            forward_failures: 0,
        }
    }

    /// Counts one forwarded message; the counters saturate.
    pub fn record_forwarded(&mut self)
        ensures
            *final(self) == (DispatchStats { forwarded: bump(old(self).forwarded), ..*old(self) }),
    {
        self.forwarded = bump_exec(self.forwarded);
    }

    /// Counts one skipped message under its reason; the counters saturate.
    pub fn record_skipped(&mut self, reason: SkipReason)
        ensures
            *final(self) == match reason {
                SkipReason::DecodeFailure => DispatchStats {
                    decode_failures: bump(old(self).decode_failures),
                    ..*old(self)
                },
                SkipReason::MalformedPayload => DispatchStats {
                    malformed: bump(old(self).malformed),
                    ..*old(self)
                },
                SkipReason::UnsupportedFormat => DispatchStats {
                    unsupported: bump(old(self).unsupported),
                    ..*old(self)
                },
                SkipReason::ConversionFailure => DispatchStats {
                    conversion_failures: bump(old(self).conversion_failures),
                    ..*old(self)
                },
                SkipReason::ForwardFailure => DispatchStats {
                    forward_failures: bump(old(self).forward_failures),
                    ..*old(self)
                },
            },
    {
        match reason {
            SkipReason::DecodeFailure => self.decode_failures = bump_exec(self.decode_failures),
            SkipReason::MalformedPayload => self.malformed = bump_exec(self.malformed),
            SkipReason::UnsupportedFormat => self.unsupported = bump_exec(self.unsupported),
            SkipReason::ConversionFailure => self.conversion_failures = bump_exec(
                self.conversion_failures,
            ),
            SkipReason::ForwardFailure => self.forward_failures = bump_exec(self.forward_failures),
        }
    }
}

} // verus!
