use topic_bridge::compress::CompressError;
use topic_bridge::dispatch::{skip_reason, DispatchStats, SkipReason};
use topic_bridge::handlers::HandleError;
use topic_bridge::pixels::{NormalizeError, PixelFormat};

#[test]
fn skip_reasons_follow_the_taxonomy() {
    assert_eq!(skip_reason(&HandleError::Decode), SkipReason::DecodeFailure);
    assert_eq!(
        skip_reason(&HandleError::Normalize(NormalizeError::Unsupported(PixelFormat::Yuv444))),
        SkipReason::UnsupportedFormat
    );
    assert_eq!(
        skip_reason(&HandleError::Normalize(NormalizeError::SizeMismatch { expected: 6, actual: 5 })),
        SkipReason::MalformedPayload
    );
    assert_eq!(skip_reason(&HandleError::MissingImage), SkipReason::MalformedPayload);
    assert_eq!(skip_reason(&HandleError::Compress(CompressError::Encoding)), SkipReason::ConversionFailure);
}

#[test]
fn stats_count_each_reason() {
    let mut stats = DispatchStats::new();
    stats.record_forwarded();
    stats.record_forwarded();
    stats.record_skipped(SkipReason::UnsupportedFormat);
    stats.record_skipped(SkipReason::MalformedPayload);
    stats.record_skipped(SkipReason::ForwardFailure);
    assert_eq!(stats.forwarded, 2);
    assert_eq!(stats.unsupported, 1);
    assert_eq!(stats.malformed, 1);
    assert_eq!(stats.forward_failures, 1);
    assert_eq!(stats.decode_failures, 0);
}

#[test]
fn stats_saturate() {
    let mut stats = DispatchStats::new();
    stats.forwarded = u64::MAX;
    stats.record_forwarded();
    assert_eq!(stats.forwarded, u64::MAX);
}
