use audio_decode::sample::FrameBuffer;
use audio_decode::sample::SampleKind;
use audio_decode::sample::SampleValue;
use audio_decode::symphonia::is_end_of_stream;
use audio_decode::symphonia::DecodeOutcome;
use audio_decode::symphonia::PacketStep;
use audio_decode::symphonia::SeekPlan;
use audio_decode::symphonia::SymphoniaDecoder;
use audio_decode::CodecError;
use audio_decode::Error;
use audio_decode::IoFailure;
use audio_decode::NextSample;

fn stereo_frame(values: &[(i16, i16)]) -> FrameBuffer {
    let left: Vec<SampleValue> = values.iter().map(|p| SampleValue::S16(p.0)).collect();
    let right: Vec<SampleValue> = values.iter().map(|p| SampleValue::S16(p.1)).collect();
    FrameBuffer::try_from_planes(SampleKind::S16, vec![left, right]).unwrap()
}

fn decoded(buffer: FrameBuffer, rate: u32, channels: u32) -> DecodeOutcome {
    DecodeOutcome::Decoded { buffer, rate, channels }
}

fn eos_failure() -> CodecError {
    CodecError::IoError(IoFailure {
        unexpected_eof: true,
        message: b"end of stream".to_vec(),
    })
}

#[test]
fn packets_of_other_tracks_are_skipped_without_state_change() {
    let mut d = SymphoniaDecoder::new(7, None, None, None);
    assert!(d.wants_packet(7));
    assert!(!d.wants_packet(8));
    // Skipping is a pure decision: the cursor still demands a packet and a
    // frame decoded afterwards behaves exactly as if nothing intervened.
    assert!(d.needs_packet());
    let step = d.decode_next_packet(decoded(stereo_frame(&[(5, 6)]), 44100, 3));
    assert!(matches!(step, PacketStep::Ready { .. }));
    assert!(!d.needs_packet());
    assert_eq!(d.next_sample(), NextSample::Sample(5));
    assert_eq!(d.next_sample(), NextSample::Sample(6));
}

#[test]
fn metadata_change_is_surfaced_exactly_once() {
    let mut d = SymphoniaDecoder::new(1, None, None, None);
    // The first decode recomputes metadata against the placeholder values;
    // the caller discards that signal.
    let step = d.decode_next_packet(decoded(stereo_frame(&[(0, 0)]), 44100, 3));
    assert!(matches!(step, PacketStep::Ready { metadata_changed: true }));
    // Unchanged metadata surfaces no further signal.
    let step = d.decode_next_packet(decoded(stereo_frame(&[(0, 0)]), 44100, 3));
    assert!(matches!(step, PacketStep::Ready { metadata_changed: false }));
    let step = d.decode_next_packet(decoded(stereo_frame(&[(0, 0)]), 44100, 3));
    assert!(matches!(step, PacketStep::Ready { metadata_changed: false }));
    // A rate change surfaces one signal, then quiet again.
    let step = d.decode_next_packet(decoded(stereo_frame(&[(0, 0)]), 48000, 3));
    assert!(matches!(step, PacketStep::Ready { metadata_changed: true }));
    assert_eq!(d.sample_rate(), 48000);
    let step = d.decode_next_packet(decoded(stereo_frame(&[(0, 0)]), 48000, 3));
    assert!(matches!(step, PacketStep::Ready { metadata_changed: false }));
    // A channel layout change alone surfaces one signal too.
    let step = d.decode_next_packet(decoded(stereo_frame(&[(0, 0)]), 48000, 1));
    assert!(matches!(step, PacketStep::Ready { metadata_changed: true }));
}

#[test]
fn bad_packets_and_reset_required_are_skipped() {
    let mut d = SymphoniaDecoder::new(1, None, None, None);
    assert!(matches!(
        d.decode_next_packet(DecodeOutcome::Failed(CodecError::DecodeError)),
        PacketStep::Skip
    ));
    assert!(matches!(
        d.decode_next_packet(DecodeOutcome::Failed(CodecError::ResetRequired)),
        PacketStep::Skip
    ));
}

#[test]
fn true_end_of_stream_finishes_and_other_io_failures_are_fatal() {
    let mut d = SymphoniaDecoder::new(1, None, None, None);
    assert!(matches!(
        d.decode_next_packet(DecodeOutcome::Failed(eos_failure())),
        PacketStep::Finished
    ));
    // The same message without the unexpected-end kind is a real error.
    let other = CodecError::IoError(IoFailure {
        unexpected_eof: false,
        message: b"end of stream".to_vec(),
    });
    assert!(matches!(
        d.decode_next_packet(DecodeOutcome::Failed(other)),
        PacketStep::Fatal(Error::IoError(_))
    ));
    // An unexpected end with a different message is a real error too.
    let other = CodecError::IoError(IoFailure {
        unexpected_eof: true,
        message: b"connection reset".to_vec(),
    });
    assert!(matches!(
        d.decode_next_packet(DecodeOutcome::Failed(other)),
        PacketStep::Fatal(Error::IoError(_))
    ));
}

#[test]
fn non_io_failures_map_to_format_errors() {
    let mut d = SymphoniaDecoder::new(1, None, None, None);
    assert!(matches!(
        d.decode_next_packet(DecodeOutcome::Failed(CodecError::Unsupported)),
        PacketStep::Fatal(Error::FormatError(CodecError::Unsupported))
    ));
    assert!(matches!(
        d.decode_next_packet(DecodeOutcome::Failed(CodecError::SeekError)),
        PacketStep::Fatal(Error::FormatError(CodecError::SeekError))
    ));
    assert!(matches!(
        d.decode_next_packet(DecodeOutcome::Failed(CodecError::LimitError)),
        PacketStep::Fatal(Error::FormatError(CodecError::LimitError))
    ));
}

#[test]
fn error_taxonomy_passes_io_through_and_wraps_the_rest() {
    let e = Error::from(CodecError::IoError(IoFailure {
        unexpected_eof: false,
        message: b"oops".to_vec(),
    }));
    assert!(matches!(e, Error::IoError(_)));
    assert!(matches!(
        Error::from(CodecError::DecodeError),
        Error::FormatError(CodecError::DecodeError)
    ));
    assert!(matches!(
        Error::from(CodecError::ResetRequired),
        Error::FormatError(CodecError::ResetRequired)
    ));
}

#[test]
fn end_of_stream_marker_must_match_exactly() {
    let f = IoFailure { unexpected_eof: true, message: b"end of stream".to_vec() };
    assert!(is_end_of_stream(&f));
    let f = IoFailure { unexpected_eof: true, message: b"end of strea".to_vec() };
    assert!(!is_end_of_stream(&f));
    let f = IoFailure { unexpected_eof: true, message: b"end of streamX".to_vec() };
    assert!(!is_end_of_stream(&f));
    let f = IoFailure { unexpected_eof: false, message: b"end of stream".to_vec() };
    assert!(!is_end_of_stream(&f));
}

#[test]
fn cursor_walks_channels_then_frames() {
    let mut d = SymphoniaDecoder::new(1, None, None, None);
    let step = d.decode_next_packet(decoded(stereo_frame(&[(1, 2), (3, 4)]), 44100, 3));
    assert!(matches!(step, PacketStep::Ready { .. }));
    assert_eq!(d.channel_count(), 2);
    assert_eq!(d.next_sample(), NextSample::Sample(1));
    assert_eq!(d.next_sample(), NextSample::Sample(2));
    assert_eq!(d.next_sample(), NextSample::Sample(3));
    assert!(!d.needs_packet());
    assert_eq!(d.next_sample(), NextSample::Sample(4));
    // The frame is exhausted: the next sample needs a packet first.
    assert!(d.needs_packet());
}

#[test]
fn gain_clamps_and_scales_subsequent_samples() {
    let mut d = SymphoniaDecoder::new(1, None, None, None);
    d.decode_next_packet(decoded(stereo_frame(&[(1000, -32768), (32767, 4)]), 44100, 3));
    // 2.0 in Q15 is 65536: clamps to unity.
    d.set_sample_mult(65536);
    assert_eq!(d.next_sample(), NextSample::Sample(1000));
    assert_eq!(d.next_sample(), NextSample::Sample(-32768));
    // -1.0 in Q15 is -32768: clamps to zero.
    d.set_sample_mult(-32768);
    assert_eq!(d.next_sample(), NextSample::Sample(0));
    assert_eq!(d.next_sample(), NextSample::Sample(0));
    // Half gain scales and stays in range.
    d.decode_next_packet(decoded(stereo_frame(&[(-32768, 32767)]), 44100, 3));
    d.set_sample_mult(16384);
    assert_eq!(d.next_sample(), NextSample::Sample(-16384));
    assert_eq!(d.next_sample(), NextSample::Sample(16383));
}

#[test]
fn seek_clamps_to_the_last_representable_frame() {
    // Time base of 1/1000 seconds per tick, 100 frames in the track.
    let d = SymphoniaDecoder::new(9, Some((1, 1000)), Some(100), Some(1000));
    match d.seek(50) {
        SeekPlan::TimeStamp { ts, track_id } => {
            assert_eq!(ts, 50);
            assert_eq!(track_id, 9);
        }
        _ => panic!("expected a timestamp seek"),
    }
    // A target far beyond the track clamps to the last frame, not an error.
    match d.seek(1_000_000) {
        SeekPlan::TimeStamp { ts, .. } => assert_eq!(ts, 99),
        _ => panic!("expected a timestamp seek"),
    }
    // The reached position converts back through the declared rate.
    assert_eq!(d.seek_position(99).unwrap(), 99);
}

#[test]
fn seek_without_a_time_base_falls_back_to_wall_time() {
    let d = SymphoniaDecoder::new(2, None, Some(100), Some(48000));
    match d.seek(1234) {
        SeekPlan::Time { ms, track_id } => {
            assert_eq!(ms, 1234);
            assert_eq!(track_id, 2);
        }
        _ => panic!("expected a wall-time seek"),
    }
}

#[test]
fn seek_position_needs_a_known_sample_rate() {
    let d = SymphoniaDecoder::new(2, None, None, None);
    assert!(matches!(d.seek_position(10), Err(Error::Configuration)));
    let d = SymphoniaDecoder::new(2, None, None, Some(0));
    assert!(matches!(d.seek_position(10), Err(Error::Configuration)));
    let d = SymphoniaDecoder::new(2, None, None, Some(48000));
    // 48000 ticks at 48 kHz is one second.
    assert_eq!(d.seek_position(48000).unwrap(), 1000);
}
