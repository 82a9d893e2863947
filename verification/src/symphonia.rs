//! The registry-driven codec adapter: a decoder session that a host drives
//! across the life of a demuxed stream.
//!
//! Probing the container, resolving a decoder from the registry and pulling
//! packets are the host's collaborators; this module owns every decision in
//! between: which packets belong to the tracked track, which codec failures
//! are recoverable by skipping a packet and which are fatal, when the true
//! end of the stream has been reached, how the channel/frame cursor walks a
//! decoded frame, when stream metadata changed, how a seek target is clamped
//! into the track's time base, and how the gain multiplier scales every
//! emitted sample.
//!
//! The host loop is: while [`SymphoniaDecoder::needs_packet`], pull the next
//! packet, drop buffered metadata, skip it unless
//! [`SymphoniaDecoder::wants_packet`], decode it, and feed the outcome to
//! [`SymphoniaDecoder::decode_next_packet`]; then pull one sample with
//! [`SymphoniaDecoder::next_sample`].

use vstd::prelude::*;

use crate::CodecError;
use crate::Error;
use crate::IoFailure;
use crate::NextSample;
use crate::sample::FrameBuffer;
use crate::sample::apply_gain;
use crate::sample::apply_gain_spec;
use crate::sample::extract_sample_from_ref;
use crate::sample::to_i16_spec;

verus! {

/// The message the byte-source layer attaches to the one I/O failure that
/// means the stream is simply over: the bytes of "end of stream".
pub open spec fn eos_marker() -> Seq<u8> {
    seq![101u8, 110u8, 100u8, 32u8, 111u8, 102u8, 32u8, 115u8, 116u8, 114u8, 101u8, 97u8, 109u8]
}

/// True end of stream: an unexpected-end I/O failure whose message is
/// exactly the stream-exhaustion marker. Any other I/O failure is a real
/// error.
pub open spec fn is_end_of_stream_spec(f: IoFailure) -> bool {
    f.unexpected_eof && f.message@ == eos_marker()
}

/// The stream-exhaustion marker as bytes.
fn eos_marker_bytes() -> (v: Vec<u8>)
    ensures
        v@ == eos_marker(),
{
    let mut v: Vec<u8> = Vec::new();
    v.push(101u8);
    v.push(110u8);
    v.push(100u8);
    v.push(32u8);
    v.push(111u8);
    v.push(102u8);
    v.push(32u8);
    v.push(115u8);
    v.push(116u8);
    v.push(114u8);
    v.push(101u8);
    v.push(97u8);
    v.push(109u8);
    proof {
        assert(v@ =~= eos_marker());
    }
    v
}

/// Decide whether an I/O failure is the true end of the stream.
pub fn is_end_of_stream(f: &IoFailure) -> (r: bool)
    ensures
        r == is_end_of_stream_spec(*f),
{
    if !f.unexpected_eof {
        return false;
    }
    let marker: Vec<u8> = eos_marker_bytes();
    if f.message.len() != marker.len() {
        return false;
    }
    let mut i: usize = 0;
    while i < marker.len()
        invariant
            i <= marker@.len(),
            marker@ == eos_marker(),
            f.message@.len() == marker@.len(),
            forall|k: int| 0 <= k < i ==> f.message@[k] == marker@[k],
        decreases marker@.len() - i,
    {
        if f.message[i] != marker[i] {
            return false;
        }
        i = i + 1;
    }
    proof {
        assert(f.message@ =~= eos_marker());
    }
    true
}

/// A codec failure the session recovers from by skipping the packet: a bad
/// packet, or a codec-requested reset.
pub open spec fn is_recoverable(e: CodecError) -> bool {
    e is DecodeError || e is ResetRequired
}

/// Whether new frame metadata differs from what the session last recorded.
pub open spec fn metadata_changed_spec(
    old_rate: u32,
    old_mask: u32,
    rate: u32,
    mask: u32,
) -> bool {
    rate != old_rate || mask != old_mask
}

/// A recorded metadata pair never differs from itself: once a change has
/// been surfaced and the new values recorded, decoding further frames with
/// the same metadata surfaces no further change signal.
pub proof fn lemma_metadata_signal_once(rate: u32, mask: u32)
    ensures
        !metadata_changed_spec(rate, mask, rate, mask),
{
}

/// What the host hands back for one pulled packet: either a decoded frame
/// with the metadata its codec reported, or the codec-layer failure.
#[derive(Debug)]
pub enum DecodeOutcome {
    Decoded { buffer: FrameBuffer, rate: u32, channels: u32 },
    Failed(CodecError),
}

/// The session's decision on one packet outcome.
#[derive(Debug)]
pub enum PacketStep {
    /// A frame was installed; the cursor was reset; `metadata_changed` says
    /// whether the stream's sample rate or channel layout moved.
    Ready { metadata_changed: bool },
    /// Recoverable: skip this packet and pull the next one.
    Skip,
    /// The stream is over; a terminal signal, not an error.
    Finished,
    /// Fatal: propagate and stop emitting samples.
    Fatal(Error),
}

/// Where a seek lands: a clamped timestamp in the track's time base when one
/// is known, else the raw wall-clock target.
#[derive(Debug)]
pub enum SeekPlan {
    TimeStamp { ts: u64, track_id: u32 },
    Time { ms: u64, track_id: u32 },
}

/// A target in milliseconds converted into a track time base of `num/denom`
/// seconds per timestamp unit.
pub open spec fn timestamp_of_ms(ms: int, num: int, denom: int) -> int {
    (ms * denom) / (num * 1000)
}

/// The normalized channel cursor: when the channel index has run past the
/// channel count it wraps to zero (and the sample index advances).
pub open spec fn norm_channel(ch: int, nch: int) -> int {
    if ch >= nch {
        0
    } else {
        ch
    }
}

/// The normalized sample index, advanced when the channel cursor wraps.
pub open spec fn norm_sample(ch: int, si: int, nch: int) -> int {
    if ch >= nch {
        si + 1
    } else {
        si
    }
}

/// A decoder session for a registry-resolved codec: the tracked track id,
/// the last recorded stream metadata, the cursor into the last decoded
/// frame, the gain multiplier, and the track's time base for seeking.
pub struct SymphoniaDecoder {
    sample_rate: u32,
    channels: u32,
    /// currently playing track id
    pub track_id: u32,
    next_channel_idx: u16,
    next_sample_idx: usize,
    sample_mult: u16,
    buf: FrameBuffer,
    time_base: Option<(u32, u32)>,
    n_frames: Option<u64>,
    params_rate: Option<u32>,
}

impl SymphoniaDecoder {
    /// The last recorded sample rate.
    pub closed spec fn spec_sample_rate(&self) -> u32 {
        self.sample_rate
    }

    /// The last recorded channel layout mask.
    pub closed spec fn spec_channels_mask(&self) -> u32 {
        self.channels
    }

    /// The tracked track id.
    pub closed spec fn spec_track_id(&self) -> u32 {
        self.track_id
    }

    /// The gain multiplier in Q15 fixed point (32768 is unity).
    pub closed spec fn spec_gain(&self) -> u16 {
        self.sample_mult
    }

    /// The last decoded frame.
    pub closed spec fn spec_buf(&self) -> FrameBuffer {
        self.buf
    }

    /// The raw channel cursor.
    pub closed spec fn spec_channel_idx(&self) -> int {
        self.next_channel_idx as int
    }

    /// The raw sample cursor.
    pub closed spec fn spec_sample_idx(&self) -> int {
        self.next_sample_idx as int
    }

    /// The track's time base, as `(numerator, denominator)` seconds per
    /// timestamp unit, if the container declares one.
    pub closed spec fn spec_time_base(&self) -> Option<(u32, u32)> {
        self.time_base
    }

    /// The track's total frame count, if the container declares one.
    pub closed spec fn spec_n_frames(&self) -> Option<u64> {
        self.n_frames
    }

    /// The sample rate the codec parameters declared, if any; seeking needs
    /// it to report the position reached.
    pub closed spec fn spec_params_rate(&self) -> Option<u32> {
        self.params_rate
    }

    /// Session invariant: gain within unity, a well-formed frame whose
    /// channel count fits the 16-bit cursor, a positive time base when one
    /// is present, and a channel cursor never beyond the channel count.
    pub closed spec fn wf(&self) -> bool {
        &&& self.sample_mult <= 32768
        &&& self.buf.wf()
        &&& self.buf.spec_channels() <= 0xFFFF
        &&& (self.time_base matches Some(t) ==> t.0 > 0 && t.1 > 0)
        &&& self.next_channel_idx as int <= self.buf.spec_channels() as int
        &&& self.next_sample_idx as int <= self.buf.spec_frames()
    }

    /// Whether the current frame is exhausted, so that the next sample needs
    /// a new packet decoded first.
    pub open spec fn needs_packet_spec(&self) -> bool {
        norm_sample(
            self.spec_channel_idx(),
            self.spec_sample_idx(),
            self.spec_buf().spec_channels() as int,
        ) >= self.spec_buf().spec_frames()
    }

    /// A fresh session for one track. The recorded metadata starts at the
    /// placeholder rate 1000 with an empty channel layout, so the first
    /// decoded frame recomputes both; the caller discards that first change
    /// signal, since no consumer has observed prior values. The gain starts
    /// at unity and the cursor demands a packet at once.
    pub fn new(
        track_id: u32,
        time_base: Option<(u32, u32)>,
        n_frames: Option<u64>,
        params_rate: Option<u32>,
    ) -> (r: SymphoniaDecoder)
        requires
            time_base matches Some(t) ==> t.0 > 0 && t.1 > 0,
        ensures
            r.wf(),
            r.spec_track_id() == track_id,
            r.spec_sample_rate() == 1000,
            r.spec_channels_mask() == 0,
            r.spec_gain() == 32768,
            r.spec_time_base() == time_base,
            r.spec_n_frames() == n_frames,
            r.spec_params_rate() == params_rate,
            r.needs_packet_spec(),
    {
        SymphoniaDecoder {
            sample_rate: 1000,
            channels: 0,
            track_id,
            next_channel_idx: 0,
            next_sample_idx: 0,
            sample_mult: 32768,
            buf: FrameBuffer::new(crate::sample::SampleKind::S16, 0, 0),
            time_base,
            n_frames,
            params_rate,
        }
    }

    /// The channel count of the current frame.
    pub fn channel_count(&self) -> (r: u16)
        requires
            self.wf(),
        ensures
            r as int == self.spec_buf().spec_channels() as int,
    {
        self.buf.channel_count() as u16
    }

    /// The last recorded sample rate.
    pub fn sample_rate(&self) -> (r: u32)
        ensures
            r == self.spec_sample_rate(),
    {
        self.sample_rate
    }

    /// Only packets of the tracked track are decoded; all others are skipped
    /// without error, and skipping mutates nothing.
    pub fn wants_packet(&self, track_id: u32) -> (r: bool)
        ensures
            r == (track_id == self.spec_track_id()),
    {
        track_id == self.track_id
    }

    /// Whether the next sample requires a new packet decoded first.
    pub fn needs_packet(&self) -> (r: bool)
        requires
            self.wf(),
        ensures
            r == self.needs_packet_spec(),
    {
        let nch: usize = self.buf.channel_count();
        let frames: usize = self.buf.frames();
        if (self.next_channel_idx as usize) >= nch {
            frames == 0 || self.next_sample_idx >= frames - 1
        } else {
            self.next_sample_idx >= frames
        }
    }

    /// Digest the outcome of decoding one packet of the tracked track.
    ///
    /// A decoded frame is installed, the cursor reset, and the change flag
    /// computed against the recorded metadata, which is updated. A bad
    /// packet or a codec-requested reset is recoverable: the session is left
    /// untouched and the host skips to the next packet. The one I/O failure
    /// carrying the stream-exhaustion marker is the terminal finish signal;
    /// every other failure is fatal, mapped through the error taxonomy.
    pub fn decode_next_packet(&mut self, outcome: DecodeOutcome) -> (r: PacketStep)
        requires
            old(self).wf(),
            outcome matches DecodeOutcome::Decoded { buffer, .. } ==> buffer.wf()
                && buffer.spec_channels() <= 0xFFFF,
        ensures
            final(self).wf(),
            final(self).spec_track_id() == old(self).spec_track_id(),
            final(self).spec_gain() == old(self).spec_gain(),
            final(self).spec_time_base() == old(self).spec_time_base(),
            final(self).spec_n_frames() == old(self).spec_n_frames(),
            final(self).spec_params_rate() == old(self).spec_params_rate(),
            outcome matches DecodeOutcome::Decoded { buffer, rate, channels } ==> {
                &&& r == (PacketStep::Ready {
                    metadata_changed: metadata_changed_spec(
                        old(self).spec_sample_rate(),
                        old(self).spec_channels_mask(),
                        rate,
                        channels,
                    ),
                })
                &&& final(self).spec_buf() == buffer
                &&& final(self).spec_sample_rate() == rate
                &&& final(self).spec_channels_mask() == channels
                &&& final(self).spec_channel_idx() == 0
                &&& final(self).spec_sample_idx() == 0
            },
            outcome matches DecodeOutcome::Failed(e) ==> {
                &&& *final(self) == *old(self)
                &&& is_recoverable(e) ==> r is Skip
                &&& (e matches CodecError::IoError(f) ==> (if is_end_of_stream_spec(f) {
                    r is Finished
                } else {
                    r == PacketStep::Fatal(Error::IoError(f))
                }))
                &&& (!is_recoverable(e) && !(e is IoError)) ==> r == PacketStep::Fatal(
                    Error::FormatError(e),
                )
            },
    {
        match outcome {
            DecodeOutcome::Decoded { buffer, rate, channels } => {
                self.next_channel_idx = 0;
                self.next_sample_idx = 0;
                let mut changed: bool = false;
                if channels != self.channels {
                    self.channels = channels;
                    changed = true;
                }
                if rate != self.sample_rate {
                    self.sample_rate = rate;
                    changed = true;
                }
                self.buf = buffer;
                PacketStep::Ready { metadata_changed: changed }
            },
            DecodeOutcome::Failed(e) => match e {
                CodecError::DecodeError => PacketStep::Skip,
                CodecError::ResetRequired => PacketStep::Skip,
                CodecError::IoError(f) => {
                    if is_end_of_stream(&f) {
                        PacketStep::Finished
                    } else {
                        PacketStep::Fatal(Error::IoError(f))
                    }
                },
                other => PacketStep::Fatal(Error::FormatError(other)),
            },
        }
    }

    /// Emit one sample from the current frame: normalize the cursor, extract
    /// the sample at it, scale it by the gain multiplier, and advance the
    /// channel cursor. The caller must have decoded a packet when the frame
    /// is exhausted; that is what [`SymphoniaDecoder::needs_packet`] reports.
    pub fn next_sample(&mut self) -> (r: NextSample)
        requires
            old(self).wf(),
            !old(self).needs_packet_spec(),
        ensures
            final(self).wf(),
            ({
                let nch = old(self).spec_buf().spec_channels() as int;
                let c = norm_channel(old(self).spec_channel_idx(), nch);
                let s = norm_sample(old(self).spec_channel_idx(), old(self).spec_sample_idx(), nch);
                &&& r matches NextSample::Sample(x) && x as int == apply_gain_spec(
                    to_i16_spec(old(self).spec_buf().plane(c)[s]),
                    old(self).spec_gain() as int,
                )
                &&& final(self).spec_channel_idx() == c + 1
                &&& final(self).spec_sample_idx() == s
            }),
            final(self).spec_buf() == old(self).spec_buf(),
            final(self).spec_sample_rate() == old(self).spec_sample_rate(),
            final(self).spec_channels_mask() == old(self).spec_channels_mask(),
            final(self).spec_track_id() == old(self).spec_track_id(),
            final(self).spec_gain() == old(self).spec_gain(),
            final(self).spec_time_base() == old(self).spec_time_base(),
            final(self).spec_n_frames() == old(self).spec_n_frames(),
            final(self).spec_params_rate() == old(self).spec_params_rate(),
    {
        proof {
            self.buf.lemma_frames_need_channels();
        }
        let nch: usize = self.buf.channel_count();
        let frames: usize = self.buf.frames();
        if (self.next_channel_idx as usize) >= nch {
            self.next_channel_idx = 0;
            self.next_sample_idx = self.next_sample_idx + 1;
        }
        let s: i16 = extract_sample_from_ref(&self.buf, self.next_channel_idx, self.next_sample_idx);
        let scaled: i16 = apply_gain(s, self.sample_mult);
        self.next_channel_idx = self.next_channel_idx + 1;
        NextSample::Sample(scaled)
    }

    /// A host hook called at the start of each output batch; this decoder
    /// has nothing to do there.
    pub fn on_start_of_batch(&mut self)
        ensures
            *final(self) == *old(self),
    {
    }

    /// Plan a seek to `target_ms` milliseconds. With a known time base and
    /// frame count, the target is converted into the track's time base and
    /// clamped to at most the last representable frame, never erroring on an
    /// overlong target; otherwise the raw wall-clock time is used. The host
    /// performs the coarse seek this plan describes.
    pub fn seek(&self, target_ms: u64) -> (r: SeekPlan)
        requires
            self.wf(),
        ensures
            (match (self.spec_time_base(), self.spec_n_frames()) {
                (Some(t), Some(max)) => r == (SeekPlan::TimeStamp {
                    ts: (if max == 0 {
                        0u64
                    } else if timestamp_of_ms(target_ms as int, t.0 as int, t.1 as int) > max - 1 {
                        (max - 1) as u64
                    } else {
                        timestamp_of_ms(target_ms as int, t.0 as int, t.1 as int) as u64
                    }),
                    track_id: self.spec_track_id(),
                }),
                _ => r == (SeekPlan::Time { ms: target_ms, track_id: self.spec_track_id() }),
            }),
    {
        if let (Some((num, denom)), Some(max)) = (self.time_base, self.n_frames) {
            proof {
                vstd::arithmetic::mul::lemma_mul_upper_bound(
                    target_ms as int,
                    0xFFFF_FFFF_FFFF_FFFF,
                    denom as int,
                    0xFFFF_FFFF,
                );
            }
            let dividend: u128 = (target_ms as u128) * (denom as u128);
            let divisor: u128 = (num as u128) * 1000;
            let ts: u128 = dividend / divisor;
            let clamped: u64 = if max == 0 {
                0
            } else if ts > ((max - 1) as u128) {
                max - 1
            } else {
                ts as u64
            };
            SeekPlan::TimeStamp { ts: clamped, track_id: self.track_id }
        } else {
            SeekPlan::Time { ms: target_ms, track_id: self.track_id }
        }
    }

    /// Report the position a performed seek reached: the timestamp the
    /// demuxer landed on, converted back to milliseconds through the sample
    /// rate the codec parameters declared. Without a known positive declared
    /// rate, seeking is a configuration error.
    pub fn seek_position(&self, actual_ts: u64) -> (r: Result<u64, Error>)
        requires
            actual_ts <= 0xFFFF_FFFF_FFFF_FFFFu64 / 1000,
        ensures
            (match self.spec_params_rate() {
                Some(rate) => if rate > 0 {
                    r == Ok::<u64, Error>((actual_ts * 1000) as u64 / rate as u64)
                } else {
                    r == Err::<u64, Error>(Error::Configuration)
                },
                None => r == Err::<u64, Error>(Error::Configuration),
            }),
    {
        match self.params_rate {
            Some(rate) => {
                if rate > 0 {
                    Ok((actual_ts * 1000) / (rate as u64))
                } else {
                    Err(Error::Configuration)
                }
            },
            None => Err(Error::Configuration),
        }
    }

    /// Set the gain multiplier, in Q15 fixed point (32768 is unity): values
    /// above unity clamp to unity, negative values clamp to zero. Takes
    /// effect from the next extracted sample.
    pub fn set_sample_mult(&mut self, mult: i64)
        requires
            old(self).wf(),
        ensures
            final(self).wf(),
            final(self).spec_gain() as int == crate::sample::clamp_int(mult as int, 0, 32768),
            final(self).spec_buf() == old(self).spec_buf(),
            final(self).spec_sample_rate() == old(self).spec_sample_rate(),
            final(self).spec_channels_mask() == old(self).spec_channels_mask(),
            final(self).spec_track_id() == old(self).spec_track_id(),
            final(self).spec_channel_idx() == old(self).spec_channel_idx(),
            final(self).spec_sample_idx() == old(self).spec_sample_idx(),
            final(self).spec_time_base() == old(self).spec_time_base(),
            final(self).spec_n_frames() == old(self).spec_n_frames(),
            final(self).spec_params_rate() == old(self).spec_params_rate(),
    {
        let clamped: u16 = if mult < 0 {
            0
        } else if mult > 32768 {
            32768
        } else {
            mult as u16
        };
        self.sample_mult = clamped;
    }
}

} // verus!
