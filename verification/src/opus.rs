//! The Opus adapter: per-packet state for a stateful Opus codec.
//!
//! The codec itself is a foreign, stateful library that the host owns; this
//! module holds every decision around one decode call: which sample rates are
//! admissible, how large the interleaved scratch buffer must be, how it grows
//! on a "buffer too small" signal (doubling, under a hard ceiling), when a
//! packet is rejected outright, and how a successful raw frame is split into
//! per-channel planes. The host drives the retry loop: it calls the codec
//! with a scratch buffer of [`OpusDecoder::capacity`] samples, then feeds the
//! outcome back through [`OpusDecoder::grow_buffer`] or
//! [`OpusDecoder::accept_frame`].
//!
//! Output is fixed to stereo for now: the adapter always asks the codec for
//! two channels regardless of the source encoding. This is a documented
//! simplification, not negotiated per stream.

use vstd::prelude::*;

use crate::Error;
use crate::CodecError;
use crate::sample::FrameBuffer;
use crate::sample::SampleKind;
use crate::sample::SampleValue;

verus! {

/// Nominal packets per second: one packet carries 20 ms of audio.
pub const AUDIO_FRAME_RATE: usize = 50;

/// The hard ceiling on the scratch buffer, in samples: the largest count the
/// codec's 32-bit interface can address.
pub const MAX_RAW_SAMPLES: usize = 0x7fff_ffff;

/// The fixed admissible set of Opus sample rates.
pub open spec fn valid_opus_rate(r: u32) -> bool {
    r == 8000 || r == 12000 || r == 16000 || r == 24000 || r == 48000
}

/// The growth rule: double, saturating at the ceiling.
pub open spec fn grown_capacity(c: int) -> int {
    if 2 * c < 0x7fff_ffff {
        2 * c
    } else {
        0x7fff_ffff
    }
}

/// Growth is monotone, strictly so below the ceiling, and never exceeds the
/// ceiling: a retry loop that grows on every pass either succeeds or reaches
/// the ceiling after finitely many passes.
pub proof fn lemma_growth_bounded(c: int)
    requires
        1 <= c <= 0x7fff_ffff,
    ensures
        grown_capacity(c) >= c,
        c < 0x7fff_ffff ==> grown_capacity(c) > c,
        grown_capacity(c) <= 0x7fff_ffff,
{
}

/// Per-session Opus decode state: the negotiated sample rate, the current
/// scratch capacity (interleaved samples), and the last decoded frame split
/// into stereo planes.
pub struct OpusDecoder {
    sample_rate: u32,
    capacity: usize,
    buf: FrameBuffer,
}

impl OpusDecoder {
    /// The negotiated sample rate.
    pub closed spec fn spec_sample_rate(&self) -> u32 {
        self.sample_rate
    }

    /// The scratch capacity the host must decode into, in interleaved samples.
    pub closed spec fn spec_capacity(&self) -> nat {
        self.capacity as nat
    }

    /// The last decoded frame.
    pub closed spec fn spec_buf(&self) -> FrameBuffer {
        self.buf
    }

    /// Session invariant: an admissible rate, a scratch capacity between the
    /// nominal stereo frame size and the ceiling, and a well-formed stereo
    /// 16-bit output buffer whose frames fit the scratch capacity.
    pub closed spec fn wf(&self) -> bool {
        &&& valid_opus_rate(self.sample_rate)
        &&& 2 * (self.sample_rate as int / 50) <= self.capacity as int <= 0x7fff_ffff
        &&& self.buf.wf()
        &&& self.buf.spec_kind() == SampleKind::S16
        &&& self.buf.spec_channels() == 2
        &&& 2 * self.buf.spec_frames() <= self.capacity as int
    }

    /// Create a session. The sample rate must come from the fixed admissible
    /// set; any other value, or an absent one, is a configuration error and
    /// nothing is decoded. On success the scratch buffer holds one nominal
    /// 20 ms stereo frame and the output buffer is empty.
    pub fn try_new(sample_rate: Option<u32>) -> (r: Result<OpusDecoder, Error>)
        ensures
            r is Ok <==> (sample_rate matches Some(sr) && valid_opus_rate(sr)),
            r matches Ok(d) ==> {
                &&& d.wf()
                &&& sample_rate matches Some(sr) && d.spec_sample_rate() == sr
                &&& d.spec_capacity() == 2 * (d.spec_sample_rate() as int / 50)
                &&& d.spec_buf().spec_frames() == 0
            },
            r is Err ==> r == Err::<OpusDecoder, Error>(Error::Configuration),
    {
        let rate: u32 = match sample_rate {
            Some(48000) => 48000,
            Some(24000) => 24000,
            Some(16000) => 16000,
            Some(12000) => 12000,
            Some(8000) => 8000,
            _ => {
                return Err(Error::Configuration);
            },
        };
        let mono_frame_size: usize = (rate as usize) / AUDIO_FRAME_RATE;
        let stereo_frame_size: usize = mono_frame_size * 2;
        Ok(
            OpusDecoder {
                sample_rate: rate,
                capacity: stereo_frame_size,
                buf: FrameBuffer::new(SampleKind::S16, 2, 0),
            },
        )
    }

    /// The negotiated sample rate.
    pub fn sample_rate(&self) -> (r: u32)
        ensures
            r == self.spec_sample_rate(),
    {
        self.sample_rate
    }

    /// Samples per channel in one nominal 20 ms packet.
    pub fn frame_size(&self) -> (r: usize)
        ensures
            r == self.spec_sample_rate() as int / 50,
    {
        (self.sample_rate as usize) / AUDIO_FRAME_RATE
    }

    /// The scratch capacity the host must decode into, in interleaved samples.
    pub fn capacity(&self) -> (r: usize)
        ensures
            r == self.spec_capacity(),
    {
        self.capacity
    }

    /// The rule for rejecting a packet before any decode is attempted: a
    /// packet longer than the codec's 32-bit interface can address is a fatal
    /// decode error, never handed to the codec. An empty packet is admissible:
    /// it stands for a lost frame and relies on the codec's loss concealment.
    pub fn check_packet(&self, packet_len: usize) -> (r: Result<(), Error>)
        ensures
            r is Ok <==> packet_len <= 0x7fff_ffff,
            r is Err ==> r == Err::<(), Error>(Error::FormatError(CodecError::DecodeError)),
    {
        if packet_len <= MAX_RAW_SAMPLES {
            Ok(())
        } else {
            Err(Error::FormatError(CodecError::DecodeError))
        }
    }

    /// Grow the scratch buffer after the codec reported it too small: double
    /// it, saturating at the ceiling. If it already sits at the ceiling and
    /// is still insufficient, fail with a fatal buffer-capacity error rather
    /// than looping forever. Everything else is left untouched.
    pub fn grow_buffer(&mut self) -> (r: Result<usize, Error>)
        requires
            old(self).wf(),
        ensures
            final(self).wf(),
            final(self).spec_sample_rate() == old(self).spec_sample_rate(),
            final(self).spec_buf() == old(self).spec_buf(),
            final(self).spec_capacity() >= old(self).spec_capacity(),
            old(self).spec_capacity() < 0x7fff_ffff ==> {
                &&& r matches Ok(c) && c == grown_capacity(old(self).spec_capacity() as int)
                &&& final(self).spec_capacity() == grown_capacity(
                    old(self).spec_capacity() as int,
                )
            },
            old(self).spec_capacity() == 0x7fff_ffff ==> {
                &&& r == Err::<usize, Error>(Error::BufferCapacity)
                &&& final(self).spec_capacity() == old(self).spec_capacity()
            },
    {
        let new_size: usize = if self.capacity < MAX_RAW_SAMPLES - self.capacity {
            self.capacity * 2
        } else {
            MAX_RAW_SAMPLES
        };
        if new_size == self.capacity {
            return Err(Error::BufferCapacity);
        }
        self.capacity = new_size;
        Ok(new_size)
    }

    /// Render a successful decode: the host decoded `frames` stereo frames
    /// interleaved into `raw`. The previous contents are discarded entirely
    /// and the new frame is deinterleaved into two planes, so no stale sample
    /// can leak through. A frame count that does not fit the raw buffer is
    /// rejected as a fatal decode error.
    pub fn accept_frame(&mut self, raw: &Vec<i16>, frames: usize) -> (r: Result<(), Error>)
        requires
            old(self).wf(),
        ensures
            final(self).wf(),
            final(self).spec_sample_rate() == old(self).spec_sample_rate(),
            r is Ok <==> (2 * frames <= raw@.len() && 2 * frames
                <= old(self).spec_capacity()),
            r is Ok ==> {
                &&& final(self).spec_capacity() == old(self).spec_capacity()
                &&& final(self).spec_buf().spec_channels() == 2
                &&& final(self).spec_buf().spec_frames() == frames
                &&& final(self).spec_buf().spec_kind() == SampleKind::S16
                &&& forall|c: int, i: int|
                    0 <= c < 2 && 0 <= i < frames ==> final(self).spec_buf().plane(c)[i]
                        == SampleValue::S16(raw@[2 * i + c])
            },
            r is Err ==> {
                &&& r == Err::<(), Error>(Error::FormatError(CodecError::DecodeError))
                &&& *final(self) == *old(self)
            },
    {
        let n: usize = raw.len();
        if frames > n / 2 || frames > self.capacity / 2 {
            return Err(Error::FormatError(CodecError::DecodeError));
        }
        let mut left: Vec<SampleValue> = Vec::new();
        let mut right: Vec<SampleValue> = Vec::new();
        let mut i: usize = 0;
        while i < frames
            invariant
                i <= frames,
                n == raw@.len(),
                2 * frames <= n,
                left@.len() == i,
                right@.len() == i,
                forall|k: int| 0 <= k < i ==> left@[k] == SampleValue::S16(raw@[2 * k]),
                forall|k: int| 0 <= k < i ==> right@[k] == SampleValue::S16(raw@[2 * k + 1]),
            decreases frames - i,
        {
            left.push(SampleValue::S16(raw[2 * i]));
            right.push(SampleValue::S16(raw[2 * i + 1]));
            i = i + 1;
        }
        let mut planes: Vec<Vec<SampleValue>> = Vec::new();
        planes.push(left);
        planes.push(right);
        self.buf = FrameBuffer::from_planes(SampleKind::S16, planes);
        Ok(())
    }

    /// What to hand the codec for a packet: empty packet bytes represent a
    /// dropped or lost frame and are signalled as "no packet" rather than an
    /// error, relying on the codec's built-in loss concealment; any other
    /// packet is handed through whole.
    pub fn concealment_input<'a>(&self, packet: &'a [u8]) -> (r: Option<&'a [u8]>)
        ensures
            packet@.len() == 0 ==> r is None,
            packet@.len() > 0 ==> (r matches Some(p) && p@ == packet@),
    {
        if packet.len() == 0 {
            None
        } else {
            Some(packet)
        }
    }

    /// Discard the output frame after a failed decode, as the adapter must
    /// before reporting the error: the buffer is left empty, never holding a
    /// half-rendered frame.
    pub fn clear_last_frame(&mut self)
        requires
            old(self).wf(),
        ensures
            final(self).wf(),
            final(self).spec_sample_rate() == old(self).spec_sample_rate(),
            final(self).spec_capacity() == old(self).spec_capacity(),
            final(self).spec_buf().spec_frames() == 0,
            final(self).spec_buf().spec_channels() == 2,
    {
        self.buf = FrameBuffer::new(SampleKind::S16, 2, 0);
    }

    /// The last decoded frame; empty until a packet has been accepted.
    pub fn last_decoded(&self) -> (r: &FrameBuffer)
        ensures
            *r == self.spec_buf(),
    {
        &self.buf
    }
}

} // verus!
