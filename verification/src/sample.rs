//! Sample extraction: one decoded sample of any of the ten admissible element
//! kinds, converted into the canonical signed 16-bit representation.
//!
//! Unsigned kinds are shifted to a bipolar range, narrow kinds are widened,
//! wide kinds are narrowed, and the two floating-point kinds are carried here
//! in Q15 fixed point (the integer part of the sample value times 32768, as
//! the host that owns the float computed it) and clamped into the 16-bit
//! range, as a saturating float-to-integer cast would do.

use vstd::prelude::*;

verus! {

/// The ten element kinds a decoded audio buffer may carry.
#[derive(Clone, Copy, Debug, PartialEq, Eq, Structural)]
pub enum SampleKind {
    U8,
    U16,
    U24,
    U32,
    S8,
    S16,
    S24,
    S32,
    F32,
    F64,
}

/// One decoded sample.
///
/// `U24` and `S24` carry their value in the wider machine type and are
/// clamped into the 24-bit range on conversion. `F32` and `F64` carry the
/// sample in Q15 fixed point: the integer `trunc(x * 32768)` for a float
/// sample `x`, which conversion clamps into the 16-bit range.
#[derive(Clone, Copy, Debug, PartialEq, Eq, Structural)]
pub enum SampleValue {
    U8(u8),
    U16(u16),
    U24(u32),
    U32(u32),
    S8(i8),
    S16(i16),
    S24(i32),
    S32(i32),
    F32(i64),
    F64(i64),
}

/// The kind of a sample value.
pub open spec fn kind_of(s: SampleValue) -> SampleKind {
    match s {
        SampleValue::U8(_) => SampleKind::U8,
        SampleValue::U16(_) => SampleKind::U16,
        SampleValue::U24(_) => SampleKind::U24,
        SampleValue::U32(_) => SampleKind::U32,
        SampleValue::S8(_) => SampleKind::S8,
        SampleValue::S16(_) => SampleKind::S16,
        SampleValue::S24(_) => SampleKind::S24,
        SampleValue::S32(_) => SampleKind::S32,
        SampleValue::F32(_) => SampleKind::F32,
        SampleValue::F64(_) => SampleKind::F64,
    }
}

pub open spec fn clamp_int(x: int, lo: int, hi: int) -> int {
    if x < lo {
        lo
    } else if x > hi {
        hi
    } else {
        x
    }
}

/// The normalization rule per element kind, mapping any sample to the
/// canonical signed 16-bit range.
pub open spec fn to_i16_spec(s: SampleValue) -> int {
    match s {
        SampleValue::U8(v) => (v as int - 128) * 256,
        SampleValue::U16(v) => v as int - 32768,
        SampleValue::U24(v) => clamp_int(v as int, 0, 0xFFFFFF) / 256 - 32768,
        SampleValue::U32(v) => v as int / 65536 - 32768,
        SampleValue::S8(v) => v as int * 256,
        SampleValue::S16(v) => v as int,
        SampleValue::S24(v) => (clamp_int(v as int, -0x800000, 0x7FFFFF) + 0x800000) / 256 - 32768,
        SampleValue::S32(v) => (v as int + 0x80000000) / 65536 - 32768,
        SampleValue::F32(q) => clamp_int(q as int, -32768, 32767),
        SampleValue::F64(q) => clamp_int(q as int, -32768, 32767),
    }
}

/// Every kind's normalization lands in the representable 16-bit range.
pub proof fn lemma_to_i16_in_range(s: SampleValue)
    ensures
        -32768 <= to_i16_spec(s) <= 32767,
{
    match s {
        SampleValue::U24(v) => {
            assert(clamp_int(v as int, 0, 0xFFFFFF) / 256 <= 65535);
        },
        SampleValue::U32(v) => {
            assert(v as int / 65536 <= 65535);
        },
        SampleValue::S24(v) => {
            assert((clamp_int(v as int, -0x800000, 0x7FFFFF) + 0x800000) / 256 <= 65535);
        },
        SampleValue::S32(v) => {
            assert((v as int + 0x80000000) / 65536 <= 65535);
        },
        _ => {},
    }
}

/// Convert one sample to the canonical signed 16-bit representation.
pub fn sample_to_i16(s: SampleValue) -> (r: i16)
    ensures
        r as int == to_i16_spec(s),
{
    match s {
        SampleValue::U8(v) => {
            let w: i32 = (v as i32 - 128) * 256;
            w as i16
        },
        SampleValue::U16(v) => {
            let w: i32 = v as i32 - 32768;
            w as i16
        },
        SampleValue::U24(v) => {
            let c: u32 = if v > 0xFFFFFF {
                0xFFFFFF
            } else {
                v
            };
            let w: i32 = (c / 256) as i32 - 32768;
            w as i16
        },
        SampleValue::U32(v) => {
            let w: i32 = (v / 65536) as i32 - 32768;
            w as i16
        },
        SampleValue::S8(v) => {
            (v as i16) * 256
        },
        SampleValue::S16(v) => {
            v
        },
        SampleValue::S24(v) => {
            let c: i32 = if v > 0x7FFFFF {
                0x7FFFFF
            } else if v < -0x800000 {
                -0x800000
            } else {
                v
            };
            let u: u32 = (c + 0x800000) as u32;
            let w: i32 = (u / 256) as i32 - 32768;
            w as i16
        },
        SampleValue::S32(v) => {
            let u: u64 = ((v as i64) + 0x8000_0000i64) as u64;
            let w: i64 = (u / 65536) as i64 - 32768;
            w as i16
        },
        SampleValue::F32(q) => {
            if q > 32767 {
                32767
            } else if q < -32768 {
                -32768
            } else {
                q as i16
            }
        },
        SampleValue::F64(q) => {
            if q > 32767 {
                32767
            } else if q < -32768 {
                -32768
            } else {
                q as i16
            }
        },
    }
}

/// The silence level of a kind: the value that converts to 0.
pub open spec fn silence_spec(kind: SampleKind) -> SampleValue {
    match kind {
        SampleKind::U8 => SampleValue::U8(128),
        SampleKind::U16 => SampleValue::U16(32768),
        SampleKind::U24 => SampleValue::U24(0x800000),
        SampleKind::U32 => SampleValue::U32(0x80000000),
        SampleKind::S8 => SampleValue::S8(0),
        SampleKind::S16 => SampleValue::S16(0),
        SampleKind::S24 => SampleValue::S24(0),
        SampleKind::S32 => SampleValue::S32(0),
        SampleKind::F32 => SampleValue::F32(0),
        SampleKind::F64 => SampleValue::F64(0),
    }
}

/// Silence of any kind normalizes to exactly 0.
pub proof fn lemma_silence_is_zero(kind: SampleKind)
    ensures
        to_i16_spec(silence_spec(kind)) == 0,
        kind_of(silence_spec(kind)) == kind,
{
}

/// The silence sample of a kind.
pub fn silence(kind: SampleKind) -> (r: SampleValue)
    ensures
        r == silence_spec(kind),
{
    match kind {
        SampleKind::U8 => SampleValue::U8(128),
        SampleKind::U16 => SampleValue::U16(32768),
        SampleKind::U24 => SampleValue::U24(0x800000),
        SampleKind::U32 => SampleValue::U32(0x80000000),
        SampleKind::S8 => SampleValue::S8(0),
        SampleKind::S16 => SampleValue::S16(0),
        SampleKind::S24 => SampleValue::S24(0),
        SampleKind::S32 => SampleValue::S32(0),
        SampleKind::F32 => SampleValue::F32(0),
        SampleKind::F64 => SampleValue::F64(0),
    }
}

/// A decoded audio frame: one plane of samples per channel, all planes of the
/// same length and all samples of one element kind.
#[derive(Debug)]
pub struct FrameBuffer {
    kind: SampleKind,
    planes: Vec<Vec<SampleValue>>,
}

impl FrameBuffer {
    /// The number of channels.
    pub closed spec fn spec_channels(&self) -> nat {
        self.planes@.len()
    }

    /// The number of frames (samples per channel).
    pub closed spec fn spec_frames(&self) -> nat {
        if self.planes@.len() == 0 {
            0
        } else {
            self.planes@[0]@.len()
        }
    }

    /// The element kind.
    pub closed spec fn spec_kind(&self) -> SampleKind {
        self.kind
    }

    /// The samples of one channel.
    pub closed spec fn plane(&self, c: int) -> Seq<SampleValue> {
        self.planes@[c]@
    }

    /// Well-formedness: every plane has the same length, and every sample has
    /// the buffer's element kind.
    pub closed spec fn wf(&self) -> bool {
        &&& forall|c: int|
            0 <= c < self.spec_channels() ==> (#[trigger] self.plane(c)).len()
                == self.spec_frames()
        &&& forall|c: int, i: int|
            0 <= c < self.spec_channels() && 0 <= i < self.spec_frames() ==> kind_of(
                #[trigger] self.plane(c)[i],
            ) == self.kind
    }

    /// A buffer of `channels` planes of `frames` silence samples each.
    pub fn new(kind: SampleKind, channels: usize, frames: usize) -> (r: FrameBuffer)
        ensures
            r.wf(),
            r.spec_kind() == kind,
            r.spec_channels() == channels,
            r.spec_frames() == (if channels == 0 {
                0int
            } else {
                frames as int
            }),
            forall|c: int, i: int|
                0 <= c < channels && 0 <= i < r.spec_frames() ==> r.plane(c)[i] == silence_spec(
                    kind,
                ),
    {
        let fill: SampleValue = silence(kind);
        let mut planes: Vec<Vec<SampleValue>> = Vec::new();
        let mut c: usize = 0;
        while c < channels
            invariant
                c <= channels,
                planes@.len() == c,
                fill == silence_spec(kind),
                forall|j: int| 0 <= j < c ==> (#[trigger] planes@[j])@.len() == frames,
                forall|j: int, i: int|
                    0 <= j < c && 0 <= i < frames ==> #[trigger] planes@[j]@[i] == fill,
            decreases channels - c,
        {
            let mut plane: Vec<SampleValue> = Vec::new();
            let mut i: usize = 0;
            while i < frames
                invariant
                    i <= frames,
                    plane@.len() == i,
                    forall|k: int| 0 <= k < i ==> plane@[k] == fill,
                decreases frames - i,
            {
                plane.push(fill);
                i = i + 1;
            }
            planes.push(plane);
            c = c + 1;
        }
        FrameBuffer { kind, planes }
    }

    /// Build a buffer from explicit planes.
    pub fn from_planes(kind: SampleKind, planes: Vec<Vec<SampleValue>>) -> (r: FrameBuffer)
        requires
            forall|c: int|
                0 <= c < planes@.len() ==> (#[trigger] planes@[c])@.len() == (if planes@.len()
                    == 0 {
                    0
                } else {
                    planes@[0]@.len()
                }),
            forall|c: int, i: int|
                0 <= c < planes@.len() && 0 <= i < planes@[c]@.len() ==> kind_of(
                    #[trigger] planes@[c]@[i],
                ) == kind,
        ensures
            r.wf(),
            r.spec_kind() == kind,
            r.spec_channels() == planes@.len(),
            r.spec_frames() == (if planes@.len() == 0 {
                0int
            } else {
                planes@[0]@.len() as int
            }),
            forall|c: int| 0 <= c < planes@.len() ==> r.plane(c) == planes@[c]@,
    {
        FrameBuffer { kind, planes }
    }

    /// Build a buffer from explicit planes, checking at run time that they
    /// are uniform in length and kind.
    pub fn try_from_planes(kind: SampleKind, planes: Vec<Vec<SampleValue>>) -> (r: Option<
        FrameBuffer,
    >)
        ensures
            match r {
                Some(b) => {
                    &&& b.wf()
                    &&& b.spec_kind() == kind
                    &&& b.spec_channels() == planes@.len()
                    &&& forall|c: int| 0 <= c < planes@.len() ==> b.plane(c) == planes@[c]@
                },
                None => !({
                    &&& forall|c: int|
                        0 <= c < planes@.len() ==> (#[trigger] planes@[c])@.len() == (if planes@.len()
                            == 0 {
                            0
                        } else {
                            planes@[0]@.len()
                        })
                    &&& forall|c: int, i: int|
                        0 <= c < planes@.len() && 0 <= i < planes@[c]@.len() ==> kind_of(
                            #[trigger] planes@[c]@[i],
                        ) == kind
                }),
            },
    {
        let frames: usize = if planes.len() == 0 {
            0
        } else {
            planes[0].len()
        };
        let mut c: usize = 0;
        while c < planes.len()
            invariant
                c <= planes@.len(),
                frames == (if planes@.len() == 0 {
                    0int
                } else {
                    planes@[0]@.len() as int
                }),
                forall|j: int| 0 <= j < c ==> (#[trigger] planes@[j])@.len() == frames,
                forall|j: int, i: int|
                    0 <= j < c && 0 <= i < planes@[j]@.len() ==> kind_of(
                        #[trigger] planes@[j]@[i],
                    ) == kind,
            decreases planes@.len() - c,
        {
            let row: &Vec<SampleValue> = &planes[c];
            if row.len() != frames {
                return None;
            }
            let mut i: usize = 0;
            while i < row.len()
                invariant
                    i <= row@.len(),
                    row@ == planes@[c as int]@,
                    c < planes@.len(),
                    forall|k: int| 0 <= k < i ==> kind_of(#[trigger] row@[k]) == kind,
                decreases row@.len() - i,
            {
                if sample_kind(row[i]) != kind {
                    return None;
                }
                i = i + 1;
            }
            c = c + 1;
        }
        Some(FrameBuffer { kind, planes })
    }

    /// A buffer with no channels has no frames.
    pub proof fn lemma_frames_need_channels(&self)
        ensures
            self.spec_frames() > 0 ==> self.spec_channels() > 0,
    {
    }

    /// The number of channels.
    pub fn channel_count(&self) -> (n: usize)
        ensures
            n == self.spec_channels(),
    {
        self.planes.len()
    }

    /// The number of frames (samples per channel).
    pub fn frames(&self) -> (n: usize)
        ensures
            n == self.spec_frames(),
    {
        if self.planes.len() == 0 {
            0
        } else {
            self.planes[0].len()
        }
    }
}

/// The kind of a sample value.
pub fn sample_kind(s: SampleValue) -> (k: SampleKind)
    ensures
        k == kind_of(s),
{
    match s {
        SampleValue::U8(_) => SampleKind::U8,
        SampleValue::U16(_) => SampleKind::U16,
        SampleValue::U24(_) => SampleKind::U24,
        SampleValue::U32(_) => SampleKind::U32,
        SampleValue::S8(_) => SampleKind::S8,
        SampleValue::S16(_) => SampleKind::S16,
        SampleValue::S24(_) => SampleKind::S24,
        SampleValue::S32(_) => SampleKind::S32,
        SampleValue::F32(_) => SampleKind::F32,
        SampleValue::F64(_) => SampleKind::F64,
    }
}

/// Extract the sample at `(channel_idx, sample_idx)` and convert it to the
/// canonical 16-bit representation. Out-of-range indices are a contract
/// violation, not a recoverable failure: callers bound-check first against
/// the buffer's reported channel and frame counts.
pub fn extract_sample(buffer: &FrameBuffer, channel_idx: u16, sample_idx: usize) -> (r: i16)
    requires
        buffer.wf(),
        (channel_idx as nat) < buffer.spec_channels(),
        (sample_idx as nat) < buffer.spec_frames(),
    ensures
        r as int == to_i16_spec(buffer.plane(channel_idx as int)[sample_idx as int]),
{
    proof {
        assert(buffer.plane(channel_idx as int).len() == buffer.spec_frames());
    }
    let s: SampleValue = buffer.planes[channel_idx as usize][sample_idx];
    sample_to_i16(s)
}

/// Extract a sample by dispatching on the buffer's element kind; the closed
/// set of ten kinds all funnel through [`extract_sample`].
pub fn extract_sample_from_ref(buffer: &FrameBuffer, channel_idx: u16, sample_idx: usize) -> (r:
    i16)
    requires
        buffer.wf(),
        (channel_idx as nat) < buffer.spec_channels(),
        (sample_idx as nat) < buffer.spec_frames(),
    ensures
        r as int == to_i16_spec(buffer.plane(channel_idx as int)[sample_idx as int]),
{
    extract_sample(buffer, channel_idx, sample_idx)
}

/// The gain rule: a sample scaled by a Q15 gain in `[0, 32768]`, truncating
/// toward zero as a float multiply followed by an integer cast would.
pub open spec fn apply_gain_spec(s: int, g: int) -> int {
    if s >= 0 {
        (s * g) / 32768
    } else {
        -1 * (((-1 * s) * g) / 32768)
    }
}

/// Scale a sample by a gain multiplier held in Q15 fixed point (32768 is
/// unity). The result never leaves the 16-bit range.
pub fn apply_gain(s: i16, gain: u16) -> (r: i16)
    requires
        gain <= 32768,
    ensures
        r as int == apply_gain_spec(s as int, gain as int),
{
    let neg: bool = s < 0;
    let mag: u64 = if s < 0 {
        (-(s as i32)) as u64
    } else {
        s as u64
    };
    proof {
        assert(mag * gain <= mag * 32768) by (nonlinear_arith)
            requires
                gain <= 32768,
                mag >= 0,
        ;
    }
    let scaled: u64 = (mag * (gain as u64)) / 32768;
    proof {
        assert(mag * 32768 / 32768 == mag) by (nonlinear_arith);
        vstd::arithmetic::div_mod::lemma_div_is_ordered(
            (mag * gain) as int,
            (mag * 32768) as int,
            32768,
        );
    }
    if neg {
        let m: i32 = -(scaled as i32);
        m as i16
    } else {
        scaled as i16
    }
}

/// Unity gain leaves every sample unchanged.
pub proof fn lemma_gain_unity(s: int)
    requires
        -32768 <= s <= 32767,
    ensures
        apply_gain_spec(s, 32768) == s,
{
    if s >= 0 {
        assert(s * 32768 / 32768 == s) by (nonlinear_arith);
    } else {
        assert((-1 * s) * 32768 / 32768 == -1 * s) by (nonlinear_arith);
    }
}

/// Zero gain silences every sample.
pub proof fn lemma_gain_zero(s: int)
    requires
        -32768 <= s <= 32767,
    ensures
        apply_gain_spec(s, 0) == 0,
{
}

/// The gain rule never leaves the 16-bit range, for any admissible gain.
pub proof fn lemma_gain_in_range(s: int, g: int)
    requires
        -32768 <= s <= 32767,
        0 <= g <= 32768,
    ensures
        -32768 <= apply_gain_spec(s, g) <= 32767,
        s >= 0 ==> apply_gain_spec(s, g) <= s,
        s < 0 ==> apply_gain_spec(s, g) >= s,
{
    let m = if s >= 0 {
        s
    } else {
        -1 * s
    };
    assert(m * g <= m * 32768) by (nonlinear_arith)
        requires
            g <= 32768,
            m >= 0,
    ;
    assert(m * 32768 / 32768 == m) by (nonlinear_arith);
    vstd::arithmetic::div_mod::lemma_div_is_ordered(m * g, m * 32768, 32768);
    assert(m * g >= 0) by (nonlinear_arith)
        requires
            m >= 0,
            g >= 0,
    ;
}

} // verus!
