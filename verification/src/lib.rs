//! A uniform decoding abstraction over several audio codecs.
//!
//! The crate models the packet-to-sample pipeline of a playback engine:
//! decoded frames are held in a [`sample::FrameBuffer`] whose elements may be
//! any of ten numeric kinds, a cursor walks the frame channel by channel, and
//! per-codec failures are folded into the small taxonomy in [`Error`].
//! The Opus path lives in [`opus`]; the registry-driven path, which a host
//! drives by feeding it demuxed packets, lives in [`symphonia`].

use vstd::prelude::*;

pub mod opus;
pub mod sample;
pub mod symphonia;

verus! {

/// One pulled value from a decoder session: a decoded 16-bit sample, a notice
/// that the stream's sample rate or channel layout changed, or the end of the
/// stream.
#[derive(Clone, Copy, Debug, PartialEq, Eq, Structural)]
pub enum NextSample {
    Sample(i16),
    MetadataChanged,
    Finished,
}

/// An I/O failure reported by the byte source: whether it was an unexpected
/// end of file, and the failure's message bytes.
#[derive(Debug)]
pub struct IoFailure {
    pub unexpected_eof: bool,
    pub message: Vec<u8>,
}

/// A failure of the demuxing/decoding layer, as the codec layer reports it.
///
/// `ResetRequired` and `DecodeError` are recoverable by skipping the packet;
/// everything else is fatal to the session.
#[derive(Debug)]
pub enum CodecError {
    IoError(IoFailure),
    DecodeError,
    SeekError,
    Unsupported,
    LimitError,
    ResetRequired,
}

/// The session-level error taxonomy.
///
/// `Configuration` is an invalid or unsupported parameter at construction
/// time; `BufferCapacity` means the decode output buffer was exhausted and
/// could not be grown further; `IoError` passes an I/O failure through; and
/// `FormatError` wraps any other codec-layer failure, keeping the original
/// cause for diagnostics.
#[derive(Debug)]
pub enum Error {
    Configuration,
    BufferCapacity,
    IoError(IoFailure),
    FormatError(CodecError),
}

/// How a codec-layer failure maps into the session taxonomy: I/O failures
/// pass through; decode, seek, unsupported-format, limit and reset-required
/// failures all become format errors carrying the cause.
pub open spec fn error_from_codec(e: CodecError) -> Error {
    match e {
        CodecError::IoError(f) => Error::IoError(f),
        _ => Error::FormatError(e),
    }
}

impl From<CodecError> for Error {
    fn from(value: CodecError) -> (r: Error) {
        match value {
            CodecError::IoError(f) => Error::IoError(f),
            other => Error::FormatError(other),
        }
    }
}

impl vstd::std_specs::convert::FromSpecImpl<CodecError> for Error {
    open spec fn obeys_from_spec() -> bool {
        true
    }

    open spec fn from_spec(t: CodecError) -> Self {
        error_from_codec(t)
    }
}

} // verus!
