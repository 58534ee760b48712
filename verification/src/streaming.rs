//! The shape checks of `SNAudioStreamAnalyzer` input: stream formats and
//! the PCM buffers fed to a stream analyzer.
//!
//! A buffer's samples travel to the bridge untouched; what is decided here
//! is whether its sample format, layout and channel lengths fit the stream,
//! and how many frames it holds.

use vstd::prelude::*;

use crate::codes::sample_format;
use crate::error::{is_outcome, SAError};

verus! {

/// Supported PCM sample formats.
#[derive(Debug, Clone, Copy, PartialEq, Eq, Structural)]
pub enum PcmSampleFormat {
    Float32,
    Float64,
    Int16,
    Int32,
}

/// The bridge's code of each sample format.
pub open spec fn sample_format_code(f: PcmSampleFormat) -> i32 {
    match f {
        PcmSampleFormat::Float32 => sample_format::FLOAT32,
        PcmSampleFormat::Float64 => sample_format::FLOAT64,
        PcmSampleFormat::Int16 => sample_format::INT16,
        PcmSampleFormat::Int32 => sample_format::INT32,
    }
}

impl PcmSampleFormat {
    /// The bridge's code of this sample format.
    pub fn as_ffi(self) -> (code: i32)
        ensures
            code == sample_format_code(self),
    {
        match self {
            Self::Float32 => sample_format::FLOAT32,
            Self::Float64 => sample_format::FLOAT64,
            Self::Int16 => sample_format::INT16,
            Self::Int32 => sample_format::INT32,
        }
    }
}

/// Distinct sample formats have distinct codes.
pub proof fn lemma_sample_format_codes_distinct(a: PcmSampleFormat, b: PcmSampleFormat)
    ensures
        sample_format_code(a) == sample_format_code(b) <==> a == b,
{
}

/// Message for a stream format without channels.
pub open spec fn zero_channels_message() -> Seq<char> {
    "channel_count must be greater than zero"@
}

/// Message for a channel count that the bridge's 32-bit field cannot hold.
pub open spec fn channel_overflow_message() -> Seq<char> {
    "channel_count does not fit in u32"@
}

/// Checks the channel count of a new stream format: there must be at least
/// one channel.
pub fn check_channel_count(channel_count: usize) -> (r: Result<(), SAError>)
    ensures
        is_outcome(
            r,
            if channel_count == 0 {
                Err(zero_channels_message())
            } else {
                Ok(())
            },
        ),
{
    if channel_count == 0 {
        return Err(SAError::InvalidArgument(String::from_str("channel_count must be greater than zero")));
    }
    Ok(())
}

/// The channel count as the bridge's 32-bit field, or an error when it does
/// not fit.
pub fn channel_count_u32(channel_count: usize) -> (r: Result<u32, SAError>)
    ensures
        is_outcome(
            r,
            if channel_count <= u32::MAX {
                Ok(channel_count as u32)
            } else {
                Err(channel_overflow_message())
            },
        ),
{
    if channel_count <= 4294967295usize {
        Ok(channel_count as u32)
    } else {
        Err(SAError::InvalidArgument(String::from_str("channel_count does not fit in u32")))
    }
}

/// The frame count of an interleaved buffer of `sample_len` samples over
/// `channels` channels, or the message of the error for it.
pub open spec fn interleaved_frames(sample_len: usize, channels: usize) -> Result<usize, Seq<char>> {
    if channels == 0 {
        Err("interleaved buffers need at least one channel"@)
    } else if sample_len % channels != 0 {
        Err("interleaved samples length must be divisible by channel count"@)
    } else {
        Ok((sample_len / channels) as usize)
    }
}

/// Whether every channel of a planar buffer is as long as the first.
pub open spec fn planar_lengths_agree<T>(channels: Seq<&[T]>) -> bool {
    forall|i: int| 0 <= i < channels.len() ==> #[trigger] channels[i]@.len() == channels[0]@.len()
}

/// The frame count of a planar buffer, or the message of the error for it.
pub open spec fn planar_frames<T>(channels: Seq<&[T]>) -> Result<usize, Seq<char>> {
    if channels.len() == 0 {
        Err("planar buffers need at least one channel"@)
    } else if !planar_lengths_agree(channels) {
        Err("all planar channels must have the same frame length"@)
    } else {
        Ok(channels[0]@.len() as usize)
    }
}

/// The number of frames in an interleaved buffer: the sample count divided
/// by the channel count, which must divide it.
pub fn interleaved_frame_length(sample_len: usize, channels: usize) -> (r: Result<usize, SAError>)
    ensures
        is_outcome(r, interleaved_frames(sample_len, channels)),
{
    if channels == 0 {
        return Err(
            SAError::InvalidArgument(
                String::from_str("interleaved buffers need at least one channel"),
            ),
        );
    }
    if sample_len % channels != 0 {
        return Err(
            SAError::InvalidArgument(
                String::from_str("interleaved samples length must be divisible by channel count"),
            ),
        );
    }
    Ok(sample_len / channels)
}

/// The number of frames in a planar buffer: the common length of its
/// channels, of which there must be at least one.
pub fn planar_frame_length<T>(channels: &[&[T]]) -> (r: Result<usize, SAError>)
    ensures
        is_outcome(r, planar_frames(channels@)),
{
    if channels.len() == 0 {
        return Err(
            SAError::InvalidArgument(String::from_str("planar buffers need at least one channel")),
        );
    }
    let frame_length = channels[0].len();
    let mut i: usize = 1;
    while i < channels.len()
        invariant
            1 <= i <= channels@.len(),
            frame_length == channels@[0]@.len(),
            forall|j: int| 0 <= j < i ==> #[trigger] channels@[j]@.len() == frame_length,
        decreases channels@.len() - i,
    {
        if channels[i].len() != frame_length {
            return Err(
                SAError::InvalidArgument(
                    String::from_str("all planar channels must have the same frame length"),
                ),
            );
        }
        i = i + 1;
    }
    Ok(frame_length)
}

/// The samples of a PCM buffer and how they are laid out.
pub enum PcmSamples<'a, T> {
    /// One slice holding the frames one after another, each frame holding
    /// one sample per channel.
    Interleaved { samples: &'a [T], channels: usize },
    /// One slice per channel.
    Planar(&'a [&'a [T]]),
}

impl<'a, T> PcmSamples<'a, T> {
    /// Whether the samples are interleaved.
    pub open spec fn is_interleaved_spec(&self) -> bool {
        self is Interleaved
    }

    /// The number of channels the samples claim.
    pub open spec fn channel_count_spec(&self) -> int {
        match self {
            PcmSamples::Interleaved { channels, .. } => *channels as int,
            PcmSamples::Planar(channels) => channels@.len() as int,
        }
    }

    /// The frame count of the samples, or the message of the error for them.
    pub open spec fn frames_spec(&self) -> Result<usize, Seq<char>> {
        match self {
            PcmSamples::Interleaved { samples, channels } => interleaved_frames(
                samples@.len() as usize,
                *channels,
            ),
            PcmSamples::Planar(channels) => planar_frames(channels@),
        }
    }

    /// Whether the samples are interleaved.
    pub fn interleaved(&self) -> (b: bool)
        ensures
            b == self.is_interleaved_spec(),
    {
        match self {
            PcmSamples::Interleaved { .. } => true,
            PcmSamples::Planar(_) => false,
        }
    }

    /// The number of channels the samples claim.
    pub fn channel_count(&self) -> (n: usize)
        ensures
            n == self.channel_count_spec(),
    {
        match self {
            PcmSamples::Interleaved { channels, .. } => *channels,
            PcmSamples::Planar(channels) => channels.len(),
        }
    }

    /// The number of frames in the buffer.
    pub fn frame_length(&self) -> (r: Result<usize, SAError>)
        ensures
            is_outcome(r, self.frames_spec()),
    {
        match self {
            PcmSamples::Interleaved { samples, channels } => interleaved_frame_length(
                samples.len(),
                *channels,
            ),
            PcmSamples::Planar(channels) => planar_frame_length(channels),
        }
    }
}

/// What a stream analyzer expects of every buffer fed to it.
#[derive(Debug, Clone, Copy, PartialEq, Eq)]
pub struct StreamLayout {
    pub sample_format: PcmSampleFormat,
    pub channel_count: usize,
    pub interleaved: bool,
}

/// The description of a buffer that goes to the bridge beside its samples.
#[derive(Debug, Clone, Copy, PartialEq, Eq)]
pub struct BufferHeader {
    pub sample_format: i32,
    pub channel_count: u32,
    pub frame_length: usize,
    pub interleaved: bool,
}

/// The header of a buffer with samples of format `format` laid out as
/// `samples`, for a stream that expects `expected`, or the message of the
/// error for it. The checks come in this order: sample format,
/// interleaving, channel count, frame count, then whether the channel count
/// fits the bridge's field.
pub open spec fn buffer_header_spec<T>(
    format: PcmSampleFormat,
    samples: PcmSamples<T>,
    expected: StreamLayout,
) -> Result<BufferHeader, Seq<char>> {
    if format != expected.sample_format {
        Err("PCM buffer sample format does not match stream analyzer format"@)
    } else if samples.is_interleaved_spec() != expected.interleaved {
        Err("PCM buffer interleaving does not match stream analyzer format"@)
    } else if samples.channel_count_spec() != expected.channel_count {
        Err("PCM buffer channel count does not match stream analyzer format"@)
    } else {
        match samples.frames_spec() {
            Err(m) => Err(m),
            Ok(frames) => if expected.channel_count <= u32::MAX {
                Ok(
                    BufferHeader {
                        sample_format: sample_format_code(format),
                        channel_count: expected.channel_count as u32,
                        frame_length: frames,
                        interleaved: expected.interleaved,
                    },
                )
            } else {
                Err(channel_overflow_message())
            },
        }
    }
}

/// Checks a buffer against the stream it is fed to and describes it for
/// the bridge.
pub fn buffer_header<T>(format: PcmSampleFormat, samples: &PcmSamples<T>, expected: StreamLayout) -> (r:
    Result<BufferHeader, SAError>)
    ensures
        is_outcome(r, buffer_header_spec(format, *samples, expected)),
{
    if format != expected.sample_format {
        return Err(
            SAError::InvalidArgument(
                String::from_str("PCM buffer sample format does not match stream analyzer format"),
            ),
        );
    }
    if samples.interleaved() != expected.interleaved {
        return Err(
            SAError::InvalidArgument(
                String::from_str("PCM buffer interleaving does not match stream analyzer format"),
            ),
        );
    }
    if samples.channel_count() != expected.channel_count {
        return Err(
            SAError::InvalidArgument(
                String::from_str("PCM buffer channel count does not match stream analyzer format"),
            ),
        );
    }
    let frame_length = match samples.frame_length() {
        Ok(n) => n,
        Err(e) => {
            return Err(e);
        },
    };
    let channel_count = match channel_count_u32(expected.channel_count) {
        Ok(n) => n,
        Err(e) => {
            return Err(e);
        },
    };
    Ok(
        BufferHeader {
            sample_format: format.as_ffi(),
            channel_count,
            frame_length,
            interleaved: expected.interleaved,
        },
    )
}

/// The frame count of a buffer, stated from its shape: interleaved samples
/// over `c > 0` channels that divide their count hold `len / c` frames
/// (whatever `c` is, one channel included), else they are refused; planar
/// channels that are all as long as the first hold that many frames, else
/// they are refused.
pub proof fn lemma_frame_count<T>(samples: PcmSamples<T>)
    ensures
        match samples {
            PcmSamples::Interleaved { samples: s, channels: c } => {
                &&& (c > 0 && (s@.len() as int) % (c as int) == 0) ==> samples.frames_spec() == Ok::<
                    usize,
                    Seq<char>,
                >(((s@.len() as int) / (c as int)) as usize)
                &&& !(c > 0 && (s@.len() as int) % (c as int) == 0) ==> samples.frames_spec() is Err
            },
            PcmSamples::Planar(ch) => {
                &&& (ch@.len() > 0 && forall|i: int|
                    0 <= i < ch@.len() ==> #[trigger] ch@[i]@.len() == ch@[0]@.len())
                    ==> samples.frames_spec() == Ok::<usize, Seq<char>>(ch@[0]@.len() as usize)
                &&& !(ch@.len() > 0 && forall|i: int|
                    0 <= i < ch@.len() ==> #[trigger] ch@[i]@.len() == ch@[0]@.len())
                    ==> samples.frames_spec() is Err
            },
        },
{
    match samples {
        PcmSamples::Interleaved { samples: s, channels: c } => {
            vstd::slice::axiom_spec_len(s);
        },
        PcmSamples::Planar(ch) => {
            if ch@.len() > 0 {
                vstd::slice::axiom_spec_len(ch@[0]);
            }
        },
    }
}

/// A buffer that fits its stream is accepted, for every sample format: when
/// its format, interleaving and channel count are the stream's, its frames
/// are whole and the channel count fits the bridge's field, the header
/// carries the format's code, the stream's channel count and interleaving,
/// and the buffer's frame count.
pub proof fn lemma_fitting_buffer_accepted<T>(
    format: PcmSampleFormat,
    samples: PcmSamples<T>,
    expected: StreamLayout,
)
    requires
        format == expected.sample_format,
        expected.channel_count <= u32::MAX,
        match samples {
            PcmSamples::Interleaved { samples: s, channels: c } => {
                &&& expected.interleaved
                &&& c == expected.channel_count
                &&& c > 0
                &&& (s@.len() as int) % (c as int) == 0
            },
            PcmSamples::Planar(ch) => {
                &&& !expected.interleaved
                &&& ch@.len() == expected.channel_count
                &&& ch@.len() > 0
                &&& forall|i: int| 0 <= i < ch@.len() ==> #[trigger] ch@[i]@.len() == ch@[0]@.len()
            },
        },
    ensures
        buffer_header_spec(format, samples, expected) == Ok::<BufferHeader, Seq<char>>(
            BufferHeader {
                sample_format: sample_format_code(format),
                channel_count: expected.channel_count as u32,
                frame_length: match samples {
                    PcmSamples::Interleaved { samples: s, channels: c } => ((s@.len() as int) / (c as int)) as usize,
                    PcmSamples::Planar(ch) => ch@[0]@.len() as usize,
                },
                interleaved: expected.interleaved,
            },
        ),
{
    lemma_frame_count(samples);
}

/// The bridge's codes of the sample formats: 32-bit float 1, 64-bit float
/// 2, 16-bit integer 3, 32-bit integer 4.
pub proof fn lemma_sample_format_code_values()
    ensures
        sample_format_code(PcmSampleFormat::Float32) == 1,
        sample_format_code(PcmSampleFormat::Float64) == 2,
        sample_format_code(PcmSampleFormat::Int16) == 3,
        sample_format_code(PcmSampleFormat::Int32) == 4,
{
}

/// An interleaved buffer that is accepted holds whole frames: its frame
/// count times its channel count is its sample count.
pub proof fn lemma_interleaved_frames_cover_samples(sample_len: usize, channels: usize)
    ensures
        interleaved_frames(sample_len, channels) matches Ok(frames) ==> frames * channels
            == sample_len,
{
    if channels != 0 && sample_len % channels == 0 {
        let q = sample_len as int / channels as int;
        vstd::arithmetic::div_mod::lemma_fundamental_div_mod(sample_len as int, channels as int);
        assert(q * channels == channels * q) by (nonlinear_arith);
        assert(0 <= q <= sample_len) by {
            vstd::arithmetic::div_mod::lemma_div_is_ordered_by_denominator(sample_len as int, 1, channels as int);
        }
    }
}

/// A planar buffer that is accepted has a channel, its frame count is the
/// length of its first channel, and every channel is that long.
pub proof fn lemma_planar_frames_are_channel_lengths<T>(channels: Seq<&[T]>)
    ensures
        planar_frames(channels) matches Ok(frames) ==> {
            &&& channels.len() > 0
            &&& frames == channels[0]@.len() as usize
            &&& forall|i: int| 0 <= i < channels.len() ==> #[trigger] channels[i]@.len() == channels[0]@.len()
        },
{
}

/// A buffer that a stream accepts has the stream's sample format,
/// interleaving and channel count, and its header says so.
pub proof fn lemma_accepted_buffer_fits_stream<T>(
    format: PcmSampleFormat,
    samples: PcmSamples<T>,
    expected: StreamLayout,
)
    ensures
        buffer_header_spec(format, samples, expected) matches Ok(header) ==> {
            &&& format == expected.sample_format
            &&& samples.is_interleaved_spec() == expected.interleaved
            &&& samples.channel_count_spec() == expected.channel_count
            &&& header.sample_format == sample_format_code(expected.sample_format)
            &&& header.channel_count == expected.channel_count
            &&& header.interleaved == expected.interleaved
            &&& samples.frames_spec() == Ok::<usize, Seq<char>>(header.frame_length)
        },
{
}

/// Checks the frame position at which a buffer starts: it must not be
/// negative.
pub fn check_frame_position(audio_frame_position: i64) -> (r: Result<(), SAError>)
    ensures
        is_outcome(
            r,
            if audio_frame_position < 0 {
                Err("audio_frame_position must be non-negative"@)
            } else {
                Ok(())
            },
        ),
{
    if audio_frame_position < 0 {
        return Err(
            SAError::InvalidArgument(String::from_str("audio_frame_position must be non-negative")),
        );
    }
    Ok(())
}

} // verus!
