//! The decoder of a video stream as the pipeline sees it, and the encoder
//! that is set up to match it.

use crate::rotate::{FrameSize, Rotate};
use crate::stream::Rational;
use vstd::prelude::*;
use vstd::string::StringExecFns;

verus! {

/// What the decoder of a video stream reports of the frames it hands out.
/// A name is absent where the codec library has none for the value.
#[derive(Clone, Debug, PartialEq, Eq)]
pub struct VideoDecoder {
    pub width: u32,
    pub height: u32,
    /// The name of the pixel format.
    pub format: Option<String>,
    pub frame_rate: Option<Rational>,
    /// The name of the color space.
    pub color_space: Option<String>,
    /// The name of the color range.
    pub color_range: Option<String>,
}

/// The codec that every video stream is encoded with.
#[derive(PartialEq, Eq, Structural, Clone, Copy, Debug)]
pub enum Codec {
    H264,
}

/// The settings that the encoder of a video stream is opened with.
#[derive(Clone, Debug, PartialEq, Eq)]
pub struct VideoEncoder {
    pub codec: Codec,
    pub width: u32,
    pub height: u32,
    /// The name of the pixel format.
    pub format: Option<String>,
    pub frame_rate: Option<Rational>,
    pub time_base: Rational,
    /// The speed and quality preset of the codec.
    pub preset: String,
    /// The constant rate factor of the codec.
    pub crf: String,
}

/// A copy of an optional name.
pub fn clone_name(name: &Option<String>) -> (copy: Option<String>)
    ensures
        copy == *name,
{
    match name {
        Some(text) => Some(text.clone()),
        None => None,
    }
}

impl VideoDecoder {
    /// The size of the decoded frames.
    pub open spec fn frame_size(&self) -> FrameSize {
        FrameSize { width: self.width, height: self.height }
    }

    /// A decoder description with the same values.
    pub fn duplicate(&self) -> (copy: VideoDecoder)
        ensures
            copy == *self,
    {
        VideoDecoder {
            width: self.width,
            height: self.height,
            format: clone_name(&self.format),
            frame_rate: self.frame_rate,
            color_space: clone_name(&self.color_space),
            color_range: clone_name(&self.color_range),
        }
    }
}

impl VideoEncoder {
    /// The size of the encoded frames.
    pub open spec fn frame_size(&self) -> FrameSize {
        FrameSize { width: self.width, height: self.height }
    }

    /// Whether these are the settings for the frames of `decoder` after the
    /// rotation `rotate`: H.264 at the preset `medium` and rate factor 23,
    /// the rotated frame size, the decoder's pixel format and frame rate, and
    /// the time base of the input stream.
    pub open spec fn matches(&self, decoder: &VideoDecoder, time_base: Rational, rotate: Rotate) -> bool {
        &&& self.codec == Codec::H264
        &&& self.frame_size() == rotate.rotated(decoder.frame_size())
        &&& self.format == decoder.format
        &&& self.frame_rate == decoder.frame_rate
        &&& self.time_base == time_base
        &&& self.preset@ == "medium"@
        &&& self.crf@ == "23"@
    }

    /// The encoder settings for the frames that `decoder` hands out, turned
    /// by `rotate`. `time_base` is the time base of the input stream; the one
    /// that the container gives the output stream is known only once its
    /// header is written.
    pub fn create_from_decoder(decoder: &VideoDecoder, time_base: Rational, rotate: &Rotate) -> (encoder: VideoEncoder)
        ensures
            encoder.matches(decoder, time_base, *rotate),
            !rotate.swaps_axes() ==> encoder.width == decoder.width && encoder.height
                == decoder.height,
            rotate.swaps_axes() ==> encoder.width == decoder.height && encoder.height
                == decoder.width,
    {
        let (width, height): (u32, u32) = if rotate.is_axis_flips() {
            (decoder.height, decoder.width)
        } else {
            (decoder.width, decoder.height)
        };
        VideoEncoder {
            codec: Codec::H264,
            width,
            height,
            format: clone_name(&decoder.format),
            frame_rate: decoder.frame_rate,
            time_base,
            preset: String::from_str("medium"),
            crf: String::from_str("23"),
        }
    }
}

} // verus!
