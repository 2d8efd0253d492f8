//! The filter graph of a video stream: a buffer source, the rotation, and a
//! buffer sink.

use crate::decimal::{decimal, i64_to_decimal, signed_decimal, u64_to_decimal};
use crate::rotate::Rotate;
use crate::stream::Rational;
use crate::video::VideoDecoder;
use vstd::prelude::*;
use vstd::string::StringExecFns;

verus! {

/// The description of the filter graph that rotates the frames of one
/// decoder. The graph has one source node and one sink node, linked by the
/// rotation's expression.
#[derive(Clone, Debug, PartialEq, Eq)]
pub struct Filter {
    /// The filter that the source node is an instance of.
    pub source_filter: String,
    /// The name of the source node, under which frames are fed in.
    pub source_name: String,
    /// The arguments of the source node.
    pub source_args: String,
    /// The filter that the sink node is an instance of.
    pub sink_filter: String,
    /// The name of the sink node, under which frames are taken out.
    pub sink_name: String,
    /// The arguments of the sink node.
    pub sink_args: String,
    /// The expression that links the first output of the source node to the
    /// first input of the sink node.
    pub expression: String,
}

/// The characters of a name, where there is one.
pub open spec fn name_view(name: Option<String>) -> Option<Seq<char>> {
    match name {
        Some(text) => Some(text@),
        None => None,
    }
}

/// `args` followed by `key` and `value`, or `args` alone where the value is
/// not known.
pub open spec fn with_setting(args: Seq<char>, key: Seq<char>, value: Option<Seq<char>>) -> Seq<char> {
    match value {
        Some(text) => args + key + text,
        None => args,
    }
}

/// The time base that goes with a frame rate: its inverse, written as a
/// fraction.
pub open spec fn frame_duration(frame_rate: Option<Rational>) -> Option<Seq<char>> {
    match frame_rate {
        Some(rate) => Some(
            signed_decimal(rate.denominator as int) + "/"@ + signed_decimal(rate.numerator as int),
        ),
        None => None,
    }
}

/// The arguments of the buffer source for the frames of `decoder`: the
/// frame size and a square pixel always, then pixel format, time base, color
/// space and color range, each only where the decoder knows it.
pub open spec fn buffer_args(decoder: &VideoDecoder) -> Seq<char> {
    let size = "video_size="@ + decimal(decoder.width as nat) + "x"@ + decimal(
        decoder.height as nat,
    ) + ":pixel_aspect=1/1"@;
    let format = with_setting(size, ":pix_fmt="@, name_view(decoder.format));
    let timed = with_setting(format, ":time_base="@, frame_duration(decoder.frame_rate));
    let colored = with_setting(timed, ":colorspace="@, name_view(decoder.color_space));
    with_setting(colored, ":range="@, name_view(decoder.color_range))
}

/// Appends `key` and the name to `args`, where there is a name.
fn append_name(args: &mut String, key: &str, name: &Option<String>)
    ensures
        final(args)@ == with_setting(old(args)@, key@, name_view(*name)),
{
    match name {
        Some(text) => {
            args.append(key);
            args.append(text.as_str());
        },
        None => {},
    }
}

impl Filter {
    /// Whether this is the graph for the frames of `decoder` and the
    /// rotation `rotate`.
    pub open spec fn matches(&self, decoder: &VideoDecoder, rotate: Rotate) -> bool {
        &&& self.source_filter@ == "buffer"@
        &&& self.source_name@ == "in"@
        &&& self.source_args@ == buffer_args(decoder)
        &&& self.sink_filter@ == "buffersink"@
        &&& self.sink_name@ == "out"@
        &&& self.sink_args@ == ""@
        &&& self.expression@ == rotate.filter_expression()
    }

    /// Describes the graph that rotates the frames of `decoder`.
    pub fn create(decoder: &VideoDecoder, rotate: &Rotate) -> (filter: Filter)
        ensures
            filter.matches(decoder, *rotate),
    {
        let mut filter_args = String::from_str("video_size=");
        filter_args.append(u64_to_decimal(decoder.width as u64).as_str());
        filter_args.append("x");
        filter_args.append(u64_to_decimal(decoder.height as u64).as_str());
        filter_args.append(":pixel_aspect=1/1");
        append_name(&mut filter_args, ":pix_fmt=", &decoder.format);
        let ghost format = filter_args@;
        match decoder.frame_rate {
            Some(frame_rate) => {
                filter_args.append(":time_base=");
                filter_args.append(i64_to_decimal(frame_rate.denominator as i64).as_str());
                filter_args.append("/");
                filter_args.append(i64_to_decimal(frame_rate.numerator as i64).as_str());
                assert(filter_args@ =~= format + ":time_base="@ + frame_duration(
                    decoder.frame_rate,
                ).unwrap());
            },
            None => {},
        }
        append_name(&mut filter_args, ":colorspace=", &decoder.color_space);
        append_name(&mut filter_args, ":range=", &decoder.color_range);
        Filter {
            source_filter: String::from_str("buffer"),
            source_name: String::from_str("in"),
            source_args: filter_args,
            sink_filter: String::from_str("buffersink"),
            sink_name: String::from_str("out"),
            sink_args: String::from_str(""),
            expression: String::from_str(rotate.as_filter()),
        }
    }
}

} // verus!
