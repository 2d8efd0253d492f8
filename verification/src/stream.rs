//! What the pipeline knows of a stream: its key, its time base, its kind and
//! the codec parameters that decide how it is carried over.

use vstd::prelude::*;
use vstd::std_specs::convert::FromSpecImpl;

verus! {

/// The key of a stream: the index that the stream has in the input container.
/// Decoder, encoder, filter and time bases of one stream are found under the
/// same key.
#[derive(PartialEq, Eq, Structural, Hash, Clone, Copy, Debug)]
pub struct StreamId(pub usize);

impl From<usize> for StreamId {
    fn from(value: usize) -> (id: StreamId) {
        StreamId(value)
    }
}

impl FromSpecImpl<usize> for StreamId {
    open spec fn obeys_from_spec() -> bool {
        true
    }

    open spec fn from_spec(value: usize) -> StreamId {
        StreamId(value)
    }
}

/// A rational number as the codec library writes it: a time base, or a frame
/// rate.
#[derive(PartialEq, Eq, Structural, Clone, Copy, Debug)]
pub struct Rational {
    pub numerator: i32,
    pub denominator: i32,
}

/// The kind of data that a stream carries.
#[derive(PartialEq, Eq, Structural, Clone, Copy, Debug)]
pub enum Medium {
    Unknown,
    Video,
    Audio,
    Data,
    Subtitle,
    Attachment,
}

impl Medium {
    /// Whether streams of this kind are decoded, rotated and encoded again.
    /// Every other stream is copied.
    pub fn is_video(&self) -> (video: bool)
        ensures
            video == (*self == Medium::Video),
    {
        match self {
            Medium::Video => true,
            _ => false,
        }
    }
}

/// The codec parameters of a stream, as far as the pipeline reads or changes
/// them. The container-level codec tag is the one field that a copied stream
/// does not keep.
#[derive(PartialEq, Eq, Structural, Clone, Copy, Debug)]
pub struct Parameters {
    pub medium: Medium,
    pub codec_id: u32,
    pub codec_tag: u32,
}

impl Parameters {
    /// These parameters with the codec tag cleared, every other field kept.
    pub open spec fn untagged(self) -> Parameters {
        Parameters { codec_tag: 0, ..self }
    }

    /// The parameters of the output stream that copies a stream with these
    /// parameters. A tag of one container format may be refused by another,
    /// so the copy carries none.
    pub fn without_codec_tag(&self) -> (copied: Parameters)
        ensures
            copied == self.untagged(),
            copied.codec_tag == 0,
            copied.medium == self.medium,
            copied.codec_id == self.codec_id,
    {
        Parameters { medium: self.medium, codec_id: self.codec_id, codec_tag: 0 }
    }
}

} // verus!
