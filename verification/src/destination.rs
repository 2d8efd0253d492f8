//! The output of a job: what is set up for each stream of the input, and the
//! time bases that the output container settles on.

use crate::action::Action;
use crate::error::{Missing, PipelineError};
use crate::filter::Filter;
use crate::rotate::Rotate;
use crate::source::{clone_metadata, Source, Tag};
use crate::stream::{Medium, Parameters, Rational, StreamId};
use crate::video::VideoEncoder;
use vstd::prelude::*;

verus! {

/// How one stream of the input reaches the output.
#[derive(Clone, Debug, PartialEq, Eq)]
pub enum OutputStream {
    /// The stream is decoded, filtered and encoded with these settings.
    Encoded { encoder: VideoEncoder, filter: Filter },
    /// The packets of the stream are copied; the output stream has these
    /// codec parameters.
    Copied { parameters: Parameters },
}

/// The output of a job. It has one output stream for each stream of the
/// input, under the same index.
#[derive(Debug)]
pub struct Destination {
    metadata: Vec<Tag>,
    streams: Vec<OutputStream>,
    time_bases: Vec<Rational>,
    header_written: bool,
    trailer_written: bool,
}

impl Destination {
    /// The metadata of the output container.
    pub closed spec fn metadata(&self) -> Seq<Tag> {
        self.metadata@
    }

    /// The output streams, in the order of the input's streams.
    pub closed spec fn streams(&self) -> Seq<OutputStream> {
        self.streams@
    }

    /// Whether the header of the container has been written.
    pub closed spec fn header_written(&self) -> bool {
        self.header_written
    }

    /// Whether the trailer of the container has been written.
    pub closed spec fn trailer_written(&self) -> bool {
        self.trailer_written
    }

    /// The time bases of the output streams by the keys of the input streams.
    /// The container fixes them when its header is written; until they are
    /// read back from it, none is known.
    pub closed spec fn time_bases(&self) -> Map<StreamId, Rational> {
        Map::new(
            |id: StreamId| id.0 < self.time_bases@.len(),
            |id: StreamId| self.time_bases@[id.0 as int],
        )
    }

    /// Whether there is an output stream for the input stream `id`.
    pub open spec fn has_stream(&self, id: StreamId) -> bool {
        id.0 < self.streams().len()
    }

    /// The encoder of every stream that is encoded, by the stream's key.
    pub open spec fn encoders(&self) -> Map<StreamId, VideoEncoder> {
        Map::new(
            |id: StreamId| self.has_stream(id) && self.streams()[id.0 as int] is Encoded,
            |id: StreamId| self.streams()[id.0 as int]->encoder,
        )
    }

    /// The filter of every stream that is encoded, by the stream's key.
    pub open spec fn filters(&self) -> Map<StreamId, Filter> {
        Map::new(
            |id: StreamId| self.has_stream(id) && self.streams()[id.0 as int] is Encoded,
            |id: StreamId| self.streams()[id.0 as int]->filter,
        )
    }

    /// Whether the output stream `output` is what the stream `id` of
    /// `source` calls for under the rotation `rotate`. A stream with a
    /// decoder is encoded for the rotated frames, on the time base of the
    /// input stream, through the rotation's filter graph. Any other stream is
    /// copied with its own codec parameters but for the codec tag, which is
    /// zero.
    pub open spec fn stream_fits(output: OutputStream, source: &Source, id: StreamId, rotate: Rotate) -> bool {
        if source.is_transcoded(id) {
            let decoder = source.decoders()[id];
            &&& output matches OutputStream::Encoded { encoder, filter }
            &&& encoder.matches(&decoder, source.time_bases()[id], rotate)
            &&& filter.matches(&decoder, rotate)
        } else {
            output == (OutputStream::Copied { parameters: source.stream(id).parameters.untagged() })
        }
    }

    /// Whether this is the output for `source` under the rotation `rotate`:
    /// the metadata of the input, and for each of its streams the output
    /// stream that it calls for.
    pub open spec fn fits(&self, source: &Source, rotate: Rotate) -> bool {
        &&& self.metadata() == source.metadata()
        &&& self.streams().len() == source.stream_count()
        &&& forall|id: StreamId| #[trigger]
            source.has_stream(id) ==> Self::stream_fits(
                self.streams()[id.0 as int],
                source,
                id,
                rotate,
            )
    }

    /// Whether every stream of `source` that has a decoder has an encoder and
    /// a filter here.
    pub open spec fn covers(&self, source: &Source) -> bool {
        forall|id: StreamId| #[trigger]
            source.is_transcoded(id) ==> self.encoders().contains_key(id)
                && self.filters().contains_key(id)
    }

    /// Sets up the output for the streams of `source`.
    pub fn create(source: &Source, rotate: &Rotate) -> (destination: Destination)
        ensures
            destination.fits(source, *rotate),
            destination.covers(source),
            destination.time_bases() == Map::<StreamId, Rational>::empty(),
            !destination.header_written(),
            !destination.trailer_written(),
    {
        let mut streams: Vec<OutputStream> = Vec::new();
        let count = source.len();
        let mut index: usize = 0;
        while index < count
            invariant
                index <= count,
                count == source.stream_count(),
                streams.len() == index,
                forall|id: StreamId|
                    id.0 < index ==> Self::stream_fits(
                        #[trigger] streams@[id.0 as int],
                        source,
                        id,
                        *rotate,
                    ),
            decreases count - index,
        {
            let id = StreamId(index);
            let time_base = source.time_base(id).unwrap();
            let output = match source.decoder(id) {
                Some(decoder) => {
                    let encoder = VideoEncoder::create_from_decoder(decoder, time_base, rotate);
                    let filter = Filter::create(decoder, rotate);
                    OutputStream::Encoded { encoder, filter }
                },
                None => {
                    let parameters = source.parameters(id).unwrap();
                    OutputStream::Copied { parameters: parameters.without_codec_tag() }
                },
            };
            streams.push(output);
            index += 1;
        }
        let destination = Destination {
            metadata: clone_metadata(source.tags()),
            streams,
            time_bases: Vec::new(),
            header_written: false,
            trailer_written: false,
        };
        assert(destination.time_bases() =~= Map::<StreamId, Rational>::empty());
        destination
    }

    /// Commits the header of the container. No packet may be written before.
    pub fn write_header(&mut self) -> (action: Action)
        requires
            !old(self).header_written(),
        ensures
            action == Action::WriteHeader,
            final(self).header_written(),
            final(self).trailer_written() == old(self).trailer_written(),
            final(self).metadata() == old(self).metadata(),
            final(self).streams() == old(self).streams(),
            final(self).time_bases() == old(self).time_bases(),
    {
        self.header_written = true;
        Action::WriteHeader
    }

    /// Records the time bases of the output streams, read back from the
    /// container after its header was written: `output[i]` is the time base
    /// of the output stream `i`. Fails, and records nothing, if the container
    /// has fewer streams than `source`.
    pub fn setup_time_bases(&mut self, source: &Source, output: &Vec<Rational>) -> (done: Result<
        (),
        PipelineError,
    >)
        requires
            old(self).header_written(),
        ensures
            done is Ok <==> output.len() >= source.stream_count(),
            done is Err ==> done == Err::<(), PipelineError>(
                PipelineError::ConfigurationInvariantViolation(Missing::Stream),
            ) && *final(self) == *old(self),
            done is Ok ==> {
                &&& final(self).time_bases().dom() == source.time_bases().dom()
                &&& forall|id: StreamId| #[trigger]
                    source.has_stream(id) ==> final(self).time_bases()[id] == output[id.0 as int]
            },
            final(self).header_written(),
            final(self).trailer_written() == old(self).trailer_written(),
            final(self).metadata() == old(self).metadata(),
            final(self).streams() == old(self).streams(),
    {
        let count = source.len();
        if output.len() < count {
            return Err(PipelineError::ConfigurationInvariantViolation(Missing::Stream));
        }
        let mut time_bases: Vec<Rational> = Vec::new();
        let mut index: usize = 0;
        while index < count
            invariant
                index <= count <= output.len(),
                time_bases@ == output@.take(index as int),
            decreases count - index,
        {
            time_bases.push(output[index]);
            assert(time_bases@ =~= output@.take(index + 1));
            index += 1;
        }
        self.time_bases = time_bases;
        assert(self.time_bases().dom() =~= source.time_bases().dom());
        Ok(())
    }

    /// Finishes the container. Nothing may be written after.
    pub fn write_trailer(&mut self) -> (action: Action)
        requires
            old(self).header_written(),
            !old(self).trailer_written(),
        ensures
            action == Action::WriteTrailer,
            final(self).trailer_written(),
            final(self).header_written(),
            final(self).metadata() == old(self).metadata(),
            final(self).streams() == old(self).streams(),
            final(self).time_bases() == old(self).time_bases(),
    {
        self.trailer_written = true;
        Action::WriteTrailer
    }

    /// The number of output streams.
    pub fn len(&self) -> (count: usize)
        ensures
            count == self.streams().len(),
    {
        self.streams.len()
    }

    /// The metadata of the output container.
    pub fn tags(&self) -> (metadata: &Vec<Tag>)
        ensures
            metadata@ == self.metadata(),
    {
        &self.metadata
    }

    /// The output stream for the input stream `id`, if there is one.
    pub fn stream(&self, id: StreamId) -> (output: Option<&OutputStream>)
        ensures
            output is Some <==> self.has_stream(id),
            output matches Some(found) ==> *found == self.streams()[id.0 as int],
    {
        if id.0 < self.streams.len() {
            Some(&self.streams[id.0])
        } else {
            None
        }
    }

    /// The time base of the output stream for the input stream `id`, once it
    /// has been read back from the container.
    pub fn time_base(&self, id: StreamId) -> (time_base: Option<Rational>)
        ensures
            time_base is Some <==> self.time_bases().contains_key(id),
            time_base matches Some(found) ==> found == self.time_bases()[id],
    {
        if id.0 < self.time_bases.len() {
            Some(self.time_bases[id.0])
        } else {
            None
        }
    }

    /// Whether the header of the container has been written.
    pub fn is_header_written(&self) -> (written: bool)
        ensures
            written == self.header_written(),
    {
        self.header_written
    }

    /// Whether the trailer of the container has been written.
    pub fn is_trailer_written(&self) -> (written: bool)
        ensures
            written == self.trailer_written(),
    {
        self.trailer_written
    }
}

/// In the output for a source, every stream with a decoder has an encoder
/// and a filter. Its encoded frames have the size of the decoded frames
/// where the rotation is none or a half turn, and that size with width and
/// height exchanged where it is a quarter turn or three.
pub proof fn lemma_encoded_size(destination: &Destination, source: &Source, rotate: Rotate, id: StreamId)
    requires
        destination.fits(source, rotate),
        source.is_transcoded(id),
    ensures
        destination.encoders().contains_key(id),
        destination.filters().contains_key(id),
        ({
            let encoder = destination.encoders()[id];
            let decoder = source.decoders()[id];
            &&& rotate == Rotate::Deg0 || rotate == Rotate::Deg180 ==> encoder.width
                == decoder.width && encoder.height == decoder.height
            &&& rotate == Rotate::Deg90 || rotate == Rotate::Deg270 ==> encoder.width
                == decoder.height && encoder.height == decoder.width
        }),
{
    assert(source.has_stream(id));
    assert(Destination::stream_fits(destination.streams()[id.0 as int], source, id, rotate));
}

/// In the output for a source, every stream that is not video is copied, and
/// the output stream has the codec parameters of the input stream but for
/// the codec tag, which is zero.
pub proof fn lemma_copied_parameters(destination: &Destination, source: &Source, rotate: Rotate, id: StreamId)
    requires
        source.well_formed(),
        destination.fits(source, rotate),
        source.has_stream(id),
        source.stream(id).parameters.medium != Medium::Video,
    ensures
        !destination.encoders().contains_key(id),
        !destination.filters().contains_key(id),
        destination.streams()[id.0 as int] matches OutputStream::Copied { parameters } && {
            &&& parameters.codec_tag == 0
            &&& parameters.medium == source.stream(id).parameters.medium
            &&& parameters.codec_id == source.stream(id).parameters.codec_id
        },
{
    source.lemma_decoders_are_video(id);
    assert(Destination::stream_fits(destination.streams()[id.0 as int], source, id, rotate));
}

} // verus!
