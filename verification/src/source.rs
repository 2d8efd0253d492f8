//! The input of a job: the streams of the input container and the decoders
//! of its video streams.

use crate::error::PipelineError;
use crate::stream::{Medium, Parameters, Rational, StreamId};
use crate::video::VideoDecoder;
use vstd::prelude::*;

verus! {

/// One stream of the input container, as it was found when the container was
/// opened.
#[derive(Clone, Debug, PartialEq, Eq)]
pub struct InputStream {
    pub parameters: Parameters,
    pub time_base: Rational,
    /// What the decoder made from the stream's parameters reports; absent
    /// where none was made.
    pub decoder: Option<VideoDecoder>,
}

/// One entry of a container's metadata.
#[derive(Clone, Debug, PartialEq, Eq)]
pub struct Tag {
    pub key: String,
    pub value: String,
}

/// The input of a job. Every stream has a time base; the video streams, and
/// no others, have a decoder.
#[derive(Debug)]
pub struct Source {
    metadata: Vec<Tag>,
    streams: Vec<InputStream>,
}

/// A copy of the metadata of a container.
pub fn clone_metadata(metadata: &Vec<Tag>) -> (copy: Vec<Tag>)
    ensures
        copy@ == metadata@,
{
    let mut copy: Vec<Tag> = Vec::new();
    let mut index: usize = 0;
    while index < metadata.len()
        invariant
            index <= metadata.len(),
            copy@ == metadata@.take(index as int),
        decreases metadata.len() - index,
    {
        let tag = &metadata[index];
        copy.push(Tag { key: tag.key.clone(), value: tag.value.clone() });
        assert(copy@ =~= metadata@.take(index + 1));
        index += 1;
    }
    assert(metadata@.take(index as int) =~= metadata@);
    copy
}

/// Whether a job can be set up for these streams: every video stream has a
/// decoder.
pub open spec fn loadable(streams: Seq<InputStream>) -> bool {
    forall|i: int|
        0 <= i < streams.len() && streams[i].parameters.medium == Medium::Video
            ==> #[trigger] streams[i].decoder.is_some()
}

impl Source {
    /// Only video streams have a decoder, and every video stream has one.
    pub closed spec fn well_formed(&self) -> bool {
        forall|i: int|
            0 <= i < self.streams.len() ==> (#[trigger] self.streams[i].decoder.is_some()
                <==> self.streams[i].parameters.medium == Medium::Video)
    }

    /// The number of streams of the input container.
    pub closed spec fn stream_count(&self) -> nat {
        self.streams@.len()
    }

    /// The metadata of the input container.
    pub closed spec fn metadata(&self) -> Seq<Tag> {
        self.metadata@
    }

    /// Whether `id` is the key of one of the input's streams.
    pub open spec fn has_stream(&self, id: StreamId) -> bool {
        id.0 < self.stream_count()
    }

    /// The stream under the key `id`.
    pub closed spec fn stream(&self, id: StreamId) -> InputStream {
        self.streams[id.0 as int]
    }

    /// The time base of every stream, by its key.
    pub open spec fn time_bases(&self) -> Map<StreamId, Rational> {
        Map::new(|id: StreamId| self.has_stream(id), |id: StreamId| self.stream(id).time_base)
    }

    /// The decoder of every video stream, by its key.
    pub open spec fn decoders(&self) -> Map<StreamId, VideoDecoder> {
        Map::new(
            |id: StreamId| self.has_stream(id) && self.stream(id).decoder.is_some(),
            |id: StreamId| self.stream(id).decoder.unwrap(),
        )
    }

    /// Whether the stream under `id` is decoded and encoded again.
    pub open spec fn is_transcoded(&self, id: StreamId) -> bool {
        self.decoders().contains_key(id)
    }

    /// Whether this is the source for the given metadata and streams: each
    /// stream is kept with its parameters and its time base under its index,
    /// the video streams with their decoders, every other stream without.
    pub open spec fn holds(&self, metadata: Seq<Tag>, streams: Seq<InputStream>) -> bool {
        &&& self.metadata() == metadata
        &&& self.stream_count() == streams.len()
        &&& forall|i: int|
            0 <= i < streams.len() ==> {
                let given = #[trigger] streams[i];
                let kept = self.stream(StreamId(i as usize));
                &&& kept.parameters == given.parameters
                &&& kept.time_base == given.time_base
                &&& kept.decoder == if given.parameters.medium == Medium::Video {
                    given.decoder
                } else {
                    None
                }
            }
    }

    /// The streams with a decoder are the video streams.
    pub proof fn lemma_decoders_are_video(&self, id: StreamId)
        requires
            self.well_formed(),
        ensures
            self.is_transcoded(id) <==> self.has_stream(id) && self.stream(id).parameters.medium
                == Medium::Video,
    {
        if self.has_stream(id) {
            assert(self.streams[id.0 as int].decoder.is_some() <==> self.streams[id.0
                as int].parameters.medium == Medium::Video);
        }
    }

    /// A container has no more streams than an index can count.
    pub proof fn lemma_stream_count_bounded(&self)
        ensures
            self.stream_count() <= usize::MAX,
    {
        assert(self.streams.len() == self.streams@.len());
    }

    /// Takes in the streams of an opened input container. A stream that is
    /// not video is marked for copying: it gets no decoder, whatever was
    /// handed in for it. Fails if a video stream comes without a decoder.
    pub fn load(metadata: Vec<Tag>, streams: Vec<InputStream>) -> (loaded: Result<Source, PipelineError>)
        ensures
            loaded is Ok <==> loadable(streams@),
            loaded is Err ==> loaded == Err::<Source, PipelineError>(PipelineError::DecoderInit),
            loaded matches Ok(source) ==> source.well_formed() && source.holds(metadata@, streams@),
    {
        let ghost given = streams@;
        let mut kept: Vec<InputStream> = Vec::new();
        let mut index: usize = 0;
        let count = streams.len();
        while index < count
            invariant
                index <= count,
                count == given.len(),
                given == streams@,
                kept.len() == index,
                forall|i: int|
                    0 <= i < index && given[i].parameters.medium == Medium::Video
                        ==> #[trigger] given[i].decoder.is_some(),
                forall|i: int|
                    0 <= i < index ==> {
                        let entry = #[trigger] kept[i];
                        &&& entry.parameters == given[i].parameters
                        &&& entry.time_base == given[i].time_base
                        &&& entry.decoder == if given[i].parameters.medium == Medium::Video {
                            given[i].decoder
                        } else {
                            None
                        }
                    },
            decreases count - index,
        {
            let parameters = streams[index].parameters;
            let time_base = streams[index].time_base;
            let decoder = if parameters.medium.is_video() {
                match &streams[index].decoder {
                    Some(decoder) => Some(decoder.duplicate()),
                    None => {
                        assert(!given[index as int].decoder.is_some());
                        return Err(PipelineError::DecoderInit);
                    },
                }
            } else {
                None
            };
            kept.push(InputStream { parameters, time_base, decoder });
            index += 1;
        }
        let source = Source { metadata, streams: kept };
        assert forall|i: int| 0 <= i < given.len() implies {
            let kept_stream = source.stream(StreamId(i as usize));
            &&& kept_stream.parameters == (#[trigger] given[i]).parameters
            &&& kept_stream.time_base == given[i].time_base
            &&& kept_stream.decoder == if given[i].parameters.medium == Medium::Video {
                given[i].decoder
            } else {
                None
            }
        } by {
            assert(source.stream(StreamId(i as usize)) == source.streams[i]);
        }
        Ok(source)
    }

    /// The number of streams of the input container.
    pub fn len(&self) -> (count: usize)
        ensures
            count == self.stream_count(),
    {
        self.streams.len()
    }

    /// The metadata of the input container.
    pub fn tags(&self) -> (metadata: &Vec<Tag>)
        ensures
            metadata@ == self.metadata(),
    {
        &self.metadata
    }

    /// The time base of the stream under `id`, if there is such a stream.
    pub fn time_base(&self, id: StreamId) -> (time_base: Option<Rational>)
        ensures
            time_base == if self.has_stream(id) {
                Some(self.time_bases()[id])
            } else {
                None
            },
    {
        if id.0 < self.streams.len() {
            Some(self.streams[id.0].time_base)
        } else {
            None
        }
    }

    /// The codec parameters of the stream under `id`, if there is such a
    /// stream.
    pub fn parameters(&self, id: StreamId) -> (parameters: Option<Parameters>)
        ensures
            parameters == if self.has_stream(id) {
                Some(self.stream(id).parameters)
            } else {
                None
            },
    {
        if id.0 < self.streams.len() {
            Some(self.streams[id.0].parameters)
        } else {
            None
        }
    }

    /// The decoder of the stream under `id`. There is none for a stream that
    /// is copied.
    pub fn decoder(&self, id: StreamId) -> (decoder: Option<&VideoDecoder>)
        ensures
            decoder is Some <==> self.is_transcoded(id),
            decoder matches Some(found) ==> *found == self.decoders()[id],
    {
        if id.0 < self.streams.len() {
            self.streams[id.0].decoder.as_ref()
        } else {
            None
        }
    }
}

} // verus!
