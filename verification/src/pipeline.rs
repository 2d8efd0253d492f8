//! One job: the input, the output, and the order of the steps between the
//! header of the output container and its trailer.

use crate::action::{Action, Packet};
use crate::destination::Destination;
use crate::error::{Missing, PipelineError};
use crate::pipe::{stream_flush_script, Pipe};
use crate::rotate::Rotate;
use crate::source::{loadable, InputStream, Source, Tag};
use crate::stream::{Rational, StreamId};
use vstd::prelude::*;

verus! {

/// How far a job has come. The steps follow one another in this order and in
/// no other.
#[derive(PartialEq, Eq, Structural, Clone, Copy, Debug)]
pub enum PipelineState {
    /// Input and output are set up; nothing is written.
    Init,
    /// The header of the output container is written.
    HeaderWritten,
    /// The time bases of the output streams are known; packets are pumped.
    Configured,
    /// The input is exhausted and every chain is flushed.
    Draining,
    /// The trailer is written.
    Closed,
}

/// The steps for one input packet. Its timestamps are first brought to the
/// time base that the source has recorded for its stream. A packet of a
/// stream with a decoder then goes through decoder, filter and encoder. Any
/// other packet is brought to the time base of the output stream and copied.
pub open spec fn packet_script(source: &Source, destination: &Destination, packet: Packet) -> Seq<Action> {
    let stream = packet.stream;
    let in_time_base = source.time_bases()[stream];
    let out_time_base = destination.time_bases()[stream];
    let arrive = Action::RescalePacket { from: packet.time_base, to: in_time_base };
    if source.is_transcoded(stream) {
        seq![
            arrive,
            Action::DecodePacket { stream },
            Action::ApplyFilter { stream },
            Action::EncodePackets { stream, from: in_time_base, to: out_time_base },
        ]
    } else {
        seq![
            arrive,
            Action::RescalePacket { from: in_time_base, to: out_time_base },
            Action::CopyPacket { stream },
        ]
    }
}

/// The steps for a sequence of input packets, one packet after the other.
pub open spec fn pump_script(source: &Source, destination: &Destination, packets: Seq<Packet>) -> Seq<Action>
    decreases packets.len(),
{
    if packets.len() == 0 {
        Seq::empty()
    } else {
        pump_script(source, destination, packets.drop_last()) + packet_script(
            source,
            destination,
            packets.last(),
        )
    }
}

/// The steps that flush the chains of the first `count` streams: the chain
/// of each stream with a decoder, by ascending index.
pub open spec fn flush_script(source: &Source, destination: &Destination, count: nat) -> Seq<Action>
    decreases count,
{
    if count == 0 {
        Seq::empty()
    } else {
        let stream = StreamId((count - 1) as usize);
        let before = flush_script(source, destination, (count - 1) as nat);
        if source.is_transcoded(stream) {
            before + stream_flush_script(
                stream,
                source.time_bases()[stream],
                destination.time_bases()[stream],
            )
        } else {
            before
        }
    }
}

/// All steps between header and trailer for an input that consists of
/// `packets`: the steps for the packets, then the flush of every chain.
pub open spec fn transfer_script(source: &Source, destination: &Destination, packets: Seq<Packet>) -> Seq<Action> {
    pump_script(source, destination, packets) + flush_script(
        source,
        destination,
        source.stream_count(),
    )
}

/// One job. It owns its input and its output and shares nothing with any
/// other job.
#[derive(Debug)]
pub struct Pipeline {
    source: Source,
    destination: Destination,
    rotate: Rotate,
    state: PipelineState,
}

impl Pipeline {
    /// The input of the job.
    pub closed spec fn spec_source(&self) -> &Source {
        &self.source
    }

    /// The output of the job.
    pub closed spec fn spec_destination(&self) -> &Destination {
        &self.destination
    }

    /// The rotation of the job.
    pub closed spec fn spec_rotate(&self) -> Rotate {
        self.rotate
    }

    /// How far the job has come.
    pub closed spec fn spec_state(&self) -> PipelineState {
        self.state
    }

    /// What holds of every pipeline. The output is the one that the input
    /// calls for. Whether header and trailer are written, and whether the
    /// output time bases are known, goes by the state.
    pub open spec fn well_formed(&self) -> bool {
        let destination = self.destination();
        &&& self.source().well_formed()
        &&& destination.fits(self.source(), self.rotate())
        &&& destination.covers(self.source())
        &&& destination.header_written() == (self.state() != PipelineState::Init)
        &&& destination.trailer_written() == (self.state() == PipelineState::Closed)
        &&& self.state() == PipelineState::Configured || self.state() == PipelineState::Draining
            ==> destination.time_bases().dom() == self.source().time_bases().dom()
    }

    /// Whether `other` has the same input, the same rotation and the same
    /// output streams.
    pub open spec fn same_setup(&self, other: &Pipeline) -> bool {
        &&& self.source() == other.source()
        &&& self.rotate() == other.rotate()
        &&& self.destination().metadata() == other.destination().metadata()
        &&& self.destination().streams() == other.destination().streams()
    }

    /// The input of the job.
    #[verifier::when_used_as_spec(spec_source)]
    pub fn source(&self) -> (source: &Source)
        ensures
            source == self.source(),
    {
        &self.source
    }

    /// The output of the job.
    #[verifier::when_used_as_spec(spec_destination)]
    pub fn destination(&self) -> (destination: &Destination)
        ensures
            destination == self.destination(),
    {
        &self.destination
    }

    /// The rotation of the job.
    #[verifier::when_used_as_spec(spec_rotate)]
    pub fn rotate(&self) -> (rotate: Rotate)
        ensures
            rotate == self.rotate(),
    {
        self.rotate
    }

    /// How far the job has come.
    #[verifier::when_used_as_spec(spec_state)]
    pub fn state(&self) -> (state: PipelineState)
        ensures
            state == self.state(),
    {
        self.state
    }

    /// Sets up a job for an opened input container with the given metadata
    /// and streams. Fails if a video stream has no decoder.
    pub fn init(metadata: Vec<Tag>, streams: Vec<InputStream>, rotate: Rotate) -> (made: Result<
        Pipeline,
        PipelineError,
    >)
        ensures
            made is Ok <==> loadable(streams@),
            made is Err ==> made == Err::<Pipeline, PipelineError>(PipelineError::DecoderInit),
            made matches Ok(pipeline) ==> {
                &&& pipeline.well_formed()
                &&& pipeline.state() == PipelineState::Init
                &&& pipeline.rotate() == rotate
                &&& pipeline.source().holds(metadata@, streams@)
                &&& pipeline.destination().time_bases() == Map::<StreamId, Rational>::empty()
            },
    {
        let source = match Source::load(metadata, streams) {
            Ok(source) => source,
            Err(error) => {
                return Err(error);
            },
        };
        let destination = Destination::create(&source, &rotate);
        Ok(Pipeline { source, destination, rotate, state: PipelineState::Init })
    }

    /// Writes the header of the output container. This is the first step.
    pub fn write_header(&mut self) -> (action: Action)
        requires
            old(self).well_formed(),
            old(self).state() == PipelineState::Init,
        ensures
            action == Action::WriteHeader,
            final(self).well_formed(),
            final(self).state() == PipelineState::HeaderWritten,
            final(self).same_setup(old(self)),
            final(self).destination().time_bases() == old(self).destination().time_bases(),
    {
        let action = self.destination.write_header();
        self.state = PipelineState::HeaderWritten;
        action
    }

    /// Takes in the time bases of the output streams as the container has
    /// them after its header was written: `output[i]` is the time base of
    /// the output stream `i`. Fails, and changes nothing, if these are fewer
    /// than the input has streams.
    pub fn configure(&mut self, output: &Vec<Rational>) -> (done: Result<(), PipelineError>)
        requires
            old(self).well_formed(),
            old(self).state() == PipelineState::HeaderWritten,
        ensures
            done is Ok <==> output.len() >= old(self).source().stream_count(),
            done is Err ==> done == Err::<(), PipelineError>(
                PipelineError::ConfigurationInvariantViolation(Missing::Stream),
            ) && *final(self) == *old(self),
            done is Ok ==> {
                &&& final(self).state() == PipelineState::Configured
                &&& forall|id: StreamId| #[trigger]
                    final(self).source().has_stream(id) ==> final(self).destination().time_bases()[id]
                        == output[id.0 as int]
            },
            final(self).well_formed(),
            final(self).same_setup(old(self)),
    {
        match self.destination.setup_time_bases(&self.source, output) {
            Ok(()) => {
                self.state = PipelineState::Configured;
                Ok(())
            },
            Err(error) => Err(error),
        }
    }

    /// The steps for one input packet. Fails if the packet belongs to no
    /// stream of the input. The pipeline stays as it is either way.
    pub fn pump_packet(&self, packet: Packet) -> (steps: Result<Vec<Action>, PipelineError>)
        requires
            self.well_formed(),
            self.state() == PipelineState::Configured,
        ensures
            steps is Ok <==> self.source().has_stream(packet.stream),
            steps is Err ==> steps == Err::<Vec<Action>, PipelineError>(
                PipelineError::ConfigurationInvariantViolation(Missing::TimeBase),
            ),
            steps matches Ok(script) ==> script@ == packet_script(
                self.source(),
                self.destination(),
                packet,
            ),
    {
        let stream = packet.stream;
        let in_time_base = match self.source.time_base(stream) {
            Some(time_base) => time_base,
            None => {
                return Err(PipelineError::ConfigurationInvariantViolation(Missing::TimeBase));
            },
        };
        let out_time_base = match self.destination.time_base(stream) {
            Some(time_base) => time_base,
            None => {
                return Err(PipelineError::ConfigurationInvariantViolation(Missing::TimeBase));
            },
        };
        let mut script: Vec<Action> = Vec::new();
        script.push(Action::RescalePacket { from: packet.time_base, to: in_time_base });
        match self.source.decoder(stream) {
            Some(_) => {
                let mut pipe = Pipe::new(stream, in_time_base, out_time_base);
                pipe.decode_packet(&mut script);
                pipe.apply_filter(&mut script);
                pipe.encode_packets(&mut script);
            },
            None => {
                // Stream copy of a stream that is not video.
                script.push(Action::RescalePacket { from: in_time_base, to: out_time_base });
                script.push(Action::CopyPacket { stream });
            },
        }
        assert(script@ =~= packet_script(self.source(), self.destination(), packet));
        Ok(script)
    }

    /// The steps that end the transfer once the input is exhausted: the
    /// chain of every video stream is flushed, by ascending index.
    pub fn flush(&mut self) -> (script: Vec<Action>)
        requires
            old(self).well_formed(),
            old(self).state() == PipelineState::Configured,
        ensures
            script@ == flush_script(
                old(self).source(),
                old(self).destination(),
                old(self).source().stream_count(),
            ),
            final(self).well_formed(),
            final(self).state() == PipelineState::Draining,
            final(self).same_setup(old(self)),
            final(self).destination() == old(self).destination(),
    {
        let mut script: Vec<Action> = Vec::new();
        let count = self.source.len();
        let mut index: usize = 0;
        while index < count
            invariant
                index <= count,
                count == self.source().stream_count(),
                self.well_formed(),
                self.state() == PipelineState::Configured,
                *self == *old(self),
                script@ == flush_script(self.source(), self.destination(), index as nat),
            decreases count - index,
        {
            let stream = StreamId(index);
            match self.source.decoder(stream) {
                Some(_) => {
                    let in_time_base = self.source.time_base(stream).unwrap();
                    assert(self.destination().time_bases().dom().contains(stream));
                    let out_time_base = self.destination.time_base(stream).unwrap();
                    let mut pipe = Pipe::new(stream, in_time_base, out_time_base);
                    pipe.flush(&mut script);
                },
                None => {},
            }
            index += 1;
        }
        self.state = PipelineState::Draining;
        script
    }

    /// All steps between header and trailer for an input that consists of
    /// `packets`: the steps for each packet in turn, then the flush. Fails
    /// if a packet belongs to no stream of the input; the pipeline then
    /// stays as it was.
    pub fn pump_packets(&mut self, packets: &Vec<Packet>) -> (steps: Result<
        Vec<Action>,
        PipelineError,
    >)
        requires
            old(self).well_formed(),
            old(self).state() == PipelineState::Configured,
        ensures
            steps is Ok <==> forall|i: int|
                0 <= i < packets.len() ==> old(self).source().has_stream(
                    (#[trigger] packets[i]).stream,
                ),
            steps is Err ==> steps == Err::<Vec<Action>, PipelineError>(
                PipelineError::ConfigurationInvariantViolation(Missing::TimeBase),
            ) && *final(self) == *old(self),
            steps matches Ok(script) ==> {
                &&& script@ == transfer_script(
                    old(self).source(),
                    old(self).destination(),
                    packets@,
                )
                &&& final(self).state() == PipelineState::Draining
                &&& final(self).destination() == old(self).destination()
            },
            final(self).well_formed(),
            final(self).same_setup(old(self)),
    {
        let mut script: Vec<Action> = Vec::new();
        let mut index: usize = 0;
        while index < packets.len()
            invariant
                index <= packets.len(),
                self.well_formed(),
                self.state() == PipelineState::Configured,
                *self == *old(self),
                forall|i: int|
                    0 <= i < index ==> self.source().has_stream((#[trigger] packets[i]).stream),
                script@ == pump_script(
                    self.source(),
                    self.destination(),
                    packets@.take(index as int),
                ),
            decreases packets.len() - index,
        {
            let mut steps = match self.pump_packet(packets[index]) {
                Ok(steps) => steps,
                Err(error) => {
                    return Err(error);
                },
            };
            proof {
                let taken = packets@.take(index + 1);
                assert(taken.drop_last() =~= packets@.take(index as int));
                assert(taken.last() == packets[index as int]);
            }
            script.append(&mut steps);
            index += 1;
        }
        assert(packets@.take(index as int) =~= packets@);
        let mut ending = self.flush();
        script.append(&mut ending);
        Ok(script)
    }

    /// Writes the trailer of the output container. This is the last step;
    /// every encoder has been flushed by then.
    pub fn write_trailer(&mut self) -> (action: Action)
        requires
            old(self).well_formed(),
            old(self).state() == PipelineState::Draining,
        ensures
            action == Action::WriteTrailer,
            final(self).well_formed(),
            final(self).state() == PipelineState::Closed,
            final(self).same_setup(old(self)),
            final(self).destination().time_bases() == old(self).destination().time_bases(),
    {
        let action = self.destination.write_trailer();
        self.state = PipelineState::Closed;
        action
    }
}

} // verus!
