//! The transfer of one video stream through its decoder, its filter and its
//! encoder, and the order in which the three are brought to an end.

use crate::action::Action;
use crate::stream::{Rational, StreamId};
use vstd::prelude::*;

verus! {

/// How far the chain of decoder, filter and encoder of a video stream has
/// been brought to an end.
#[derive(PartialEq, Eq, Structural, Clone, Copy, Debug)]
pub enum ChainState {
    /// The decoder still takes packets.
    Decoding,
    /// The decoder has been told that its input has ended; the encoder has
    /// not.
    DecoderFlushed,
    /// The encoder has been told that its input has ended.
    EncoderFlushed,
}

/// The steps that bring one chain to an end, in their order: the decoder is
/// told first and what it still held is passed through the filter to the
/// output; then the encoder is told and is drained once more, since the
/// filter may hold frames after the decoder has ended, and the encoder
/// packets after its own end.
pub open spec fn stream_flush_script(stream: StreamId, from: Rational, to: Rational) -> Seq<Action> {
    seq![
        Action::SendEofDecoder { stream },
        Action::ApplyFilter { stream },
        Action::EncodePackets { stream, from, to },
        Action::SendEofEncoder { stream },
        Action::ApplyFilter { stream },
        Action::EncodePackets { stream, from, to },
    ]
}

/// The context of the transfer steps of one video stream: the key of the
/// stream, the time base of its packets on the way in and on the way out,
/// and the state of its chain. Each step appends to a script what is to be
/// done.
#[derive(Debug)]
pub struct Pipe {
    stream_id: StreamId,
    in_time_base: Rational,
    out_time_base: Rational,
    chain: ChainState,
}

impl Pipe {
    /// The key of the stream.
    pub closed spec fn stream_id(&self) -> StreamId {
        self.stream_id
    }

    /// The time base in which the stream's packets are decoded and encoded.
    pub closed spec fn in_time_base(&self) -> Rational {
        self.in_time_base
    }

    /// The time base in which the output container takes the packets.
    pub closed spec fn out_time_base(&self) -> Rational {
        self.out_time_base
    }

    /// The state of the chain.
    pub closed spec fn chain(&self) -> ChainState {
        self.chain
    }

    /// Whether `other` is the pipe of the same stream with the same time
    /// bases.
    pub open spec fn same_stream(&self, other: &Pipe) -> bool {
        &&& self.stream_id() == other.stream_id()
        &&& self.in_time_base() == other.in_time_base()
        &&& self.out_time_base() == other.out_time_base()
    }

    /// Whether nothing but the script has changed.
    pub open spec fn unchanged(&self, other: &Pipe) -> bool {
        self.same_stream(other) && self.chain() == other.chain()
    }

    /// The pipe of a stream whose decoder still takes packets.
    pub fn new(stream_id: StreamId, in_time_base: Rational, out_time_base: Rational) -> (pipe: Pipe)
        ensures
            pipe.stream_id() == stream_id,
            pipe.in_time_base() == in_time_base,
            pipe.out_time_base() == out_time_base,
            pipe.chain() == ChainState::Decoding,
    {
        Pipe { stream_id, in_time_base, out_time_base, chain: ChainState::Decoding }
    }

    /// The state of the chain.
    pub fn state(&self) -> (chain: ChainState)
        ensures
            chain == self.chain(),
    {
        self.chain
    }

    /// The packet goes to the decoder, and the frames that come of it to the
    /// filter. Only a decoder whose input has not ended takes packets.
    pub fn decode_packet(&mut self, script: &mut Vec<Action>)
        requires
            old(self).chain() == ChainState::Decoding,
        ensures
            final(script)@ == old(script)@.push(
                Action::DecodePacket { stream: old(self).stream_id() },
            ),
            final(self).unchanged(old(self)),
    {
        script.push(Action::DecodePacket { stream: self.stream_id });
    }

    /// The decoder is told that its input has ended, and the frames that it
    /// still held go to the filter. This is done once, and before the encoder
    /// is told.
    pub fn send_eof_decoder(&mut self, script: &mut Vec<Action>)
        requires
            old(self).chain() == ChainState::Decoding,
        ensures
            final(script)@ == old(script)@.push(
                Action::SendEofDecoder { stream: old(self).stream_id() },
            ),
            final(self).same_stream(old(self)),
            final(self).chain() == ChainState::DecoderFlushed,
    {
        script.push(Action::SendEofDecoder { stream: self.stream_id });
        self.chain = ChainState::DecoderFlushed;
    }

    /// The encoder is told that its input has ended. What it still holds
    /// comes out only with the next `apply_filter` and `encode_packets`.
    pub fn send_eof_encoder(&mut self, script: &mut Vec<Action>)
        requires
            old(self).chain() == ChainState::DecoderFlushed,
        ensures
            final(script)@ == old(script)@.push(
                Action::SendEofEncoder { stream: old(self).stream_id() },
            ),
            final(self).same_stream(old(self)),
            final(self).chain() == ChainState::EncoderFlushed,
    {
        script.push(Action::SendEofEncoder { stream: self.stream_id });
        self.chain = ChainState::EncoderFlushed;
    }

    /// Every frame that the filter has ready goes to the encoder.
    pub fn apply_filter(&mut self, script: &mut Vec<Action>)
        ensures
            final(script)@ == old(script)@.push(
                Action::ApplyFilter { stream: old(self).stream_id() },
            ),
            final(self).unchanged(old(self)),
    {
        script.push(Action::ApplyFilter { stream: self.stream_id });
    }

    /// Every packet that the encoder has ready is stamped with the stream's
    /// index, brought from the pipe's input time base to its output time
    /// base, and written.
    pub fn encode_packets(&mut self, script: &mut Vec<Action>)
        ensures
            final(script)@ == old(script)@.push(
                Action::EncodePackets {
                    stream: old(self).stream_id(),
                    from: old(self).in_time_base(),
                    to: old(self).out_time_base(),
                },
            ),
            final(self).unchanged(old(self)),
    {
        script.push(
            Action::EncodePackets {
                stream: self.stream_id,
                from: self.in_time_base,
                to: self.out_time_base,
            },
        );
    }

    /// Brings the chain to an end: the decoder first, then the encoder, each
    /// followed by a pass through filter and encoder.
    pub fn flush(&mut self, script: &mut Vec<Action>)
        requires
            old(self).chain() == ChainState::Decoding,
        ensures
            final(script)@ == old(script)@ + stream_flush_script(
                old(self).stream_id(),
                old(self).in_time_base(),
                old(self).out_time_base(),
            ),
            final(self).same_stream(old(self)),
            final(self).chain() == ChainState::EncoderFlushed,
    {
        self.send_eof_decoder(script);
        self.apply_filter(script);
        self.encode_packets(script);

        self.send_eof_encoder(script);
        self.apply_filter(script);
        self.encode_packets(script);
        assert(script@ =~= old(script)@ + stream_flush_script(
            old(self).stream_id(),
            old(self).in_time_base(),
            old(self).out_time_base(),
        ));
    }
}

} // verus!
