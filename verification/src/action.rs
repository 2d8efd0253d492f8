//! The calls into the codec library that a job consists of. The pipeline
//! decides which of them are made, in which order and with which time bases;
//! the program around it makes them.

use crate::stream::{Rational, StreamId};
use vstd::prelude::*;

verus! {

/// What an input packet tells the pipeline: the stream it belongs to, and
/// the time base in which that stream states its timestamps.
#[derive(PartialEq, Eq, Structural, Clone, Copy, Debug)]
pub struct Packet {
    pub stream: StreamId,
    pub time_base: Rational,
}

/// One step of a job. The steps on a packet act on the input packet that was
/// read last.
#[derive(PartialEq, Eq, Structural, Clone, Copy, Debug)]
pub enum Action {
    /// Write the header of the output container.
    WriteHeader,
    /// Rescale the timestamps of the packet from one time base to another.
    RescalePacket { from: Rational, to: Rational },
    /// Feed the packet to the decoder of the stream, then take every frame
    /// that the decoder has ready, make its decoded timestamp its
    /// presentation timestamp, and feed it to the filter.
    DecodePacket { stream: StreamId },
    /// Take every frame that the filter has ready and feed it to the encoder.
    ApplyFilter { stream: StreamId },
    /// Take every packet that the encoder has ready, stamp it with the index
    /// of the stream, rescale its timestamps from `from` to `to`, and write it
    /// to the output container.
    EncodePackets { stream: StreamId, from: Rational, to: Rational },
    /// Tell the decoder that its input has ended, then pass on the frames
    /// that it still holds, as for a packet.
    SendEofDecoder { stream: StreamId },
    /// Tell the encoder that its input has ended.
    SendEofEncoder { stream: StreamId },
    /// Forget the byte position of the packet, stamp it with the index of the
    /// stream, and write it to the output container, interleaved by
    /// presentation order.
    CopyPacket { stream: StreamId },
    /// Write the trailer of the output container.
    WriteTrailer,
}

} // verus!
