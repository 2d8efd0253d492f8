//! What holds of the order of the steps of every transfer.

use crate::action::{Action, Packet};
use crate::destination::Destination;
use crate::pipe::stream_flush_script;
use crate::pipeline::{flush_script, packet_script, pump_script, transfer_script};
use crate::source::Source;
use crate::stream::StreamId;
use vstd::prelude::*;

verus! {

/// Whether the step tells a decoder or an encoder that its input has ended.
pub open spec fn ends_input(action: Action) -> bool {
    action is SendEofDecoder || action is SendEofEncoder
}

/// The number of streams with a decoder among the first `count` streams.
pub open spec fn chains_before(source: &Source, count: nat) -> nat
    decreases count,
{
    if count == 0 {
        0
    } else {
        chains_before(source, (count - 1) as nat) + if source.is_transcoded(
            StreamId((count - 1) as usize),
        ) {
            1nat
        } else {
            0nat
        }
    }
}

/// Where, among the steps of a whole transfer of `packets`, the decoder of
/// `stream` is told that its input has ended: after the steps for the
/// packets and the flush of the chains of the streams before it.
pub open spec fn decoder_end(source: &Source, destination: &Destination, packets: Seq<Packet>, stream: StreamId) -> int {
    (pump_script(source, destination, packets).len() + 6 * chains_before(
        source,
        stream.0 as nat,
    )) as int
}

/// Where, among the steps of a whole transfer of `packets`, the encoder of
/// `stream` is told that its input has ended.
pub open spec fn encoder_end(source: &Source, destination: &Destination, packets: Seq<Packet>, stream: StreamId) -> int {
    decoder_end(source, destination, packets, stream) + 3
}

/// No step for a packet ends the input of a decoder or an encoder.
pub proof fn lemma_pump_ends_nothing(source: &Source, destination: &Destination, packets: Seq<Packet>, i: int)
    requires
        0 <= i < pump_script(source, destination, packets).len(),
    ensures
        !ends_input(pump_script(source, destination, packets)[i]),
    decreases packets.len(),
{
    if packets.len() > 0 {
        let before = pump_script(source, destination, packets.drop_last());
        if i < before.len() {
            lemma_pump_ends_nothing(source, destination, packets.drop_last(), i);
        } else {
            let last = packet_script(source, destination, packets.last());
            assert(pump_script(source, destination, packets)[i] == last[i - before.len()]);
        }
    }
}

/// The flush of the first `count` streams takes six steps for each chain.
/// Each of its steps is one of the six of a stream below `count`, and none
/// feeds a packet to a decoder.
pub proof fn lemma_flush_shape(source: &Source, destination: &Destination, count: nat)
    requires
        count <= source.stream_count(),
    ensures
        flush_script(source, destination, count).len() == 6 * chains_before(source, count),
        forall|i: int|
            0 <= i < flush_script(source, destination, count).len() ==> {
                let action = #[trigger] flush_script(source, destination, count)[i];
                &&& !(action is DecodePacket)
                &&& action matches Action::SendEofDecoder { stream } ==> stream.0 < count
                &&& action matches Action::SendEofEncoder { stream } ==> stream.0 < count
            },
    decreases count,
{
    source.lemma_stream_count_bounded();
    if count > 0 {
        lemma_flush_shape(source, destination, (count - 1) as nat);
        let stream = StreamId((count - 1) as usize);
        let before = flush_script(source, destination, (count - 1) as nat);
        let whole = flush_script(source, destination, count);
        if source.is_transcoded(stream) {
            let block = stream_flush_script(
                stream,
                source.time_bases()[stream],
                destination.time_bases()[stream],
            );
            assert forall|i: int| 0 <= i < whole.len() implies {
                let action = #[trigger] whole[i];
                &&& !(action is DecodePacket)
                &&& action matches Action::SendEofDecoder { stream } ==> stream.0 < count
                &&& action matches Action::SendEofEncoder { stream } ==> stream.0 < count
            } by {
                if i < before.len() {
                    assert(whole[i] == before[i]);
                } else {
                    assert(whole[i] == block[i - before.len()]);
                }
            }
        }
    }
}

/// In the flush of the first `count` streams, the decoder of a video stream
/// below `count` is told once that its input has ended, its encoder once,
/// three steps later, and both at the place that the chains before them
/// leave.
pub proof fn lemma_flush_places(source: &Source, destination: &Destination, count: nat, stream: StreamId)
    requires
        count <= source.stream_count(),
        stream.0 < count,
        source.is_transcoded(stream),
    ensures
        ({
            let script = flush_script(source, destination, count);
            let place = 6 * chains_before(source, stream.0 as nat);
            &&& place + 6 <= script.len()
            &&& forall|i: int|
                0 <= i < script.len() ==> ((#[trigger] script[i]) == (Action::SendEofDecoder {
                    stream,
                }) <==> i == place)
            &&& forall|i: int|
                0 <= i < script.len() ==> ((#[trigger] script[i]) == (Action::SendEofEncoder {
                    stream,
                }) <==> i == place + 3)
        }),
    decreases count,
{
    source.lemma_stream_count_bounded();
    let last = StreamId((count - 1) as usize);
    let before = flush_script(source, destination, (count - 1) as nat);
    let script = flush_script(source, destination, count);
    let place = 6 * chains_before(source, stream.0 as nat);
    lemma_flush_shape(source, destination, (count - 1) as nat);
    if stream.0 == count - 1 {
        assert(last == stream);
        let block = stream_flush_script(
            stream,
            source.time_bases()[stream],
            destination.time_bases()[stream],
        );
        assert(script == before + block);
        assert(before.len() == place);
        assert forall|i: int| 0 <= i < script.len() implies ((#[trigger] script[i]) == (
        Action::SendEofDecoder { stream }) <==> i == place) && (script[i] == (
        Action::SendEofEncoder { stream }) <==> i == place + 3) by {
            if i < before.len() {
                assert(script[i] == before[i]);
            } else {
                assert(script[i] == block[i - before.len()]);
            }
        }
    } else {
        lemma_flush_places(source, destination, (count - 1) as nat, stream);
        if source.is_transcoded(last) {
            let block = stream_flush_script(
                last,
                source.time_bases()[last],
                destination.time_bases()[last],
            );
            assert(script == before + block);
            assert forall|i: int| 0 <= i < script.len() implies ((#[trigger] script[i]) == (
            Action::SendEofDecoder { stream }) <==> i == place) && (script[i] == (
            Action::SendEofEncoder { stream }) <==> i == place + 3) by {
                if i < before.len() {
                    assert(script[i] == before[i]);
                } else {
                    assert(script[i] == block[i - before.len()]);
                }
            }
        }
    }
}

/// Among the steps of a whole transfer, the decoder of each video stream is
/// told exactly once that its input has ended: after every packet that is
/// fed to it, and before its encoder is told, which happens exactly once
/// too.
pub proof fn lemma_flush_order(source: &Source, destination: &Destination, packets: Seq<Packet>, stream: StreamId)
    requires
        source.is_transcoded(stream),
    ensures
        ({
            let script = transfer_script(source, destination, packets);
            let decoder_end = decoder_end(source, destination, packets, stream);
            let encoder_end = encoder_end(source, destination, packets, stream);
            &&& 0 <= decoder_end < encoder_end < script.len()
            &&& forall|i: int|
                0 <= i < script.len() ==> ((#[trigger] script[i]) == (Action::SendEofDecoder {
                    stream,
                }) <==> i == decoder_end)
            &&& forall|i: int|
                0 <= i < script.len() ==> ((#[trigger] script[i]) == (Action::SendEofEncoder {
                    stream,
                }) <==> i == encoder_end)
            &&& forall|i: int|
                0 <= i < script.len() && (#[trigger] script[i]) == (Action::DecodePacket { stream })
                    ==> i < decoder_end
        }),
{
    let pumped = pump_script(source, destination, packets);
    let flushed = flush_script(source, destination, source.stream_count());
    let script = transfer_script(source, destination, packets);
    let place = 6 * chains_before(source, stream.0 as nat);
    lemma_flush_places(source, destination, source.stream_count(), stream);
    lemma_flush_shape(source, destination, source.stream_count());
    assert forall|i: int| 0 <= i < script.len() implies {
        &&& (#[trigger] script[i]) == (Action::SendEofDecoder { stream }) <==> i == pumped.len()
            + place
        &&& script[i] == (Action::SendEofEncoder { stream }) <==> i == pumped.len() + place + 3
        &&& script[i] == (Action::DecodePacket { stream }) ==> i < pumped.len() + place
    } by {
        if i < pumped.len() {
            assert(script[i] == pumped[i]);
            lemma_pump_ends_nothing(source, destination, packets, i);
        } else {
            assert(script[i] == flushed[i - pumped.len()]);
        }
    }
}

/// The steps of a transfer depend on the output only through the time bases
/// of its streams.
pub proof fn lemma_scripts_by_time_bases(source: &Source, first: &Destination, second: &Destination, packets: Seq<Packet>)
    requires
        first.time_bases() == second.time_bases(),
    ensures
        pump_script(source, first, packets) == pump_script(source, second, packets),
        forall|count: nat| #[trigger]
            flush_script(source, first, count) == flush_script(source, second, count),
        transfer_script(source, first, packets) == transfer_script(source, second, packets),
{
    lemma_pump_by_time_bases(source, first, second, packets);
    assert forall|count: nat| #[trigger]
        flush_script(source, first, count) == flush_script(source, second, count) by {
        lemma_flush_by_time_bases(source, first, second, count);
    }
}

proof fn lemma_pump_by_time_bases(source: &Source, first: &Destination, second: &Destination, packets: Seq<Packet>)
    requires
        first.time_bases() == second.time_bases(),
    ensures
        pump_script(source, first, packets) == pump_script(source, second, packets),
    decreases packets.len(),
{
    if packets.len() > 0 {
        lemma_pump_by_time_bases(source, first, second, packets.drop_last());
    }
}

proof fn lemma_flush_by_time_bases(source: &Source, first: &Destination, second: &Destination, count: nat)
    requires
        first.time_bases() == second.time_bases(),
    ensures
        flush_script(source, first, count) == flush_script(source, second, count),
    decreases count,
{
    if count > 0 {
        lemma_flush_by_time_bases(source, first, second, (count - 1) as nat);
    }
}

/// A packet of a video stream is fed to the stream's decoder, and a packet
/// of any other stream is copied: no packet is dropped, and none is both
/// decoded and copied.
pub proof fn lemma_packet_routed(source: &Source, destination: &Destination, packet: Packet)
    ensures
        ({
            let script = packet_script(source, destination, packet);
            let decoded = Action::DecodePacket { stream: packet.stream };
            let copied = Action::CopyPacket { stream: packet.stream };
            &&& source.is_transcoded(packet.stream) ==> script.contains(decoded)
                && !script.contains(copied)
            &&& !source.is_transcoded(packet.stream) ==> script.contains(copied)
                && !script.contains(decoded)
        }),
{
    let script = packet_script(source, destination, packet);
    if source.is_transcoded(packet.stream) {
        assert(script[1] == Action::DecodePacket { stream: packet.stream });
    } else {
        assert(script[2] == Action::CopyPacket { stream: packet.stream });
    }
}

} // verus!
