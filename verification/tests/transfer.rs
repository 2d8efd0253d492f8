use video_rotator::action::{Action, Packet};
use video_rotator::destination::{Destination, OutputStream};
use video_rotator::error::{Missing, PipelineError, Step};
use video_rotator::pipe::{ChainState, Pipe};
use video_rotator::pipeline::{Pipeline, PipelineState};
use video_rotator::rotate::Rotate;
use video_rotator::source::{clone_metadata, InputStream, Source, Tag};
use video_rotator::stream::{Medium, Parameters, Rational, StreamId};
use video_rotator::video::VideoDecoder;

fn rational(numerator: i32, denominator: i32) -> Rational {
    Rational { numerator, denominator }
}

fn decoder() -> VideoDecoder {
    VideoDecoder {
        width: 1280,
        height: 720,
        format: Some("yuv420p".to_string()),
        frame_rate: Some(rational(25, 1)),
        color_space: None,
        color_range: Some("tv".to_string()),
    }
}

fn video_stream() -> InputStream {
    InputStream {
        parameters: Parameters { medium: Medium::Video, codec_id: 27, codec_tag: 0x31637661 },
        time_base: rational(1, 12800),
        decoder: Some(decoder()),
    }
}

fn audio_stream() -> InputStream {
    InputStream {
        parameters: Parameters { medium: Medium::Audio, codec_id: 86018, codec_tag: 0x6134706d },
        time_base: rational(1, 48000),
        decoder: None,
    }
}

fn metadata() -> Vec<Tag> {
    vec![
        Tag { key: "title".to_string(), value: "Holiday".to_string() },
        Tag { key: "encoder".to_string(), value: "Lavf60".to_string() },
    ]
}

fn configured(streams: Vec<InputStream>, output: Vec<Rational>) -> Pipeline {
    let mut pipeline = Pipeline::init(metadata(), streams, Rotate::Deg90).unwrap();
    assert_eq!(pipeline.write_header(), Action::WriteHeader);
    assert_eq!(pipeline.configure(&output), Ok(()));
    pipeline
}

fn flush_of(stream: usize, from: Rational, to: Rational) -> Vec<Action> {
    let stream = StreamId(stream);
    vec![
        Action::SendEofDecoder { stream },
        Action::ApplyFilter { stream },
        Action::EncodePackets { stream, from, to },
        Action::SendEofEncoder { stream },
        Action::ApplyFilter { stream },
        Action::EncodePackets { stream, from, to },
    ]
}

#[test]
fn source_keeps_time_bases_and_video_decoders() {
    let source = Source::load(metadata(), vec![video_stream(), audio_stream()]).unwrap();
    assert_eq!(source.len(), 2);
    assert_eq!(source.tags(), &metadata());
    assert_eq!(source.time_base(StreamId(0)), Some(rational(1, 12800)));
    assert_eq!(source.time_base(StreamId(1)), Some(rational(1, 48000)));
    assert_eq!(source.time_base(StreamId(2)), None);
    assert_eq!(source.decoder(StreamId(0)), Some(&decoder()));
    assert_eq!(source.decoder(StreamId(1)), None);
    assert_eq!(source.decoder(StreamId(2)), None);
    assert_eq!(source.parameters(StreamId(1)), Some(audio_stream().parameters));
    assert_eq!(source.parameters(StreamId(9)), None);
}

#[test]
fn source_gives_no_decoder_to_other_streams() {
    let mut subtitles = audio_stream();
    subtitles.parameters.medium = Medium::Subtitle;
    subtitles.decoder = Some(decoder());
    let source = Source::load(Vec::new(), vec![subtitles]).unwrap();
    assert_eq!(source.decoder(StreamId(0)), None);
    assert_eq!(source.time_base(StreamId(0)), Some(rational(1, 48000)));
}

#[test]
fn source_without_streams() {
    let source = Source::load(Vec::new(), Vec::new()).unwrap();
    assert_eq!(source.len(), 0);
    assert_eq!(source.time_base(StreamId(0)), None);
}

#[test]
fn source_fails_on_a_video_stream_without_decoder() {
    let mut broken = video_stream();
    broken.decoder = None;
    let loaded = Source::load(metadata(), vec![audio_stream(), video_stream(), broken]);
    assert_eq!(loaded.err(), Some(PipelineError::DecoderInit));
    let mut broken = video_stream();
    broken.decoder = None;
    let made = Pipeline::init(metadata(), vec![broken], Rotate::Deg0);
    assert_eq!(made.err(), Some(PipelineError::DecoderInit));
}

#[test]
fn metadata_is_copied_verbatim() {
    let tags = metadata();
    assert_eq!(clone_metadata(&tags), tags);
    assert_eq!(clone_metadata(&Vec::new()), Vec::new());
    let source = Source::load(metadata(), vec![audio_stream()]).unwrap();
    let destination = Destination::create(&source, &Rotate::Deg180);
    assert_eq!(destination.tags(), &metadata());
}

#[test]
fn destination_encodes_video_and_copies_the_rest() {
    let source = Source::load(metadata(), vec![video_stream(), audio_stream()]).unwrap();
    let destination = Destination::create(&source, &Rotate::Deg90);
    assert_eq!(destination.len(), 2);
    match destination.stream(StreamId(0)) {
        Some(OutputStream::Encoded { encoder, filter }) => {
            assert_eq!((encoder.width, encoder.height), (720, 1280));
            assert_eq!(encoder.time_base, rational(1, 12800));
            assert_eq!(encoder.format, Some("yuv420p".to_string()));
            assert_eq!(encoder.frame_rate, Some(rational(25, 1)));
            assert_eq!(encoder.preset, "medium");
            assert_eq!(encoder.crf, "23");
            assert_eq!(filter.expression, "transpose=1");
            assert_eq!(
                filter.source_args,
                "video_size=1280x720:pixel_aspect=1/1:pix_fmt=yuv420p:time_base=1/25:range=tv"
            );
        }
        other => panic!("the video stream is not encoded: {:?}", other),
    }
    assert_eq!(
        destination.stream(StreamId(1)),
        Some(&OutputStream::Copied {
            parameters: Parameters { medium: Medium::Audio, codec_id: 86018, codec_tag: 0 },
        })
    );
    assert_eq!(destination.stream(StreamId(2)), None);
}

#[test]
fn destination_knows_no_time_base_before_set_up() {
    let source = Source::load(metadata(), vec![video_stream(), audio_stream()]).unwrap();
    let mut destination = Destination::create(&source, &Rotate::Deg0);
    assert!(!destination.is_header_written());
    assert!(!destination.is_trailer_written());
    assert_eq!(destination.time_base(StreamId(0)), None);
    assert_eq!(destination.write_header(), Action::WriteHeader);
    assert!(destination.is_header_written());
    assert_eq!(destination.time_base(StreamId(0)), None);
    let output = vec![rational(1, 90000), rational(1, 44100), rational(1, 7)];
    assert_eq!(destination.setup_time_bases(&source, &output), Ok(()));
    assert_eq!(destination.time_base(StreamId(0)), Some(rational(1, 90000)));
    assert_eq!(destination.time_base(StreamId(1)), Some(rational(1, 44100)));
    assert_eq!(destination.time_base(StreamId(2)), None);
    assert_eq!(destination.write_trailer(), Action::WriteTrailer);
    assert!(destination.is_trailer_written());
    assert!(destination.is_header_written());
}

#[test]
fn destination_fails_on_a_missing_output_stream() {
    let source = Source::load(metadata(), vec![video_stream(), audio_stream()]).unwrap();
    let mut destination = Destination::create(&source, &Rotate::Deg0);
    destination.write_header();
    let output = vec![rational(1, 90000)];
    assert_eq!(
        destination.setup_time_bases(&source, &output),
        Err(PipelineError::ConfigurationInvariantViolation(Missing::Stream))
    );
    assert_eq!(destination.time_base(StreamId(0)), None);
}

#[test]
fn pipeline_goes_through_its_states() {
    let mut pipeline =
        Pipeline::init(metadata(), vec![video_stream(), audio_stream()], Rotate::Deg270).unwrap();
    assert_eq!(pipeline.state(), PipelineState::Init);
    assert_eq!(pipeline.rotate(), Rotate::Deg270);
    assert_eq!(pipeline.source().len(), 2);
    assert_eq!(pipeline.destination().len(), 2);
    assert_eq!(pipeline.write_header(), Action::WriteHeader);
    assert_eq!(pipeline.state(), PipelineState::HeaderWritten);
    assert_eq!(pipeline.configure(&vec![rational(1, 90000), rational(1, 48000)]), Ok(()));
    assert_eq!(pipeline.state(), PipelineState::Configured);
    assert!(pipeline.pump_packets(&Vec::new()).is_ok());
    assert_eq!(pipeline.state(), PipelineState::Draining);
    assert_eq!(pipeline.write_trailer(), Action::WriteTrailer);
    assert_eq!(pipeline.state(), PipelineState::Closed);
    assert!(pipeline.destination().is_trailer_written());
}

#[test]
fn configure_fails_on_a_missing_output_stream() {
    let mut pipeline =
        Pipeline::init(metadata(), vec![video_stream(), audio_stream()], Rotate::Deg90).unwrap();
    pipeline.write_header();
    assert_eq!(
        pipeline.configure(&vec![rational(1, 90000)]),
        Err(PipelineError::ConfigurationInvariantViolation(Missing::Stream))
    );
    assert_eq!(pipeline.state(), PipelineState::HeaderWritten);
    assert_eq!(pipeline.configure(&vec![rational(1, 90000), rational(1, 1)]), Ok(()));
    assert_eq!(pipeline.destination().time_base(StreamId(1)), Some(rational(1, 1)));
}

#[test]
fn video_packet_goes_through_the_chain() {
    let pipeline = configured(
        vec![video_stream(), audio_stream()],
        vec![rational(1, 90000), rational(1, 44100)],
    );
    let steps = pipeline
        .pump_packet(Packet { stream: StreamId(0), time_base: rational(1, 1000) })
        .unwrap();
    assert_eq!(
        steps,
        vec![
            Action::RescalePacket { from: rational(1, 1000), to: rational(1, 12800) },
            Action::DecodePacket { stream: StreamId(0) },
            Action::ApplyFilter { stream: StreamId(0) },
            Action::EncodePackets {
                stream: StreamId(0),
                from: rational(1, 12800),
                to: rational(1, 90000),
            },
        ]
    );
}

#[test]
fn other_packet_is_copied() {
    let pipeline = configured(
        vec![video_stream(), audio_stream()],
        vec![rational(1, 90000), rational(1, 44100)],
    );
    let steps = pipeline
        .pump_packet(Packet { stream: StreamId(1), time_base: rational(1, 48000) })
        .unwrap();
    assert_eq!(
        steps,
        vec![
            Action::RescalePacket { from: rational(1, 48000), to: rational(1, 48000) },
            Action::RescalePacket { from: rational(1, 48000), to: rational(1, 44100) },
            Action::CopyPacket { stream: StreamId(1) },
        ]
    );
    assert_eq!(pipeline.state(), PipelineState::Configured);
}

#[test]
fn packet_of_an_unknown_stream_fails() {
    let mut pipeline = configured(
        vec![video_stream(), audio_stream()],
        vec![rational(1, 90000), rational(1, 44100), rational(1, 3)],
    );
    let stray = Packet { stream: StreamId(2), time_base: rational(1, 3) };
    assert_eq!(
        pipeline.pump_packet(stray),
        Err(PipelineError::ConfigurationInvariantViolation(Missing::TimeBase))
    );
    let packets = vec![Packet { stream: StreamId(0), time_base: rational(1, 12800) }, stray];
    assert_eq!(
        pipeline.pump_packets(&packets),
        Err(PipelineError::ConfigurationInvariantViolation(Missing::TimeBase))
    );
    assert_eq!(pipeline.state(), PipelineState::Configured);
}

#[test]
fn flush_ends_every_video_chain_in_order() {
    let mut pipeline = configured(
        vec![video_stream(), audio_stream(), video_stream()],
        vec![rational(1, 90000), rational(1, 44100), rational(1, 600)],
    );
    let script = pipeline.flush();
    let mut expected = flush_of(0, rational(1, 12800), rational(1, 90000));
    expected.extend(flush_of(2, rational(1, 12800), rational(1, 600)));
    assert_eq!(script, expected);
    assert_eq!(pipeline.state(), PipelineState::Draining);
}

#[test]
fn flush_of_an_input_without_video_is_empty() {
    let mut pipeline = configured(vec![audio_stream()], vec![rational(1, 44100)]);
    assert_eq!(pipeline.flush(), Vec::new());
    assert_eq!(pipeline.state(), PipelineState::Draining);
}

#[test]
fn pump_packets_is_the_packets_then_the_flush() {
    let streams = vec![video_stream(), audio_stream()];
    let output = vec![rational(1, 90000), rational(1, 44100)];
    let packets = vec![
        Packet { stream: StreamId(0), time_base: rational(1, 12800) },
        Packet { stream: StreamId(1), time_base: rational(1, 48000) },
        Packet { stream: StreamId(0), time_base: rational(1, 12800) },
    ];
    let mut whole = configured(streams.clone(), output.clone());
    let script = whole.pump_packets(&packets).unwrap();
    let mut stepwise = configured(streams, output);
    let mut expected = Vec::new();
    for packet in &packets {
        expected.extend(stepwise.pump_packet(*packet).unwrap());
    }
    expected.extend(stepwise.flush());
    assert_eq!(script, expected);
    assert_eq!(script.len(), 4 + 3 + 4 + 6);
    assert_eq!(whole.state(), PipelineState::Draining);
}

#[test]
fn decoder_ends_once_after_its_packets_and_before_its_encoder() {
    let mut pipeline = configured(
        vec![audio_stream(), video_stream(), video_stream()],
        vec![rational(1, 44100), rational(1, 90000), rational(1, 90000)],
    );
    let packets = vec![
        Packet { stream: StreamId(2), time_base: rational(1, 12800) },
        Packet { stream: StreamId(0), time_base: rational(1, 48000) },
        Packet { stream: StreamId(1), time_base: rational(1, 12800) },
        Packet { stream: StreamId(2), time_base: rational(1, 12800) },
    ];
    let script = pipeline.pump_packets(&packets).unwrap();
    for stream in [StreamId(1), StreamId(2)] {
        let decoder_ends: Vec<usize> = (0..script.len())
            .filter(|&i| script[i] == Action::SendEofDecoder { stream })
            .collect();
        let encoder_ends: Vec<usize> = (0..script.len())
            .filter(|&i| script[i] == Action::SendEofEncoder { stream })
            .collect();
        assert_eq!(decoder_ends.len(), 1);
        assert_eq!(encoder_ends.len(), 1);
        assert!(decoder_ends[0] < encoder_ends[0]);
        for i in 0..script.len() {
            if script[i] == (Action::DecodePacket { stream }) {
                assert!(i < decoder_ends[0]);
            }
        }
    }
    assert!(!script.contains(&Action::SendEofDecoder { stream: StreamId(0) }));
    assert!(!script.contains(&Action::SendEofEncoder { stream: StreamId(0) }));
}

#[test]
fn pipe_appends_its_steps() {
    let mut script = vec![Action::WriteHeader];
    let mut pipe = Pipe::new(StreamId(4), rational(1, 25), rational(1, 12800));
    assert_eq!(pipe.state(), ChainState::Decoding);
    pipe.decode_packet(&mut script);
    pipe.apply_filter(&mut script);
    pipe.encode_packets(&mut script);
    assert_eq!(pipe.state(), ChainState::Decoding);
    pipe.send_eof_decoder(&mut script);
    assert_eq!(pipe.state(), ChainState::DecoderFlushed);
    pipe.send_eof_encoder(&mut script);
    assert_eq!(pipe.state(), ChainState::EncoderFlushed);
    assert_eq!(
        script,
        vec![
            Action::WriteHeader,
            Action::DecodePacket { stream: StreamId(4) },
            Action::ApplyFilter { stream: StreamId(4) },
            Action::EncodePackets {
                stream: StreamId(4),
                from: rational(1, 25),
                to: rational(1, 12800),
            },
            Action::SendEofDecoder { stream: StreamId(4) },
            Action::SendEofEncoder { stream: StreamId(4) },
        ]
    );
}

#[test]
fn pipe_flush_is_the_double_flush() {
    let mut script = Vec::new();
    let mut pipe = Pipe::new(StreamId(1), rational(1, 30), rational(1, 15360));
    pipe.flush(&mut script);
    assert_eq!(script, flush_of(1, rational(1, 30), rational(1, 15360)));
    assert_eq!(pipe.state(), ChainState::EncoderFlushed);
}

#[test]
fn each_step_fails_as_its_error() {
    assert_eq!(Step::OpenInput.failure(), PipelineError::Open);
    assert_eq!(Step::OpenOutput.failure(), PipelineError::Open);
    assert_eq!(Step::OpenDecoder.failure(), PipelineError::DecoderInit);
    assert_eq!(Step::OpenEncoder.failure(), PipelineError::EncoderInit);
    assert_eq!(Step::BuildFilter.failure(), PipelineError::FilterGraph);
    assert_eq!(Step::Transfer.failure(), PipelineError::Codec);
    assert_eq!(Step::WriteHeader.failure(), PipelineError::Mux);
    assert_eq!(Step::WriteCopied.failure(), PipelineError::Mux);
    assert_eq!(Step::WriteTrailer.failure(), PipelineError::Mux);
}

#[test]
fn each_error_has_its_text() {
    assert_eq!(PipelineError::Open.message(), "The container cannot be opened.");
    assert_eq!(
        PipelineError::DecoderInit.message(),
        "Cannot make a decoder for a video stream."
    );
    assert_eq!(
        PipelineError::EncoderInit.message(),
        "Unknown codec. The encoder was wrongly configured."
    );
    assert_eq!(PipelineError::FilterGraph.message(), "The filter graph cannot be built.");
    assert_eq!(PipelineError::Codec.message(), "A packet or a frame was refused.");
    assert_eq!(PipelineError::Mux.message(), "The output cannot be written.");
    assert_eq!(
        PipelineError::ConfigurationInvariantViolation(Missing::TimeBase).message(),
        "Found missing time base of a stream."
    );
    assert_eq!(
        PipelineError::ConfigurationInvariantViolation(Missing::Stream).message(),
        "Found missing stream in destination."
    );
}
