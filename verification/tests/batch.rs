use video_rotator::action::{Action, Packet};
use video_rotator::error::{Missing, PipelineError};
use video_rotator::jobs::{plan_jobs, reclaim, run_job, Job, Selection, RECLAIM_INTERVAL_MS};
use video_rotator::pipeline::PipelineState;
use video_rotator::rotate::Rotate;
use video_rotator::source::{InputStream, Tag};
use video_rotator::stream::{Medium, Parameters, Rational, StreamId};
use video_rotator::video::VideoDecoder;

fn selection(path: &str, stem: &str, extension: &str) -> Selection {
    Selection { path: path.to_string(), stem: stem.to_string(), extension: extension.to_string() }
}

fn rational(numerator: i32, denominator: i32) -> Rational {
    Rational { numerator, denominator }
}

fn video_stream() -> InputStream {
    InputStream {
        parameters: Parameters { medium: Medium::Video, codec_id: 27, codec_tag: 0x31637661 },
        time_base: rational(1, 15360),
        decoder: Some(VideoDecoder {
            width: 1920,
            height: 1080,
            format: Some("yuv420p".to_string()),
            frame_rate: Some(rational(30, 1)),
            color_space: Some("bt709".to_string()),
            color_range: None,
        }),
    }
}

fn audio_stream() -> InputStream {
    InputStream {
        parameters: Parameters { medium: Medium::Audio, codec_id: 86018, codec_tag: 0x6134706d },
        time_base: rational(1, 44100),
        decoder: None,
    }
}

#[test]
fn one_job_for_each_selected_file() {
    let selected = vec![
        selection("/home/me/clip.mp4", "clip", "mp4"),
        selection("/home/me/trip.mkv", "trip", "mkv"),
    ];
    let jobs = plan_jobs(&selected, Rotate::Deg90, &Vec::new());
    assert_eq!(
        jobs,
        vec![
            Job {
                input: "/home/me/clip.mp4".to_string(),
                output: "clip.mp4".to_string(),
                rotation: Rotate::Deg90,
            },
            Job {
                input: "/home/me/trip.mkv".to_string(),
                output: "trip.mkv".to_string(),
                rotation: Rotate::Deg90,
            },
        ]
    );
    assert_eq!(plan_jobs(&Vec::new(), Rotate::Deg0, &vec!["clip.mp4".to_string()]), Vec::new());
}

#[test]
fn colliding_jobs_get_names_of_their_own() {
    let selected = vec![
        selection("/a/clip.mp4", "clip", "mp4"),
        selection("/b/clip.mp4", "clip", "mp4"),
        selection("/c/clip.mp4", "clip", "mp4"),
    ];
    let jobs = plan_jobs(&selected, Rotate::Deg180, &vec!["clip.mp4".to_string()]);
    let outputs: Vec<&str> = jobs.iter().map(|job| job.output.as_str()).collect();
    assert_eq!(outputs, vec!["clip(1).mp4", "clip(2).mp4", "clip(3).mp4"]);
    let inputs: Vec<&str> = jobs.iter().map(|job| job.input.as_str()).collect();
    assert_eq!(inputs, vec!["/a/clip.mp4", "/b/clip.mp4", "/c/clip.mp4"]);
}

#[test]
fn outputs_of_a_batch_are_distinct_and_new() {
    let existing = vec!["a(1).mp4".to_string(), "b.mkv".to_string(), "a(3).mp4".to_string()];
    let selected = vec![
        selection("/x/a.mp4", "a", "mp4"),
        selection("/y/a.mp4", "a", "mp4"),
        selection("/y/b.mkv", "b", "mkv"),
        selection("/z/a.mp4", "a", "mp4"),
        selection("/z/a(1).mp4", "a(1)", "mp4"),
        selection("/w/a.mp4", "a", "mp4"),
    ];
    let jobs = plan_jobs(&selected, Rotate::Deg270, &existing);
    let outputs: Vec<&str> = jobs.iter().map(|job| job.output.as_str()).collect();
    assert_eq!(
        outputs,
        vec!["a.mp4", "a(2).mp4", "b(1).mkv", "a(4).mp4", "a(1)(1).mp4", "a(5).mp4"]
    );
    for i in 0..jobs.len() {
        assert!(!existing.contains(&jobs[i].output));
        for j in 0..i {
            assert_ne!(jobs[i].output, jobs[j].output);
        }
    }
}

#[test]
fn finished_jobs_leave_the_pool_last_first() {
    let mut pool = vec!["a", "b", "c", "d", "e"];
    let done = reclaim(&mut pool, &vec![true, false, true, false, true]);
    assert_eq!(done, vec!["e", "c", "a"]);
    assert_eq!(pool, vec!["b", "d"]);
}

#[test]
fn reclaiming_nothing_and_everything() {
    let mut pool = vec![1, 2, 3];
    assert_eq!(reclaim(&mut pool, &vec![false, false, false]), Vec::<i32>::new());
    assert_eq!(pool, vec![1, 2, 3]);
    assert_eq!(reclaim(&mut pool, &vec![true, true, true]), vec![3, 2, 1]);
    assert_eq!(pool, Vec::<i32>::new());
    assert_eq!(reclaim(&mut pool, &Vec::new()), Vec::<i32>::new());
    assert_eq!(pool, Vec::<i32>::new());
}

#[test]
fn pool_is_looked_at_five_times_a_second() {
    assert_eq!(RECLAIM_INTERVAL_MS, 200);
}

#[test]
fn quarter_turn_of_a_video_with_sound() {
    let metadata = vec![Tag { key: "title".to_string(), value: "Trip".to_string() }];
    let output = vec![rational(1, 15360), rational(1, 44100)];
    let video = Packet { stream: StreamId(0), time_base: rational(1, 15360) };
    let audio = Packet { stream: StreamId(1), time_base: rational(1, 44100) };
    let packets = vec![video, audio, audio, video, audio, video];
    let (pipeline, script) = run_job(
        metadata,
        vec![video_stream(), audio_stream()],
        Rotate::Deg90,
        &output,
        &packets,
    )
    .unwrap();
    assert_eq!(pipeline.state(), PipelineState::Closed);
    assert_eq!(pipeline.destination().len(), 2);
    assert_eq!(script.first(), Some(&Action::WriteHeader));
    assert_eq!(script.last(), Some(&Action::WriteTrailer));
    let decoded = script
        .iter()
        .filter(|action| **action == Action::DecodePacket { stream: StreamId(0) })
        .count();
    let copied = script
        .iter()
        .filter(|action| **action == Action::CopyPacket { stream: StreamId(1) })
        .count();
    assert_eq!(decoded, 3);
    assert_eq!(copied, 3);
    assert_eq!(script.len(), 1 + 3 * 4 + 3 * 3 + 6 + 1);
    assert_eq!(
        &script[script.len() - 7..],
        &[
            Action::SendEofDecoder { stream: StreamId(0) },
            Action::ApplyFilter { stream: StreamId(0) },
            Action::EncodePackets {
                stream: StreamId(0),
                from: rational(1, 15360),
                to: rational(1, 15360),
            },
            Action::SendEofEncoder { stream: StreamId(0) },
            Action::ApplyFilter { stream: StreamId(0) },
            Action::EncodePackets {
                stream: StreamId(0),
                from: rational(1, 15360),
                to: rational(1, 15360),
            },
            Action::WriteTrailer,
        ]
    );
}

#[test]
fn job_without_packets_only_flushes() {
    let (_, script) = run_job(
        Vec::new(),
        vec![audio_stream()],
        Rotate::Deg0,
        &vec![rational(1, 44100)],
        &Vec::new(),
    )
    .unwrap();
    assert_eq!(script, vec![Action::WriteHeader, Action::WriteTrailer]);
}

#[test]
fn job_fails_as_its_first_failing_part() {
    let mut broken = video_stream();
    broken.decoder = None;
    let stray = vec![Packet { stream: StreamId(5), time_base: rational(1, 1) }];
    let outcome = run_job(Vec::new(), vec![broken], Rotate::Deg90, &Vec::new(), &stray);
    assert_eq!(outcome.err(), Some(PipelineError::DecoderInit));
    let outcome = run_job(Vec::new(), vec![video_stream()], Rotate::Deg90, &Vec::new(), &stray);
    assert_eq!(
        outcome.err(),
        Some(PipelineError::ConfigurationInvariantViolation(Missing::Stream))
    );
    let outcome = run_job(
        Vec::new(),
        vec![video_stream()],
        Rotate::Deg90,
        &vec![rational(1, 90000)],
        &stray,
    );
    assert_eq!(
        outcome.err(),
        Some(PipelineError::ConfigurationInvariantViolation(Missing::TimeBase))
    );
}
