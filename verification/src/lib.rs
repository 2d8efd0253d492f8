//! Rotation of video files: the video streams of a container are decoded,
//! turned by a quarter-turn filter and encoded again, every other stream is
//! copied packet by packet.
//!
//! This crate holds the rules of that work as verified code: what is built
//! for each stream, in which order the stages of a stream are driven and
//! flushed, how an output file is named, and how finished jobs are reclaimed.
//! The codec calls themselves are made by the program around it, which
//! performs the [`action::Action`]s that the pipeline hands out.

pub mod action;
pub mod decimal;
pub mod destination;
pub mod error;
pub mod filter;
pub mod jobs;
pub mod locale;
pub mod order;
pub mod output_name;
pub mod pipe;
pub mod pipeline;
pub mod rotate;
pub mod source;
pub mod stream;
pub mod video;

