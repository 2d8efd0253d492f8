//! The ways in which a job can fail.

use vstd::prelude::*;

verus! {

/// What a stream lacks when the parts of a pipeline do not fit together.
#[derive(PartialEq, Eq, Structural, Clone, Copy, Debug)]
pub enum Missing {
    /// The stream is not one of the input's streams, or has no time base.
    TimeBase,
    /// The output container has no stream for an input stream.
    Stream,
}

/// Why a job stopped. No error is recovered from: the first one ends the job.
#[derive(PartialEq, Eq, Structural, Clone, Copy, Debug)]
pub enum PipelineError {
    /// A container cannot be opened or created.
    Open,
    /// No decoder can be made for a video stream.
    DecoderInit,
    /// The encoder does not accept its settings.
    EncoderInit,
    /// The filter graph cannot be built, linked or validated.
    FilterGraph,
    /// A decoder, filter or encoder refused a packet or a frame.
    Codec,
    /// The header, a copied packet or the trailer cannot be written.
    Mux,
    /// A stream that is known in one part of the pipeline is missing from
    /// another. This is a defect of the program, not of its input.
    ConfigurationInvariantViolation(Missing),
}

/// The steps of a job that the codec library can refuse.
#[derive(PartialEq, Eq, Structural, Clone, Copy, Debug)]
pub enum Step {
    OpenInput,
    OpenDecoder,
    OpenOutput,
    OpenEncoder,
    BuildFilter,
    WriteHeader,
    /// One of the operations of a pipe on a video stream.
    Transfer,
    /// Writing a packet of a copied stream.
    WriteCopied,
    WriteTrailer,
}

impl Step {
    /// The error that a failure of this step is reported as.
    pub open spec fn error(self) -> PipelineError {
        match self {
            Step::OpenInput | Step::OpenOutput => PipelineError::Open,
            Step::OpenDecoder => PipelineError::DecoderInit,
            Step::OpenEncoder => PipelineError::EncoderInit,
            Step::BuildFilter => PipelineError::FilterGraph,
            Step::Transfer => PipelineError::Codec,
            Step::WriteHeader | Step::WriteCopied | Step::WriteTrailer => PipelineError::Mux,
        }
    }

    /// The error that a failure of this step is reported as.
    pub fn failure(&self) -> (error: PipelineError)
        ensures
            error == self.error(),
            !(error is ConfigurationInvariantViolation),
    {
        match self {
            Step::OpenInput => PipelineError::Open,
            Step::OpenOutput => PipelineError::Open,
            Step::OpenDecoder => PipelineError::DecoderInit,
            Step::OpenEncoder => PipelineError::EncoderInit,
            Step::BuildFilter => PipelineError::FilterGraph,
            Step::Transfer => PipelineError::Codec,
            Step::WriteHeader => PipelineError::Mux,
            Step::WriteCopied => PipelineError::Mux,
            Step::WriteTrailer => PipelineError::Mux,
        }
    }
}

impl PipelineError {
    /// The text of the error, for a report to the user.
    pub open spec fn text(self) -> Seq<char> {
        match self {
            PipelineError::Open => "The container cannot be opened."@,
            PipelineError::DecoderInit => "Cannot make a decoder for a video stream."@,
            PipelineError::EncoderInit => "Unknown codec. The encoder was wrongly configured."@,
            PipelineError::FilterGraph => "The filter graph cannot be built."@,
            PipelineError::Codec => "A packet or a frame was refused."@,
            PipelineError::Mux => "The output cannot be written."@,
            PipelineError::ConfigurationInvariantViolation(Missing::TimeBase) =>
                "Found missing time base of a stream."@,
            PipelineError::ConfigurationInvariantViolation(Missing::Stream) =>
                "Found missing stream in destination."@,
        }
    }

    /// The text of the error, for a report to the user.
    pub fn message(&self) -> (text: &'static str)
        ensures
            text@ == self.text(),
    {
        match self {
            PipelineError::Open => "The container cannot be opened.",
            PipelineError::DecoderInit => "Cannot make a decoder for a video stream.",
            PipelineError::EncoderInit => "Unknown codec. The encoder was wrongly configured.",
            PipelineError::FilterGraph => "The filter graph cannot be built.",
            PipelineError::Codec => "A packet or a frame was refused.",
            PipelineError::Mux => "The output cannot be written.",
            PipelineError::ConfigurationInvariantViolation(Missing::TimeBase) =>
                "Found missing time base of a stream.",
            PipelineError::ConfigurationInvariantViolation(Missing::Stream) =>
                "Found missing stream in destination.",
        }
    }
}

} // verus!
