//! The adapter's side of the external re-multiplexing tool: what the tool is
//! asked to do for one source file, and how its exit is read.
//!
//! Running the tool is outside work. This module fixes the request that is
//! handed to it and classifies what comes back.

use crate::paths::{staging_path, staging_path_of, texts};
use vstd::prelude::*;

verus! {

/// A request as the contracts see it: two path texts.
pub struct RequestView {
    pub source: Seq<char>,
    pub staging: Seq<char>,
}

impl RequestView {
    /// The request for a source: its staging path is derived from the source
    /// alone.
    pub open spec fn for_source(source: Seq<char>) -> RequestView {
        RequestView { source, staging: staging_path_of(source) }
    }

    /// The arguments that tell the tool to copy the streams of the source
    /// unchanged, to move the metadata index to the front, and to overwrite
    /// whatever lies at the staging path.
    pub open spec fn arguments(self) -> Seq<Seq<char>> {
        seq![
            "-hide_banner"@,
            "-i"@,
            self.source,
            "-c"@,
            "copy"@,
            "-movflags"@,
            "+faststart"@,
            "-y"@,
            self.staging,
        ]
    }
}

/// What the tool is asked to do: read `source`, write `staging`.
#[derive(Debug, PartialEq, Eq)]
pub struct TranscodeRequest {
    source: String,
    staging: String,
}

impl View for TranscodeRequest {
    type V = RequestView;

    closed spec fn view(&self) -> RequestView {
        RequestView { source: self.source@, staging: self.staging@ }
    }
}

impl TranscodeRequest {
    #[verifier::type_invariant]
    spec fn well_formed(self) -> bool {
        self.staging@ == staging_path_of(self.source@)
    }

    /// The request for `source`.
    pub fn new(source: String) -> (request: TranscodeRequest)
        ensures
            request@ == RequestView::for_source(source@),
    {
        let staging = staging_path(source.as_str());
        TranscodeRequest { source, staging }
    }

    /// The file that the tool reads and never touches.
    pub fn source(&self) -> (source: &str)
        ensures
            source@ == self@.source,
    {
        self.source.as_str()
    }

    /// The file that the tool creates or overwrites.
    pub fn staging(&self) -> (staging: &str)
        ensures
            staging@ == self@.staging,
            staging@ == staging_path_of(self@.source),
    {
        proof {
            use_type_invariant(self);
        }
        self.staging.as_str()
    }

    /// The argument list for the tool, in order.
    pub fn arguments(&self) -> (arguments: Vec<String>)
        ensures
            texts(arguments@) == self@.arguments(),
    {
        let mut arguments: Vec<String> = Vec::new();
        arguments.push(String::from_str("-hide_banner"));
        arguments.push(String::from_str("-i"));
        arguments.push(self.source.clone());
        arguments.push(String::from_str("-c"));
        arguments.push(String::from_str("copy"));
        arguments.push(String::from_str("-movflags"));
        arguments.push(String::from_str("+faststart"));
        arguments.push(String::from_str("-y"));
        arguments.push(self.staging.clone());
        arguments
    }
}

/// The name of the program that re-multiplexes.
pub fn tool_program() -> (program: &'static str)
    ensures
        program@ == "ffmpeg"@,
{
    "ffmpeg"
}

/// A transcode outcome as the contracts see it.
pub enum TranscodeOutcomeView {
    Success { staging: Seq<char> },
    ExternalToolFailure { diagnostic: Seq<char> },
}

/// How one invocation of the tool ended.
#[derive(Debug, PartialEq, Eq)]
pub enum TranscodeOutcome {
    /// The tool reported success; its output lies at `staging`.
    Success { staging: String },
    /// The tool reported failure; `diagnostic` is what it wrote to its error
    /// stream, unchanged.
    ExternalToolFailure { diagnostic: String },
}

impl View for TranscodeOutcome {
    type V = TranscodeOutcomeView;

    open spec fn view(&self) -> TranscodeOutcomeView {
        match self {
            TranscodeOutcome::Success { staging } => TranscodeOutcomeView::Success {
                staging: staging@,
            },
            TranscodeOutcome::ExternalToolFailure {
                diagnostic,
            } => TranscodeOutcomeView::ExternalToolFailure { diagnostic: diagnostic@ },
        }
    }
}

/// The outcome of an invocation: success is the tool's own exit status and
/// nothing else; on failure the diagnostic text is kept as it came.
pub open spec fn outcome_of_exit(
    request: RequestView,
    succeeded: bool,
    diagnostic: Seq<char>,
) -> TranscodeOutcomeView {
    if succeeded {
        TranscodeOutcomeView::Success { staging: request.staging }
    } else {
        TranscodeOutcomeView::ExternalToolFailure { diagnostic }
    }
}

/// Reads the exit of the tool for `request`.
pub fn classify_exit(request: &TranscodeRequest, succeeded: bool, diagnostic: String) -> (outcome:
    TranscodeOutcome)
    ensures
        outcome@ == outcome_of_exit(request@, succeeded, diagnostic@),
{
    if succeeded {
        TranscodeOutcome::Success { staging: String::from_str(request.staging()) }
    } else {
        TranscodeOutcome::ExternalToolFailure { diagnostic }
    }
}

} // verus!
