//! What a run asks of the outside world, and what the world answers.
//!
//! The run decides; its caller performs the effects in order. Of each list
//! of effects only the last one asks a question (`LoadManifest`, `Probe`,
//! `Spawn`, `WriteSummary`); its answer is the next event. A failure while
//! performing any effect is answered with `Event::IoFailed`.

use crate::case::{CaseStatus, Command, CommandModel, OutputModel, ProcessOutput};
use crate::error::{Fatal, FatalModel};
use crate::manifest::{Manifest, ManifestModel};
use vstd::prelude::*;

verus! {

/// Progress worth showing to whoever watches the run.
#[derive(Clone, Debug, PartialEq, Eq)]
pub enum Notice {
    SuiteStarted { label: String, arch: Option<String>, description: Option<String>, cases: usize },
    Build { message: String },
    CaseStarted {
        index: usize,
        total: usize,
        name: String,
        description: Option<String>,
        log: String,
    },
    CaseFinished { status: CaseStatus, duration_ms: u128 },
}

/// The mathematical content of a [`Notice`].
pub enum NoticeModel {
    SuiteStarted {
        label: Seq<char>,
        arch: Option<Seq<char>>,
        description: Option<Seq<char>>,
        cases: nat,
    },
    Build { message: Seq<char> },
    CaseStarted {
        index: nat,
        total: nat,
        name: Seq<char>,
        description: Option<Seq<char>>,
        log: Seq<char>,
    },
    CaseFinished { status: CaseStatus, duration_ms: u128 },
}

impl View for Notice {
    type V = NoticeModel;

    open spec fn view(&self) -> NoticeModel {
        match self {
            Notice::SuiteStarted { label, arch, description, cases } => NoticeModel::SuiteStarted {
                label: label@,
                arch: arch.deep_view(),
                description: description.deep_view(),
                cases: *cases as nat,
            },
            Notice::Build { message } => NoticeModel::Build { message: message@ },
            Notice::CaseStarted {
                index,
                total,
                name,
                description,
                log,
            } => NoticeModel::CaseStarted {
                index: *index as nat,
                total: *total as nat,
                name: name@,
                description: description.deep_view(),
                log: log@,
            },
            Notice::CaseFinished { status, duration_ms } => NoticeModel::CaseFinished {
                status: *status,
                duration_ms: *duration_ms,
            },
        }
    }
}

/// One thing the run asks its caller to do.
#[derive(Clone, Debug, PartialEq, Eq)]
pub enum Effect {
    /// Read and parse the manifest. Answer: `ManifestLoaded`,
    /// `ManifestUnreadable` or `ManifestMalformed`.
    LoadManifest { path: String },
    /// Create the directory and its missing parents.
    CreateDir { path: String },
    /// Create the file, or empty it.
    CreateFile { path: String },
    /// Append the line and a newline to the file.
    AppendLine { path: String, line: String },
    /// Append the bytes to the file.
    AppendBytes { path: String, bytes: Vec<u8> },
    /// Replace the contents of the file.
    WriteFile { path: String, contents: String },
    /// Remove the file if it exists.
    RemoveFile { path: String },
    /// Tell whether the path exists. Answer: `Probed`.
    Probe { path: String },
    /// Run the command to its end, capturing its output; `echo` asks to
    /// show the output as well. Answer: `Exited` or `SpawnFailed`.
    Spawn { command: Command, echo: bool },
    /// Write the run's summary to the file. Answer: `SummaryWritten`.
    WriteSummary { path: String },
    /// Show progress.
    Announce { notice: Notice },
    /// Stop: the run is aborted.
    Abort { error: Fatal },
    /// Stop: the run is over, in failure where a message is given.
    Finish { failure: Option<String> },
}

/// The mathematical content of an [`Effect`].
pub enum EffectModel {
    LoadManifest { path: Seq<char> },
    CreateDir { path: Seq<char> },
    CreateFile { path: Seq<char> },
    AppendLine { path: Seq<char>, line: Seq<char> },
    AppendBytes { path: Seq<char>, bytes: Seq<u8> },
    WriteFile { path: Seq<char>, contents: Seq<char> },
    RemoveFile { path: Seq<char> },
    Probe { path: Seq<char> },
    Spawn { command: CommandModel, echo: bool },
    WriteSummary { path: Seq<char> },
    Announce { notice: NoticeModel },
    Abort { error: FatalModel },
    Finish { failure: Option<Seq<char>> },
}

impl View for Effect {
    type V = EffectModel;

    open spec fn view(&self) -> EffectModel {
        match self {
            Effect::LoadManifest { path } => EffectModel::LoadManifest { path: path@ },
            Effect::CreateDir { path } => EffectModel::CreateDir { path: path@ },
            Effect::CreateFile { path } => EffectModel::CreateFile { path: path@ },
            Effect::AppendLine { path, line } => EffectModel::AppendLine {
                path: path@,
                line: line@,
            },
            Effect::AppendBytes { path, bytes } => EffectModel::AppendBytes {
                path: path@,
                bytes: bytes@,
            },
            Effect::WriteFile { path, contents } => EffectModel::WriteFile {
                path: path@,
                contents: contents@,
            },
            Effect::RemoveFile { path } => EffectModel::RemoveFile { path: path@ },
            Effect::Probe { path } => EffectModel::Probe { path: path@ },
            Effect::Spawn { command, echo } => EffectModel::Spawn {
                command: command@,
                echo: *echo,
            },
            Effect::WriteSummary { path } => EffectModel::WriteSummary { path: path@ },
            Effect::Announce { notice } => EffectModel::Announce { notice: notice@ },
            Effect::Abort { error } => EffectModel::Abort { error: error@ },
            Effect::Finish { failure } => EffectModel::Finish { failure: failure.deep_view() },
        }
    }
}

impl DeepView for Effect {
    type V = EffectModel;

    open spec fn deep_view(&self) -> EffectModel {
        self@
    }
}

/// What happened outside, as told to the run.
#[derive(Clone, Debug, PartialEq, Eq)]
pub enum Event {
    /// The manifest was read and parsed.
    ManifestLoaded { manifest: Manifest },
    /// The manifest could not be read.
    ManifestUnreadable { detail: String },
    /// The manifest could not be parsed.
    ManifestMalformed { detail: String },
    /// The probed path exists, or does not.
    Probed { exists: bool },
    /// The spawned process has ended.
    Exited { output: ProcessOutput },
    /// The process could not be started.
    SpawnFailed { detail: String },
    /// The summary is on disk.
    SummaryWritten,
    /// An effect failed on the file system.
    IoFailed { detail: String },
}

/// The mathematical content of an [`Event`].
pub enum EventModel {
    ManifestLoaded { manifest: ManifestModel },
    ManifestUnreadable { detail: Seq<char> },
    ManifestMalformed { detail: Seq<char> },
    Probed { exists: bool },
    Exited { output: OutputModel },
    SpawnFailed { detail: Seq<char> },
    SummaryWritten,
    IoFailed { detail: Seq<char> },
}

impl View for Event {
    type V = EventModel;

    open spec fn view(&self) -> EventModel {
        match self {
            Event::ManifestLoaded { manifest } => EventModel::ManifestLoaded {
                manifest: manifest@,
            },
            Event::ManifestUnreadable { detail } => EventModel::ManifestUnreadable {
                detail: detail@,
            },
            Event::ManifestMalformed { detail } => EventModel::ManifestMalformed {
                detail: detail@,
            },
            Event::Probed { exists } => EventModel::Probed { exists: *exists },
            Event::Exited { output } => EventModel::Exited { output: output@ },
            Event::SpawnFailed { detail } => EventModel::SpawnFailed { detail: detail@ },
            Event::SummaryWritten => EventModel::SummaryWritten,
            Event::IoFailed { detail } => EventModel::IoFailed { detail: detail@ },
        }
    }
}

} // verus!
