//! The errors that abort a run.

use crate::suite::Suite;
use vstd::prelude::*;

verus! {

/// An error that aborts the whole run: no summary is written after it.
#[derive(Clone, Debug, PartialEq, Eq)]
pub enum Fatal {
    /// The manifest could not be read.
    ManifestUnreadable { path: String, detail: String },
    /// The manifest could not be parsed.
    ManifestMalformed { path: String, detail: String },
    /// The manifest lists no case.
    NoCases { suite: Suite, manifest: String },
    /// The executable of a case does not exist.
    MissingScript { case: String, script: String },
    /// The build script could not be started.
    BuildNotStarted { script: String, detail: String },
    /// The process of a case could not be started.
    CaseNotStarted { case: String, detail: String },
    /// A directory or a log could not be written.
    Io { detail: String },
    /// The time the run was to start at has no run identifier: it lies
    /// outside what the calendar can represent. No reading of the clock is
    /// such a time.
    ClockOutOfRange,
    /// An event came that does not answer what the run asked for.
    UnexpectedEvent,
}

/// The mathematical content of a [`Fatal`].
pub enum FatalModel {
    ManifestUnreadable { path: Seq<char>, detail: Seq<char> },
    ManifestMalformed { path: Seq<char>, detail: Seq<char> },
    NoCases { suite: Suite, manifest: Seq<char> },
    MissingScript { case: Seq<char>, script: Seq<char> },
    BuildNotStarted { script: Seq<char>, detail: Seq<char> },
    CaseNotStarted { case: Seq<char>, detail: Seq<char> },
    Io { detail: Seq<char> },
    ClockOutOfRange,
    UnexpectedEvent,
}

impl View for Fatal {
    type V = FatalModel;

    open spec fn view(&self) -> FatalModel {
        match self {
            Fatal::ManifestUnreadable { path, detail } => FatalModel::ManifestUnreadable {
                path: path@,
                detail: detail@,
            },
            Fatal::ManifestMalformed { path, detail } => FatalModel::ManifestMalformed {
                path: path@,
                detail: detail@,
            },
            Fatal::NoCases { suite, manifest } => FatalModel::NoCases {
                suite: *suite,
                manifest: manifest@,
            },
            Fatal::MissingScript { case, script } => FatalModel::MissingScript {
                case: case@,
                script: script@,
            },
            Fatal::BuildNotStarted { script, detail } => FatalModel::BuildNotStarted {
                script: script@,
                detail: detail@,
            },
            Fatal::CaseNotStarted { case, detail } => FatalModel::CaseNotStarted {
                case: case@,
                detail: detail@,
            },
            Fatal::Io { detail } => FatalModel::Io { detail: detail@ },
            Fatal::ClockOutOfRange => FatalModel::ClockOutOfRange,
            Fatal::UnexpectedEvent => FatalModel::UnexpectedEvent,
        }
    }
}

impl FatalModel {
    /// The message of the error.
    pub open spec fn message(self) -> Seq<char> {
        match self {
            FatalModel::ManifestUnreadable { path, detail } => "failed to read manifest "@ + path,
            FatalModel::ManifestMalformed { path, detail } => "failed to parse manifest "@ + path,
            FatalModel::NoCases { suite, manifest } => "suite "@ + suite.display_name_text()
                + " has no cases defined - add entries to "@ + manifest,
            FatalModel::MissingScript { case, script } => "test case "@ + case
                + " missing script "@ + script,
            FatalModel::BuildNotStarted { script, detail } => "failed to run build script "@
                + script,
            FatalModel::CaseNotStarted { case, detail } => "failed to run "@ + case,
            FatalModel::Io { detail } => detail,
            FatalModel::ClockOutOfRange => "the clock reading has no run identifier"@,
            FatalModel::UnexpectedEvent => "the event does not answer the pending request"@,
        }
    }

    /// The underlying reason, where the error wraps one.
    pub open spec fn cause(self) -> Option<Seq<char>> {
        match self {
            FatalModel::ManifestUnreadable { path, detail } => Some(detail),
            FatalModel::ManifestMalformed { path, detail } => Some(detail),
            FatalModel::BuildNotStarted { script, detail } => Some(detail),
            FatalModel::CaseNotStarted { case, detail } => Some(detail),
            _ => None,
        }
    }
}

impl Fatal {
    /// The message of the error.
    pub fn message(&self) -> (text: String)
        ensures
            text@ == self@.message(),
    {
        match self {
            Fatal::ManifestUnreadable { path, detail } => {
                let mut text = String::from_str("failed to read manifest ");
                text.append(path.as_str());
                text
            },
            Fatal::ManifestMalformed { path, detail } => {
                let mut text = String::from_str("failed to parse manifest ");
                text.append(path.as_str());
                text
            },
            Fatal::NoCases { suite, manifest } => {
                let mut text = String::from_str("suite ");
                text.append(suite.display_name());
                text.append(" has no cases defined - add entries to ");
                text.append(manifest.as_str());
                text
            },
            Fatal::MissingScript { case, script } => {
                let mut text = String::from_str("test case ");
                text.append(case.as_str());
                text.append(" missing script ");
                text.append(script.as_str());
                text
            },
            Fatal::BuildNotStarted { script, detail } => {
                let mut text = String::from_str("failed to run build script ");
                text.append(script.as_str());
                text
            },
            Fatal::CaseNotStarted { case, detail } => {
                let mut text = String::from_str("failed to run ");
                text.append(case.as_str());
                text
            },
            Fatal::Io { detail } => detail.clone(),
            Fatal::ClockOutOfRange => String::from_str("the clock reading has no run identifier"),
            Fatal::UnexpectedEvent => String::from_str(
                "the event does not answer the pending request",
            ),
        }
    }

    /// The underlying reason, where the error wraps one.
    pub fn cause(&self) -> (text: Option<String>)
        ensures
            text.deep_view() == self@.cause(),
    {
        match self {
            Fatal::ManifestUnreadable { path, detail } => Some(detail.clone()),
            Fatal::ManifestMalformed { path, detail } => Some(detail.clone()),
            Fatal::BuildNotStarted { script, detail } => Some(detail.clone()),
            Fatal::CaseNotStarted { case, detail } => Some(detail.clone()),
            _ => None,
        }
    }
}

} // verus!
