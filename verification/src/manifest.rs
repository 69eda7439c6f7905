//! The declarative description of a suite: its cases and their defaults.

use crate::suite::Suite;
use vstd::prelude::*;

verus! {

/// One executable test program with its arguments, timeout and tolerance.
#[derive(Clone, Debug, PartialEq, Eq)]
pub struct TestCase {
    pub name: String,
    pub description: Option<String>,
    pub path: String,
    pub args: Vec<String>,
    pub timeout_secs: Option<u64>,
    pub allow_failure: bool,
}

/// The mathematical content of a [`TestCase`].
pub struct CaseModel {
    pub name: Seq<char>,
    pub description: Option<Seq<char>>,
    pub path: Seq<char>,
    pub args: Seq<Seq<char>>,
    pub timeout_secs: Option<u64>,
    pub allow_failure: bool,
}

impl View for TestCase {
    type V = CaseModel;

    open spec fn view(&self) -> CaseModel {
        CaseModel {
            name: self.name@,
            description: self.description.deep_view(),
            path: self.path@,
            args: self.args.deep_view(),
            timeout_secs: self.timeout_secs,
            allow_failure: self.allow_failure,
        }
    }
}

impl DeepView for TestCase {
    type V = CaseModel;

    open spec fn deep_view(&self) -> CaseModel {
        self@
    }
}

impl CaseModel {
    /// The timeout handed to the case: its own where it names one, else the
    /// manifest's default.
    pub open spec fn timeout_budget(self, default_secs: u64) -> u64 {
        match self.timeout_secs {
            Some(secs) => secs,
            None => default_secs,
        }
    }
}

/// A suite's manifest: optional labels, the build hook and the ordered cases.
#[derive(Clone, Debug, PartialEq, Eq)]
pub struct Manifest {
    pub name: Option<String>,
    pub description: Option<String>,
    pub build_script: Option<String>,
    pub arch: Option<String>,
    pub default_timeout_secs: u64,
    pub cases: Vec<TestCase>,
}

/// The mathematical content of a [`Manifest`].
pub struct ManifestModel {
    pub name: Option<Seq<char>>,
    pub description: Option<Seq<char>>,
    pub build_script: Option<Seq<char>>,
    pub arch: Option<Seq<char>>,
    pub default_timeout_secs: u64,
    pub cases: Seq<CaseModel>,
}

impl View for Manifest {
    type V = ManifestModel;

    open spec fn view(&self) -> ManifestModel {
        ManifestModel {
            name: self.name.deep_view(),
            description: self.description.deep_view(),
            build_script: self.build_script.deep_view(),
            arch: self.arch.deep_view(),
            default_timeout_secs: self.default_timeout_secs,
            cases: self.cases.deep_view(),
        }
    }
}

impl DeepView for Manifest {
    type V = ManifestModel;

    open spec fn deep_view(&self) -> ManifestModel {
        self@
    }
}

impl ManifestModel {
    /// A manifest with no labels, no cases and the default timeout.
    pub open spec fn blank() -> ManifestModel {
        ManifestModel {
            name: None,
            description: None,
            build_script: None,
            arch: None,
            default_timeout_secs: 600,
            cases: Seq::empty(),
        }
    }

    /// A suite can run only if it has at least one case.
    pub open spec fn runnable(self) -> bool {
        self.cases.len() > 0
    }

    /// The label of the suite: the manifest's name, else the suite's own.
    pub open spec fn label(self, suite: Suite) -> Seq<char> {
        match self.name {
            Some(name) => name,
            None => suite.display_name_text(),
        }
    }

    /// The line that opens the run log: label, architecture and description.
    pub open spec fn header(self, suite: Suite) -> Seq<char> {
        "[suite] "@ + self.label(suite) + " ("@ + match self.arch {
            Some(arch) => arch,
            None => "unknown arch"@,
        } + ") - "@ + match self.description {
            Some(description) => description,
            None => "no description provided"@,
        }
    }
}

/// The timeout, in seconds, of a manifest that names none.
pub fn default_timeout() -> (secs: u64)
    ensures
        secs == 600,
{
    600
}

/// A copy of an optional text.
pub(crate) fn clone_text(text: &Option<String>) -> (copy: Option<String>)
    ensures
        copy.deep_view() == text.deep_view(),
{
    match text {
        Some(t) => Some(t.clone()),
        None => None,
    }
}

impl TestCase {
    /// The timeout handed to the case: its own where it names one, else
    /// `default_secs`.
    pub fn timeout_budget(&self, default_secs: u64) -> (secs: u64)
        ensures
            secs == self@.timeout_budget(default_secs),
    {
        match self.timeout_secs {
            Some(secs) => secs,
            None => default_secs,
        }
    }
}

impl Manifest {
    /// A manifest with no labels, no cases and the default timeout.
    pub fn blank() -> (m: Manifest)
        ensures
            m@ == ManifestModel::blank(),
    {
        let m = Manifest {
            name: None,
            description: None,
            build_script: None,
            arch: None,
            default_timeout_secs: default_timeout(),
            cases: Vec::new(),
        };
        assert(m.cases.deep_view() =~= Seq::<CaseModel>::empty());
        m
    }

    /// Whether the manifest lists at least one case.
    pub fn runnable(&self) -> (yes: bool)
        ensures
            yes == self@.runnable(),
    {
        self.cases.len() > 0
    }

    /// The label of the suite: the manifest's name, else the suite's own.
    pub fn label(&self, suite: Suite) -> (text: String)
        ensures
            text@ == self@.label(suite),
    {
        match &self.name {
            Some(name) => name.clone(),
            None => String::from_str(suite.display_name()),
        }
    }

    /// The line that opens the run log: label, architecture and description.
    pub fn header(&self, suite: Suite) -> (line: String)
        ensures
            line@ == self@.header(suite),
    {
        let mut line = String::from_str("[suite] ");
        let label = self.label(suite);
        line.append(label.as_str());
        line.append(" (");
        match &self.arch {
            Some(arch) => line.append(arch.as_str()),
            None => line.append("unknown arch"),
        }
        line.append(") - ");
        match &self.description {
            Some(description) => line.append(description.as_str()),
            None => line.append("no description provided"),
        }
        line
    }
}

} // verus!
