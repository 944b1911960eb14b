//! What an invocation has to tell the user.
//!
//! The library logs nothing itself. It hands out diagnostics, each with its
//! severity and its wording, in the order in which they are to appear.

use crate::paths::{display_of, path_display};
use crate::views;
use std::path::PathBuf;
use vstd::prelude::*;

verus! {

/// `anyhow::Error`, carried as it is.
#[verifier::external_type_specification]
#[verifier::external_body]
pub struct ExAnyhowError(anyhow::Error);

/// How serious a diagnostic is.
#[derive(Clone, Copy, Debug, PartialEq, Eq, Structural)]
pub enum Severity {
    Error,
    Warn,
    Info,
    Trace,
}

/// One thing to tell the user.
#[derive(Clone, Debug, PartialEq, Eq)]
pub enum Diagnostic {
    /// The build stage begins.
    Building,
    /// The run stage begins.
    Running,
    /// A file to mount is left out: the path has no final component to name
    /// it by.
    MountUnresolved(PathBuf),
    /// A file to mount is left out: its name, held here, is not valid
    /// Unicode.
    MountNameNotText(PathBuf),
    /// The image could not be built; holds the builder's message.
    BuildFailed(String),
    /// One cause of a failed build.
    CausedBy(String),
    /// The emulator could not be started; holds the system's message.
    SpawnFailed(String),
    /// Waiting for the emulator failed; holds the system's message.
    WaitFailed(String),
}

/// A diagnostic with its texts as sequences of characters.
pub ghost enum DiagnosticView {
    Building,
    Running,
    MountUnresolved(PathBuf),
    MountNameNotText(PathBuf),
    BuildFailed(Seq<char>),
    CausedBy(Seq<char>),
    SpawnFailed(Seq<char>),
    WaitFailed(Seq<char>),
}

impl View for Diagnostic {
    type V = DiagnosticView;

    open spec fn view(&self) -> DiagnosticView {
        match *self {
            Diagnostic::Building => DiagnosticView::Building,
            Diagnostic::Running => DiagnosticView::Running,
            Diagnostic::MountUnresolved(path) => DiagnosticView::MountUnresolved(path),
            Diagnostic::MountNameNotText(name) => DiagnosticView::MountNameNotText(name),
            Diagnostic::BuildFailed(text) => DiagnosticView::BuildFailed(text@),
            Diagnostic::CausedBy(text) => DiagnosticView::CausedBy(text@),
            Diagnostic::SpawnFailed(text) => DiagnosticView::SpawnFailed(text@),
            Diagnostic::WaitFailed(text) => DiagnosticView::WaitFailed(text@),
        }
    }
}

impl DiagnosticView {
    /// The severity at which the diagnostic is reported.
    pub open spec fn severity(self) -> Severity {
        match self {
            DiagnosticView::Building => Severity::Trace,
            DiagnosticView::Running => Severity::Trace,
            DiagnosticView::MountUnresolved(_) => Severity::Warn,
            DiagnosticView::MountNameNotText(_) => Severity::Warn,
            DiagnosticView::BuildFailed(_) => Severity::Error,
            DiagnosticView::CausedBy(_) => Severity::Info,
            DiagnosticView::SpawnFailed(_) => Severity::Error,
            DiagnosticView::WaitFailed(_) => Severity::Error,
        }
    }

    /// The wording of the diagnostic.
    pub open spec fn message(self) -> Seq<char> {
        match self {
            DiagnosticView::Building => "Building disk image"@,
            DiagnosticView::Running => "Running disk image"@,
            DiagnosticView::MountUnresolved(path) => "File "@ + path_display(path)
                + " could not be resolved."@,
            DiagnosticView::MountNameNotText(name) => "File name "@ + path_display(name)
                + " not valid utf-8"@,
            DiagnosticView::BuildFailed(text) =>
                "Fatal error encountered while building disk image: "@ + text,
            DiagnosticView::CausedBy(text) => "Caused by: "@ + text,
            DiagnosticView::SpawnFailed(text) => "Fatal error spawning child process: "@ + text,
            DiagnosticView::WaitFailed(text) =>
                "Fatal error encountered while awaiting child process: "@ + text,
        }
    }
}

impl Diagnostic {
    /// The severity at which the diagnostic is reported.
    pub fn severity(&self) -> (severity: Severity)
        ensures
            severity == self@.severity(),
    {
        match self {
            Diagnostic::Building => Severity::Trace,
            Diagnostic::Running => Severity::Trace,
            Diagnostic::MountUnresolved(_) => Severity::Warn,
            Diagnostic::MountNameNotText(_) => Severity::Warn,
            Diagnostic::BuildFailed(_) => Severity::Error,
            Diagnostic::CausedBy(_) => Severity::Info,
            Diagnostic::SpawnFailed(_) => Severity::Error,
            Diagnostic::WaitFailed(_) => Severity::Error,
        }
    }

    /// The wording of the diagnostic.
    pub fn message(&self) -> (text: String)
        ensures
            text@ == self@.message(),
    {
        match self {
            Diagnostic::Building => String::from_str("Building disk image"),
            Diagnostic::Running => String::from_str("Running disk image"),
            Diagnostic::MountUnresolved(path) => {
                let shown = display_of(path);
                String::from_str("File ").concat(shown.as_str()).concat(" could not be resolved.")
            },
            Diagnostic::MountNameNotText(name) => {
                let shown = display_of(name);
                String::from_str("File name ").concat(shown.as_str()).concat(" not valid utf-8")
            },
            Diagnostic::BuildFailed(text) => String::from_str(
                "Fatal error encountered while building disk image: ",
            ).concat(text.as_str()),
            Diagnostic::CausedBy(text) => String::from_str("Caused by: ").concat(text.as_str()),
            Diagnostic::SpawnFailed(text) => String::from_str(
                "Fatal error spawning child process: ",
            ).concat(text.as_str()),
            Diagnostic::WaitFailed(text) => String::from_str(
                "Fatal error encountered while awaiting child process: ",
            ).concat(text.as_str()),
        }
    }
}

/// Why an image could not be built: the builder's message and, behind it,
/// the causes from the nearest to the root.
#[derive(Clone, Debug, PartialEq, Eq)]
pub struct BuildFailure {
    pub message: String,
    pub causes: Vec<String>,
}

/// `anyhow::Error::chain`: the error and the errors behind it, from the
/// nearest cause to the root, each as the text that it displays. The chain
/// starts with the error itself, so it is never empty.
#[verifier::external_body]
fn error_chain(error: &anyhow::Error) -> (chain: Vec<String>)
    ensures
        chain.len() >= 1,
{
    error.chain().map(|cause| cause.to_string()).collect()
}

impl BuildFailure {
    /// The diagnostics of the failure: first the message, then each cause in
    /// the order of the chain.
    pub open spec fn spec_report(message: Seq<char>, causes: Seq<Seq<char>>) -> Seq<
        DiagnosticView,
    > {
        seq![DiagnosticView::BuildFailed(message)] + causes.map_values(
            |cause: Seq<char>| DiagnosticView::CausedBy(cause),
        )
    }

    /// Reads a failure from the texts of an error chain: the first text is
    /// the message, the others are the causes. An empty chain is no failure.
    pub fn from_chain(chain: Vec<String>) -> (failure: Option<BuildFailure>)
        ensures
            failure is Some <==> chain.len() > 0,
            failure matches Some(f) ==> f.message == chain[0] && f.causes@ == chain@.skip(1),
    {
        let mut rest = chain;
        if rest.len() == 0 {
            None
        } else {
            let message = rest.remove(0);
            Some(BuildFailure { message, causes: rest })
        }
    }

    /// Reads the failure that an error of the image builder reports: the
    /// message is the text of the error itself, the causes are the texts of
    /// the errors behind it. What those texts are is for the error to say.
    pub fn from_error(error: &anyhow::Error) -> (failure: BuildFailure) {
        let chain = error_chain(error);
        let failure = BuildFailure::from_chain(chain);
        failure.unwrap()
    }

    /// The diagnostics of the failure: first the message, then each cause in
    /// the order of the chain.
    pub fn report(&self) -> (lines: Vec<Diagnostic>)
        ensures
            views(lines@) == BuildFailure::spec_report(self.message@, views(self.causes@)),
            lines.len() == self.causes.len() + 1,
    {
        let mut lines: Vec<Diagnostic> = Vec::new();
        lines.push(Diagnostic::BuildFailed(self.message.clone()));
        let mut index: usize = 0;
        while index < self.causes.len()
            invariant
                index <= self.causes.len(),
                lines.len() == index + 1,
                views(lines@) == BuildFailure::spec_report(
                    self.message@,
                    views(self.causes@.take(index as int)),
                ),
            decreases self.causes.len() - index,
        {
            let ghost before = lines@;
            let ghost seen = self.causes@.take(index as int);
            let cause = self.causes[index].clone();
            lines.push(Diagnostic::CausedBy(cause));
            proof {
                let text = self.causes@[index as int]@;
                assert(self.causes@.take(index + 1) =~= seen.push(self.causes@[index as int]));
                assert(views(seen.push(self.causes@[index as int])) =~= views(seen).push(text));
                assert(views(before.push(Diagnostic::CausedBy(cause))) =~= views(before).push(
                    DiagnosticView::CausedBy(text),
                ));
                assert(BuildFailure::spec_report(self.message@, views(seen).push(text))
                    =~= BuildFailure::spec_report(self.message@, views(seen)).push(
                    DiagnosticView::CausedBy(text),
                ));
            }
            index = index + 1;
        }
        assert(self.causes@.take(index as int) =~= self.causes@);
        lines
    }
}

} // verus!
