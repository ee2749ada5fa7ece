//! The failures of a test run, layer by layer, each carrying its cause.
use vstd::prelude::*;

verus! {

/// A failed read or write of the host, described by the operating system.
#[derive(Debug, Clone)]
pub struct IoFailure {
    pub description: String,
}

/// One of the two output streams of the container.
#[derive(Debug, Clone, Copy, PartialEq, Eq, Structural)]
pub enum OutputStream {
    Stdout,
    Stderr,
}

/// The captured output of the container could not be read.
#[derive(Debug, Clone, Copy, PartialEq, Eq, Structural)]
pub enum OutputExtractionError {
    /// The stream is not valid UTF-8.
    InvalidText(OutputStream),
    /// The exit status does not fit in `0..=255`.
    ExitCodeOutOfRange(i32),
    /// The container ended without an exit status (it was stopped by a signal).
    ExitCodeUnavailable,
}

/// The test script could not be written.
#[derive(Debug, Clone)]
pub enum TestScriptPreparationError {
    Io(IoFailure),
}

/// The container invocation could not be prepared.
#[derive(Debug, Clone)]
pub enum TestContainerPreparationError {
    ScriptPreparation(TestScriptPreparationError),
}

/// The test could not be executed.
#[derive(Debug, Clone)]
pub enum TestExecutionError {
    ContainerPreparation(TestContainerPreparationError),
    OutputExtraction(OutputExtractionError),
    Io(IoFailure),
}

impl OutputExtractionError {
    /// The description of the failure.
    pub open spec fn description(self) -> Seq<char> {
        "failed to extract output: "@ + match self {
            OutputExtractionError::InvalidText(OutputStream::Stdout) => "stdout is not valid UTF-8"@,
            OutputExtractionError::InvalidText(OutputStream::Stderr) => "stderr is not valid UTF-8"@,
            OutputExtractionError::ExitCodeOutOfRange(_) => "the exit status is not in 0..=255"@,
            OutputExtractionError::ExitCodeUnavailable => "the container returned no exit status"@,
        }
    }

    /// The description of the failure.
    pub fn describe(&self) -> (r: String)
        ensures
            r@ == self.description(),
    {
        let cause = match self {
            OutputExtractionError::InvalidText(OutputStream::Stdout) => "stdout is not valid UTF-8",
            OutputExtractionError::InvalidText(OutputStream::Stderr) => "stderr is not valid UTF-8",
            OutputExtractionError::ExitCodeOutOfRange(_) => "the exit status is not in 0..=255",
            OutputExtractionError::ExitCodeUnavailable => "the container returned no exit status",
        };
        let mut r = "failed to extract output: ".to_owned();
        r.append(cause);
        r
    }
}

impl TestScriptPreparationError {
    /// The description of the failure and of its cause.
    pub open spec fn description(self) -> Seq<char> {
        match self {
            TestScriptPreparationError::Io(f) => "failed to prepare test script: "@ + f.description@,
        }
    }

    /// The description of the failure and of its cause.
    pub fn describe(&self) -> (r: String)
        ensures
            r@ == self.description(),
    {
        match self {
            TestScriptPreparationError::Io(f) => {
                let mut r = "failed to prepare test script: ".to_owned();
                r.append(f.description.as_str());
                r
            },
        }
    }
}

impl TestContainerPreparationError {
    /// The description of the failure and of its causes.
    pub open spec fn description(self) -> Seq<char> {
        match self {
            TestContainerPreparationError::ScriptPreparation(e) => "failed to prepare test container: "@
                + e.description(),
        }
    }

    /// The description of the failure and of its causes.
    pub fn describe(&self) -> (r: String)
        ensures
            r@ == self.description(),
    {
        match self {
            TestContainerPreparationError::ScriptPreparation(e) => {
                let mut r = "failed to prepare test container: ".to_owned();
                let cause = e.describe();
                r.append(cause.as_str());
                r
            },
        }
    }
}

impl TestExecutionError {
    /// The description of the failure and of its causes.
    pub open spec fn description(self) -> Seq<char> {
        "failed to execute test: "@ + match self {
            TestExecutionError::ContainerPreparation(e) => e.description(),
            TestExecutionError::OutputExtraction(e) => e.description(),
            TestExecutionError::Io(f) => f.description@,
        }
    }

    /// The description of the failure and of its causes.
    pub fn describe(&self) -> (r: String)
        ensures
            r@ == self.description(),
    {
        let cause = match self {
            TestExecutionError::ContainerPreparation(e) => e.describe(),
            TestExecutionError::OutputExtraction(e) => e.describe(),
            TestExecutionError::Io(f) => f.description.clone(),
        };
        let mut r = "failed to execute test: ".to_owned();
        r.append(cause.as_str());
        r
    }
}

} // verus!
