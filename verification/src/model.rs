//! The data of a scan: what a benchmark document holds once loaded,
//! what running one command yields, and what one line of the report says.

use vstd::prelude::*;

verus! {

/// How the successes of a benchmark's audit steps combine.
#[derive(Clone, Copy, Debug, PartialEq, Eq, Structural)]
pub enum Mode {
    /// Every step must succeed.
    All,
    /// One succeeding step is enough.
    Any,
}

/// One command to execute, with the pattern its standard output must match.
#[derive(Clone, Debug, PartialEq, Eq)]
pub struct AuditStep {
    pub run: String,
    pub expect: Option<String>,
}

/// One compliance control: audit steps that share a policy and a verdict.
#[derive(Clone, Debug, PartialEq, Eq)]
pub struct Benchmark {
    pub section: String,
    pub description: String,
    pub audit: Vec<AuditStep>,
    pub mode: Option<Mode>,
    pub skip: Option<String>,
}

/// What executing one command produced.
#[derive(Clone, Debug, PartialEq, Eq)]
pub struct ExecutionOutcome {
    pub exit_success: bool,
    pub stdout: Vec<u8>,
    pub stderr: Vec<u8>,
}

/// One line of the report, for one audit step. `passed` is the verdict of
/// the whole benchmark the step belongs to.
#[derive(Clone, Debug, PartialEq, Eq)]
pub struct BenchmarkResult {
    pub section: String,
    pub description: String,
    pub run: String,
    pub passed: bool,
    pub output: Option<String>,
    pub error: Option<String>,
    pub skip: Option<String>,
}

/// An [`AuditStep`] as a mathematical value.
pub ghost struct AuditStepView {
    pub run: Seq<char>,
    pub expect: Option<Seq<char>>,
}

/// A [`Benchmark`] as a mathematical value.
pub ghost struct BenchmarkView {
    pub section: Seq<char>,
    pub description: Seq<char>,
    pub audit: Seq<AuditStepView>,
    pub mode: Option<Mode>,
    pub skip: Option<Seq<char>>,
}

/// An [`ExecutionOutcome`] as a mathematical value.
pub ghost struct ExecutionOutcomeView {
    pub exit_success: bool,
    pub stdout: Seq<u8>,
    pub stderr: Seq<u8>,
}

/// A [`BenchmarkResult`] as a mathematical value.
pub ghost struct BenchmarkResultView {
    pub section: Seq<char>,
    pub description: Seq<char>,
    pub run: Seq<char>,
    pub passed: bool,
    pub output: Option<Seq<char>>,
    pub error: Option<Seq<char>>,
    pub skip: Option<Seq<char>>,
}

impl BenchmarkView {
    /// The policy in force: `All` unless the document names one.
    pub open spec fn policy(self) -> Mode {
        match self.mode {
            Some(mode) => mode,
            None => Mode::All,
        }
    }

    /// A benchmark with a skip reason is waived.
    pub open spec fn waived(self) -> bool {
        self.skip is Some
    }
}

impl View for AuditStep {
    type V = AuditStepView;

    open spec fn view(&self) -> AuditStepView {
        AuditStepView { run: self.run@, expect: self.expect.deep_view() }
    }
}

impl DeepView for AuditStep {
    type V = AuditStepView;

    open spec fn deep_view(&self) -> AuditStepView {
        self@
    }
}

impl View for Benchmark {
    type V = BenchmarkView;

    open spec fn view(&self) -> BenchmarkView {
        BenchmarkView {
            section: self.section@,
            description: self.description@,
            audit: self.audit.deep_view(),
            mode: self.mode,
            skip: self.skip.deep_view(),
        }
    }
}

impl DeepView for Benchmark {
    type V = BenchmarkView;

    open spec fn deep_view(&self) -> BenchmarkView {
        self@
    }
}

impl View for ExecutionOutcome {
    type V = ExecutionOutcomeView;

    open spec fn view(&self) -> ExecutionOutcomeView {
        ExecutionOutcomeView {
            exit_success: self.exit_success,
            stdout: self.stdout@,
            stderr: self.stderr@,
        }
    }
}

impl DeepView for ExecutionOutcome {
    type V = ExecutionOutcomeView;

    open spec fn deep_view(&self) -> ExecutionOutcomeView {
        self@
    }
}

impl View for BenchmarkResult {
    type V = BenchmarkResultView;

    open spec fn view(&self) -> BenchmarkResultView {
        BenchmarkResultView {
            section: self.section@,
            description: self.description@,
            run: self.run@,
            passed: self.passed,
            output: self.output.deep_view(),
            error: self.error.deep_view(),
            skip: self.skip.deep_view(),
        }
    }
}

impl DeepView for BenchmarkResult {
    type V = BenchmarkResultView;

    open spec fn deep_view(&self) -> BenchmarkResultView {
        self@
    }
}

} // verus!
