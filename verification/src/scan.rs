//! The scan orchestrator, as a state machine.
//!
//! A scan loads the benchmarks, executes their audit steps in document
//! order, reports, and ends with a verdict. The machine decides; it performs
//! nothing. Whoever drives it asks a [`Scan`] for its pending [`Action`],
//! performs it, and hands the resulting [`Event`] to [`run_scan`]. Every stage
//! ends the scan on its first failure.

use vstd::prelude::*;

pub use crate::error::AuditError;
use crate::benchmark::{benchmark_results, StepRun, StepRunView};
use crate::error::ErrorKind;
use crate::model::{Benchmark, BenchmarkResult, BenchmarkView, ExecutionOutcome};
use crate::report::is_compliant;
use crate::scan::laws::lemma_advance_keeps_inv;
use crate::scan::machine::{completes, report_rows, resume, ActionView, EventView, ScanView};
use crate::success::is_success;

pub mod laws;
pub mod machine;

verus! {

/// What the machine is told once the pending action has been performed.
pub enum Event {
    /// The benchmark document was read: its benchmarks, in document order.
    Loaded(Vec<Benchmark>),
    /// The command ran to its end.
    Ran(ExecutionOutcome),
    /// The report was written.
    Written,
    /// The action could not be performed.
    Failed(AuditError),
}

/// What the machine waits for.
pub enum Action<'a> {
    /// Read the benchmark document.
    Load,
    /// Execute this command line and capture what it prints.
    Run(&'a str),
    /// Write these lines as the report.
    Report(&'a Vec<BenchmarkResult>),
}

impl View for Event {
    type V = EventView;

    open spec fn view(&self) -> EventView {
        match self {
            Event::Loaded(benchmarks) => EventView::Loaded(benchmarks.deep_view()),
            Event::Ran(output) => EventView::Ran(output@),
            Event::Written => EventView::Written,
            Event::Failed(error) => EventView::Failed(error@),
        }
    }
}

impl<'a> View for Action<'a> {
    type V = ActionView;

    open spec fn view(&self) -> ActionView {
        match self {
            Action::Load => ActionView::Load,
            Action::Run(command) => ActionView::Run(command@),
            Action::Report(results) => ActionView::Report(results.deep_view()),
        }
    }
}

/// A verdict once the error it carries is forgotten.
pub open spec fn verdict_view(verdict: Result<(), AuditError>) -> Result<(), ErrorKind> {
    match verdict {
        Ok(()) => Ok(()),
        Err(error) => Err(error@),
    }
}

enum Stage {
    Loading,
    Executing {
        benchmarks: Vec<Benchmark>,
        index: usize,
        outputs: Vec<StepRun>,
        results: Vec<BenchmarkResult>,
        done: Ghost<Seq<Seq<StepRunView>>>,
    },
    Reporting {
        results: Vec<BenchmarkResult>,
        benchmarks: Ghost<Seq<BenchmarkView>>,
        done: Ghost<Seq<Seq<StepRunView>>>,
    },
}

/// A scan under way: one that waits for an action to be performed.
pub struct Scan {
    stage: Stage,
}

/// Where a scan stands after an event.
pub enum Progress {
    /// The scan goes on, and waits for its next action.
    Pending(Scan),
    /// The scan is over: `Ok` when the report was written and every line of
    /// it passed, `NonCompliant` when it was written and one did not, and
    /// else the failure that ended the scan.
    Finished(Result<(), AuditError>),
}

impl View for Scan {
    type V = ScanView;

    closed spec fn view(&self) -> ScanView {
        match self.stage {
            Stage::Loading => ScanView::Loading,
            Stage::Executing { benchmarks, index, outputs, results, done } => ScanView::Executing {
                benchmarks: benchmarks.deep_view(),
                done: done@,
                outputs: outputs.deep_view(),
            },
            Stage::Reporting { results, benchmarks, done } => ScanView::Reporting {
                benchmarks: benchmarks@,
                done: done@,
            },
        }
    }
}

impl View for Progress {
    type V = ScanView;

    open spec fn view(&self) -> ScanView {
        match self {
            Progress::Pending(scan) => scan@,
            Progress::Finished(verdict) => ScanView::Finished { verdict: verdict_view(*verdict) },
        }
    }
}

impl Scan {
    #[verifier::type_invariant]
    spec fn well_formed(&self) -> bool {
        &&& self@.inv()
        &&& match self.stage {
            Stage::Executing { benchmarks, index, outputs, results, done } => {
                &&& index == done@.len()
                &&& results.deep_view() == report_rows(benchmarks.deep_view(), done@)
            },
            Stage::Reporting { results, benchmarks, done } => {
                results.deep_view() == report_rows(benchmarks@, done@)
            },
            Stage::Loading => true,
        }
    }

    /// A scan at its start: it waits for the benchmark document.
    pub fn new() -> (scan: Scan)
        ensures
            scan@ == ScanView::Loading,
    {
        Scan { stage: Stage::Loading }
    }

    /// The action this scan waits for.
    pub fn pending(&self) -> (action: Action<'_>)
        ensures
            action@ == self@.pending(),
            self@.inv(),
            !(self@ is Finished),
    {
        proof {
            use_type_invariant(self);
        }
        match &self.stage {
            Stage::Loading => Action::Load,
            Stage::Executing { benchmarks, index, outputs, .. } => {
                assert(benchmarks[*index as int]@.audit[outputs.len() as int]
                    == benchmarks[*index as int].audit[outputs.len() as int]@);
                Action::Run(benchmarks[*index].audit[outputs.len()].run.as_str())
            },
            Stage::Reporting { results, .. } => Action::Report(results),
        }
    }
}

/// Passing over a benchmark without steps leaves the report as it is.
proof fn lemma_rows_of_empty_benchmark(benchmarks: Seq<BenchmarkView>, done: Seq<Seq<StepRunView>>)
    ensures
        report_rows(benchmarks, done.push(Seq::empty())) == report_rows(benchmarks, done),
{
    assert(done.push(Seq::empty()).drop_last() == done);
}

/// Takes the scan up after the benchmarks before `index`: at the next
/// benchmark that has a step, or at the report.
fn resume_at(
    benchmarks: Vec<Benchmark>,
    index: usize,
    results: Vec<BenchmarkResult>,
    done: Ghost<Seq<Seq<StepRunView>>>,
) -> (scan: Scan)
    requires
        index == done@.len(),
        index <= benchmarks.len(),
        forall|d: int|
            0 <= d < done@.len() ==> completes(benchmarks.deep_view()[d], #[trigger] done@[d]),
        results.deep_view() == report_rows(benchmarks.deep_view(), done@),
    ensures
        scan@ == resume(benchmarks.deep_view(), done@),
{
    let ghost defs = benchmarks.deep_view();
    let ghost start = done@;
    let mut index = index;
    let mut done = done;
    while index < benchmarks.len() && benchmarks[index].audit.len() == 0
        invariant
            index == done@.len(),
            index <= benchmarks.len(),
            defs == benchmarks.deep_view(),
            forall|d: int| 0 <= d < done@.len() ==> completes(defs[d], #[trigger] done@[d]),
            results.deep_view() == report_rows(defs, done@),
            resume(defs, done@) == resume(defs, start),
        decreases benchmarks.len() - index,
    {
        proof {
            lemma_rows_of_empty_benchmark(defs, done@);
            done@ = done@.push(Seq::empty());
        }
        index += 1;
    }
    if index < benchmarks.len() {
        let outputs: Vec<StepRun> = Vec::new();
        assert(outputs.deep_view() =~= Seq::empty());
        Scan { stage: Stage::Executing { benchmarks, index, outputs, results, done } }
    } else {
        Scan { stage: Stage::Reporting { results, benchmarks: Ghost(defs), done } }
    }
}

/// Advances a scan by one event.
///
/// While loading, `Loaded` starts the execution at the first audit step of
/// the first benchmark that has one. While executing, `Ran` is judged against
/// the pending step: a step that cannot be judged ends the scan with that
/// failure; otherwise the run goes on record, and when it was the last of
/// its benchmark, the benchmark's lines join the report and the scan moves
/// to the next benchmark, or to the report after the last one. While
/// reporting, `Written` ends the scan: with success when every line passed,
/// with `NonCompliant` otherwise. `Failed` ends the scan at any stage with
/// the failure it carries. Any other event changes nothing.
pub fn run_scan(scan: Scan, event: Event) -> (progress: Progress)
    ensures
        progress@ == scan@.advance(event@),
        progress@.inv(),
        event matches Event::Failed(error) ==> progress == Progress::Finished(Err(error)),
{
    proof {
        use_type_invariant(&scan);
        lemma_advance_keeps_inv(scan@, event@);
    }
    match scan.stage {
        Stage::Loading => match event {
            Event::Loaded(benchmarks) => {
                let results: Vec<BenchmarkResult> = Vec::new();
                assert(results.deep_view() =~= Seq::empty());
                Progress::Pending(resume_at(benchmarks, 0, results, Ghost(Seq::empty())))
            },
            Event::Failed(error) => Progress::Finished(Err(error)),
            _ => Progress::Pending(Scan { stage: Stage::Loading }),
        },
        Stage::Executing { benchmarks, index, mut outputs, mut results, done } => match event {
            Event::Ran(output) => {
                let ghost before = outputs.deep_view();
                assert(benchmarks[index as int]@.audit[outputs.len() as int]
                    == benchmarks[index as int].audit[outputs.len() as int]@);
                let step = &benchmarks[index].audit[outputs.len()];
                match is_success(&output, &step.expect) {
                    Err(error) => Progress::Finished(Err(error)),
                    Ok(success) => {
                        let run = StepRun { run: step.run.clone(), output, success };
                        let ghost recorded = run@;
                        outputs.push(run);
                        assert(outputs.deep_view() =~= before.push(recorded));
                        if outputs.len() < benchmarks[index].audit.len() {
                            Progress::Pending(
                                Scan {
                                    stage: Stage::Executing {
                                        benchmarks,
                                        index,
                                        outputs,
                                        results,
                                        done,
                                    },
                                },
                            )
                        } else {
                            let ghost rows = results.deep_view();
                            let mut lines = benchmark_results(&benchmarks[index], &outputs);
                            let ghost added = lines.deep_view();
                            results.append(&mut lines);
                            let ghost complete = done@.push(outputs.deep_view());
                            proof {
                                assert(results.deep_view() =~= rows + added);
                                assert(complete.drop_last() =~= done@);
                                assert(index < benchmarks.len());
                            }
                            Progress::Pending(
                                resume_at(benchmarks, index + 1, results, Ghost(complete)),
                            )
                        }
                    },
                }
            },
            Event::Failed(error) => Progress::Finished(Err(error)),
            _ => Progress::Pending(
                Scan { stage: Stage::Executing { benchmarks, index, outputs, results, done } },
            ),
        },
        Stage::Reporting { results, benchmarks, done } => match event {
            Event::Written => {
                if is_compliant(&results) {
                    Progress::Finished(Ok(()))
                } else {
                    Progress::Finished(Err(AuditError::NonCompliant))
                }
            },
            Event::Failed(error) => Progress::Finished(Err(error)),
            _ => Progress::Pending(Scan { stage: Stage::Reporting { results, benchmarks, done } }),
        },
    }
}

} // verus!
