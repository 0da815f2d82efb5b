//! The scan as a mathematical state machine: its states, the action each
//! state waits for, and the state that follows each event.

use vstd::prelude::*;

use crate::benchmark::{benchmark_rows, StepRunView};
use crate::error::ErrorKind;
use crate::model::{AuditStepView, BenchmarkResultView, BenchmarkView, ExecutionOutcomeView};
use crate::report::compliant;
use crate::success::judgement;

verus! {

/// An event, as the machine sees it: failures by their kind alone.
pub ghost enum EventView {
    Loaded(Seq<BenchmarkView>),
    Ran(ExecutionOutcomeView),
    Written,
    Failed(ErrorKind),
}

/// An action, as the machine states it.
pub ghost enum ActionView {
    Load,
    Run(Seq<char>),
    Report(Seq<BenchmarkResultView>),
    /// Nothing is left to do: the scan is over.
    Stop,
}

/// The state of a scan. `done` holds the runs of the benchmarks that are
/// complete, one sequence per benchmark; `outputs` holds the runs of the
/// benchmark under way.
pub ghost enum ScanView {
    Loading,
    Executing {
        benchmarks: Seq<BenchmarkView>,
        done: Seq<Seq<StepRunView>>,
        outputs: Seq<StepRunView>,
    },
    Reporting { benchmarks: Seq<BenchmarkView>, done: Seq<Seq<StepRunView>> },
    Finished { verdict: Result<(), ErrorKind> },
}

/// The run is one of the step: it ran the step's command, and its success
/// is the judgement on its outcome.
pub open spec fn run_of(step: AuditStepView, run: StepRunView) -> bool {
    &&& run.run == step.run
    &&& judgement(run.output, step.expect) == Ok::<bool, ErrorKind>(run.success)
}

/// The runs are those of the benchmark's first steps, in order.
pub open spec fn follows(def: BenchmarkView, runs: Seq<StepRunView>) -> bool {
    &&& runs.len() <= def.audit.len()
    &&& forall|i: int| 0 <= i < runs.len() ==> run_of(#[trigger] def.audit[i], runs[i])
}

/// The runs are those of all of the benchmark's steps, in order.
pub open spec fn completes(def: BenchmarkView, runs: Seq<StepRunView>) -> bool {
    follows(def, runs) && runs.len() == def.audit.len()
}

/// The lines of the report once the first `done.len()` benchmarks are
/// complete: those of each benchmark, in document order.
pub open spec fn report_rows(benchmarks: Seq<BenchmarkView>, done: Seq<Seq<StepRunView>>) -> Seq<
    BenchmarkResultView,
>
    decreases done.len(),
{
    if done.len() == 0 {
        Seq::empty()
    } else {
        report_rows(benchmarks, done.drop_last()) + benchmark_rows(
            benchmarks[done.len() - 1],
            done.last(),
        )
    }
}

/// The number of audit steps in the first `count` benchmarks.
pub open spec fn steps_before(benchmarks: Seq<BenchmarkView>, count: int) -> int
    decreases count,
{
    if count <= 0 {
        0
    } else {
        steps_before(benchmarks, count - 1) + benchmarks[count - 1].audit.len()
    }
}

/// Where a scan stands once the benchmarks in `done` are complete: at the
/// first step of the next benchmark that has one, or at the report.
pub open spec fn resume(benchmarks: Seq<BenchmarkView>, done: Seq<Seq<StepRunView>>) -> ScanView
    decreases benchmarks.len() - done.len(),
{
    if done.len() >= benchmarks.len() {
        ScanView::Reporting { benchmarks, done }
    } else if benchmarks[done.len() as int].audit.len() == 0 {
        resume(benchmarks, done.push(Seq::empty()))
    } else {
        ScanView::Executing { benchmarks, done, outputs: Seq::empty() }
    }
}

impl ScanView {
    /// What holds of every state a scan can be in: the runs on record are
    /// those of the benchmarks' steps, in order, and while executing a step
    /// is pending.
    pub open spec fn inv(self) -> bool {
        match self {
            ScanView::Loading => true,
            ScanView::Executing { benchmarks, done, outputs } => {
                &&& done.len() < benchmarks.len()
                &&& forall|d: int|
                    0 <= d < done.len() ==> completes(benchmarks[d], #[trigger] done[d])
                &&& follows(benchmarks[done.len() as int], outputs)
                &&& outputs.len() < benchmarks[done.len() as int].audit.len()
            },
            ScanView::Reporting { benchmarks, done } => {
                &&& done.len() == benchmarks.len()
                &&& forall|d: int|
                    0 <= d < done.len() ==> completes(benchmarks[d], #[trigger] done[d])
            },
            ScanView::Finished { verdict } => true,
        }
    }

    /// The action the scan waits for.
    pub open spec fn pending(self) -> ActionView {
        match self {
            ScanView::Loading => ActionView::Load,
            ScanView::Executing { benchmarks, done, outputs } => ActionView::Run(
                benchmarks[done.len() as int].audit[outputs.len() as int].run,
            ),
            ScanView::Reporting { benchmarks, done } => ActionView::Report(
                report_rows(benchmarks, done),
            ),
            ScanView::Finished { verdict } => ActionView::Stop,
        }
    }

    /// The state after an event. An event that does not answer the pending
    /// action leaves the state as it is; a failure ends the scan with that
    /// failure, unless it is over already.
    pub open spec fn advance(self, event: EventView) -> ScanView {
        match self {
            ScanView::Loading => match event {
                EventView::Loaded(benchmarks) => resume(benchmarks, Seq::empty()),
                EventView::Failed(kind) => ScanView::Finished { verdict: Err(kind) },
                _ => self,
            },
            ScanView::Executing { benchmarks, done, outputs } => match event {
                EventView::Ran(output) => {
                    let def = benchmarks[done.len() as int];
                    let step = def.audit[outputs.len() as int];
                    match judgement(output, step.expect) {
                        Err(kind) => ScanView::Finished { verdict: Err(kind) },
                        Ok(success) => {
                            let run = StepRunView { run: step.run, output, success };
                            if outputs.len() + 1 < def.audit.len() {
                                ScanView::Executing { benchmarks, done, outputs: outputs.push(run) }
                            } else {
                                resume(benchmarks, done.push(outputs.push(run)))
                            }
                        },
                    }
                },
                EventView::Failed(kind) => ScanView::Finished { verdict: Err(kind) },
                _ => self,
            },
            ScanView::Reporting { benchmarks, done } => match event {
                EventView::Written => ScanView::Finished {
                    verdict: if compliant(report_rows(benchmarks, done)) {
                        Ok(())
                    } else {
                        Err(ErrorKind::NonCompliant)
                    },
                },
                EventView::Failed(kind) => ScanView::Finished { verdict: Err(kind) },
                _ => self,
            },
            ScanView::Finished { verdict } => self,
        }
    }
}

} // verus!
