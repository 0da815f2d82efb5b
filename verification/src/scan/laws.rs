//! What holds of every scan: the invariant of its states, the order and
//! count of the report's lines, and how failures and clean runs end.

use vstd::prelude::*;

use crate::benchmark::{benchmark_passed, result_row, StepRunView};
use crate::error::ErrorKind;
use crate::model::{BenchmarkResultView, BenchmarkView, ExecutionOutcomeView};
use crate::report::compliant;
use crate::scan::machine::{
    completes, report_rows, resume, run_of, steps_before, ActionView, EventView, ScanView,
};
use crate::success::judgement;

verus! {

/// A failure ends a scan at whatever stage it stands, with that failure:
/// nothing is run or written after it.
pub proof fn lemma_failure_ends_scan(scan: ScanView, kind: ErrorKind)
    requires
        !(scan is Finished),
    ensures
        scan.advance(EventView::Failed(kind)) == (ScanView::Finished { verdict: Err(kind) }),
        scan.advance(EventView::Failed(kind)).pending() == ActionView::Stop,
{
}

/// A step that cannot be judged ends the scan with the failure of the
/// judgement: the steps after it are not run.
pub proof fn lemma_unjudged_step_ends_scan(scan: ScanView, output: ExecutionOutcomeView)
    requires
        scan is Executing,
    ensures
        ({
            let def = scan->Executing_benchmarks[scan->Executing_done.len() as int];
            let step = def.audit[scan->Executing_outputs.len() as int];
            judgement(output, step.expect) matches Err(kind) ==> scan.advance(
                EventView::Ran(output),
            ) == (ScanView::Finished { verdict: Err(kind) })
        }),
{
}

/// Resuming after complete benchmarks gives a state in which the invariant
/// holds.
pub proof fn lemma_resume_keeps_inv(benchmarks: Seq<BenchmarkView>, done: Seq<Seq<StepRunView>>)
    requires
        done.len() <= benchmarks.len(),
        forall|d: int| 0 <= d < done.len() ==> completes(benchmarks[d], #[trigger] done[d]),
    ensures
        resume(benchmarks, done).inv(),
    decreases benchmarks.len() - done.len(),
{
    if done.len() < benchmarks.len() && benchmarks[done.len() as int].audit.len() == 0 {
        lemma_resume_keeps_inv(benchmarks, done.push(Seq::empty()));
    }
}

/// The invariant holds at the start of a scan and after every event: it
/// holds of every state a scan can reach.
pub proof fn lemma_advance_keeps_inv(scan: ScanView, event: EventView)
    requires
        scan.inv(),
    ensures
        ScanView::Loading.inv(),
        scan.advance(event).inv(),
{
    match scan {
        ScanView::Loading => {
            if let EventView::Loaded(benchmarks) = event {
                lemma_resume_keeps_inv(benchmarks, Seq::empty());
            }
        },
        ScanView::Executing { benchmarks, done, outputs } => {
            if let EventView::Ran(output) = event {
                let def = benchmarks[done.len() as int];
                let step = def.audit[outputs.len() as int];
                if let Ok(success) = judgement(output, step.expect) {
                    let run = StepRunView { run: step.run, output, success };
                    if outputs.len() + 1 >= def.audit.len() {
                        lemma_resume_keeps_inv(benchmarks, done.push(outputs.push(run)));
                    }
                }
            }
        },
        ScanView::Reporting { benchmarks, done } => {},
        ScanView::Finished { verdict } => {},
    }
}

/// Resuming keeps the benchmarks and the runs on record, and adds to the
/// record only benchmarks that have no steps.
pub proof fn lemma_resume_keeps_record(benchmarks: Seq<BenchmarkView>, done: Seq<Seq<StepRunView>>)
    requires
        done.len() <= benchmarks.len(),
    ensures
        match resume(benchmarks, done) {
            ScanView::Executing { benchmarks: kept, done: record, outputs } => {
                &&& kept == benchmarks
                &&& outputs.len() == 0
                &&& done.len() <= record.len()
                &&& record.subrange(0, done.len() as int) == done
            },
            ScanView::Reporting { benchmarks: kept, done: record } => {
                &&& kept == benchmarks
                &&& done.len() <= record.len()
                &&& record.subrange(0, done.len() as int) == done
            },
            _ => false,
        },
    decreases benchmarks.len() - done.len(),
{
    if done.len() < benchmarks.len() && benchmarks[done.len() as int].audit.len() == 0 {
        let more = done.push(Seq::empty());
        lemma_resume_keeps_record(benchmarks, more);
        match resume(benchmarks, more) {
            ScanView::Executing { benchmarks: kept, done: record, outputs } => {
                assert(record.subrange(0, done.len() as int) =~= record.subrange(
                    0,
                    more.len() as int,
                ).subrange(0, done.len() as int));
            },
            ScanView::Reporting { benchmarks: kept, done: record } => {
                assert(record.subrange(0, done.len() as int) =~= record.subrange(
                    0,
                    more.len() as int,
                ).subrange(0, done.len() as int));
            },
            _ => {},
        }
    }
}

/// The steps before a benchmark are at most the steps before a later one.
pub proof fn lemma_steps_before_grows(benchmarks: Seq<BenchmarkView>, earlier: int, later: int)
    requires
        0 <= earlier <= later,
    ensures
        0 <= steps_before(benchmarks, earlier) <= steps_before(benchmarks, later),
    decreases later,
{
    if earlier < later {
        lemma_steps_before_grows(benchmarks, earlier, later - 1);
    } else if later > 0 {
        lemma_steps_before_grows(benchmarks, earlier - 1, later - 1);
    }
}

/// The line of the report for step `i` of benchmark `d`.
pub open spec fn line_of(
    benchmarks: Seq<BenchmarkView>,
    done: Seq<Seq<StepRunView>>,
    d: int,
    i: int,
) -> BenchmarkResultView {
    report_rows(benchmarks, done)[steps_before(benchmarks, d) + i]
}

/// The report has one line per audit step of the complete benchmarks, in
/// document order: the lines of a benchmark follow those of the benchmarks
/// before it, and within a benchmark the lines follow the steps. Each line
/// names its own step's command and carries its benchmark's labels and
/// verdict.
pub proof fn lemma_report_follows_document(
    benchmarks: Seq<BenchmarkView>,
    done: Seq<Seq<StepRunView>>,
)
    requires
        done.len() <= benchmarks.len(),
        forall|d: int| 0 <= d < done.len() ==> completes(benchmarks[d], #[trigger] done[d]),
    ensures
        report_rows(benchmarks, done).len() == steps_before(benchmarks, done.len() as int),
        forall|d: int, i: int|
            0 <= d < done.len() && 0 <= i < benchmarks[d].audit.len() ==> {
                let line = #[trigger] line_of(benchmarks, done, d, i);
                &&& 0 <= steps_before(benchmarks, d) + i < report_rows(benchmarks, done).len()
                &&& line == result_row(
                    benchmarks[d],
                    done[d][i],
                    benchmark_passed(benchmarks[d], done[d]),
                )
                &&& line.run == benchmarks[d].audit[i].run
                &&& line.section == benchmarks[d].section
                &&& line.description == benchmarks[d].description
                &&& line.skip == benchmarks[d].skip
            },
    decreases done.len(),
{
    if done.len() > 0 {
        let last = done.len() - 1;
        let before = done.drop_last();
        lemma_report_follows_document(benchmarks, before);
        assert forall|d: int, i: int|
            0 <= d < done.len() && 0 <= i < benchmarks[d].audit.len() implies {
            let line = #[trigger] line_of(benchmarks, done, d, i);
            &&& 0 <= steps_before(benchmarks, d) + i < report_rows(benchmarks, done).len()
            &&& line == result_row(
                benchmarks[d],
                done[d][i],
                benchmark_passed(benchmarks[d], done[d]),
            )
            &&& line.run == benchmarks[d].audit[i].run
            &&& line.section == benchmarks[d].section
            &&& line.description == benchmarks[d].description
            &&& line.skip == benchmarks[d].skip
        } by {
            lemma_steps_before_grows(benchmarks, d, d);
            if d < last {
                lemma_steps_before_grows(benchmarks, d + 1, last);
                assert(line_of(benchmarks, before, d, i) == line_of(benchmarks, done, d, i));
            }
        }
    }
}

/// No step of any benchmark expects a pattern.
pub open spec fn expects_nothing(benchmarks: Seq<BenchmarkView>) -> bool {
    forall|d: int, i: int|
        0 <= d < benchmarks.len() && 0 <= i < benchmarks[d].audit.len() ==> (
        #[trigger] benchmarks[d].audit[i]).expect is None
}

/// Every command on record exited with success.
pub open spec fn all_exited_zero(done: Seq<Seq<StepRunView>>) -> bool {
    forall|d: int, i: int|
        0 <= d < done.len() && 0 <= i < done[d].len() ==> (
        #[trigger] done[d][i]).output.exit_success
}

/// Where no step expects a pattern and every command exits with success,
/// every line of the report passes, and once the report is written the scan
/// ends with success.
pub proof fn lemma_clean_scan_is_compliant(
    benchmarks: Seq<BenchmarkView>,
    done: Seq<Seq<StepRunView>>,
)
    requires
        done.len() <= benchmarks.len(),
        forall|d: int| 0 <= d < done.len() ==> completes(benchmarks[d], #[trigger] done[d]),
        expects_nothing(benchmarks),
        all_exited_zero(done),
    ensures
        compliant(report_rows(benchmarks, done)),
        done.len() == benchmarks.len() ==> (ScanView::Reporting { benchmarks, done }).advance(
            EventView::Written,
        ) == (ScanView::Finished { verdict: Ok(()) }),
    decreases done.len(),
{
    if done.len() > 0 {
        let last = done.len() - 1;
        let before = done.drop_last();
        assert(all_exited_zero(before));
        lemma_clean_scan_is_compliant(benchmarks, before);
        let def = benchmarks[last];
        let runs = done.last();
        assert forall|i: int| 0 <= i < runs.len() implies (#[trigger] runs[i]).success by {
            assert(run_of(def.audit[i], runs[i]));
        }
    }
}

/// The benchmarks a scan works on, once it has loaded them.
pub open spec fn benchmarks_of(scan: ScanView) -> Option<Seq<BenchmarkView>> {
    match scan {
        ScanView::Executing { benchmarks, done, outputs } => Some(benchmarks),
        ScanView::Reporting { benchmarks, done } => Some(benchmarks),
        _ => None,
    }
}

/// A scan works on the benchmarks it was handed when loading, all of them
/// and in their order, until it ends.
pub proof fn lemma_advance_keeps_benchmarks(scan: ScanView, event: EventView)
    requires
        scan.inv(),
    ensures
        scan is Loading ==> (event matches EventView::Loaded(benchmarks) ==> benchmarks_of(
            scan.advance(event),
        ) == Some(benchmarks)),
        benchmarks_of(scan) is Some ==> scan.advance(event) is Finished || benchmarks_of(
            scan.advance(event),
        ) == benchmarks_of(scan),
{
    match scan {
        ScanView::Loading => {
            if let EventView::Loaded(benchmarks) = event {
                lemma_resume_keeps_record(benchmarks, Seq::empty());
            }
        },
        ScanView::Executing { benchmarks, done, outputs } => {
            if let EventView::Ran(output) = event {
                let def = benchmarks[done.len() as int];
                let step = def.audit[outputs.len() as int];
                if let Ok(success) = judgement(output, step.expect) {
                    let run = StepRunView { run: step.run, output, success };
                    if outputs.len() + 1 >= def.audit.len() {
                        lemma_resume_keeps_record(benchmarks, done.push(outputs.push(run)));
                    }
                }
            }
        },
        _ => {},
    }
}

/// The state after a sequence of events, taken in order.
pub open spec fn replay(scan: ScanView, events: Seq<EventView>) -> ScanView
    decreases events.len(),
{
    if events.len() == 0 {
        scan
    } else {
        replay(scan, events.drop_last()).advance(events.last())
    }
}

/// The invariant holds after any sequence of events from the start.
pub proof fn lemma_replay_keeps_inv(events: Seq<EventView>)
    ensures
        replay(ScanView::Loading, events).inv(),
    decreases events.len(),
{
    if events.len() > 0 {
        lemma_replay_keeps_inv(events.drop_last());
        lemma_advance_keeps_inv(replay(ScanView::Loading, events.drop_last()), events.last());
    }
}

/// An event of a scan in which nothing goes wrong: the benchmarks loaded
/// expect no pattern, a command exits with success, the report is written.
pub open spec fn clean_event(event: EventView) -> bool {
    match event {
        EventView::Loaded(benchmarks) => expects_nothing(benchmarks),
        EventView::Ran(output) => output.exit_success,
        EventView::Written => true,
        EventView::Failed(kind) => false,
    }
}

/// A state in which nothing has gone wrong: no step expects a pattern, every
/// command so far exited with success, and a scan that is over ended with
/// success.
pub open spec fn clean(scan: ScanView) -> bool {
    match scan {
        ScanView::Loading => true,
        ScanView::Executing { benchmarks, done, outputs } => {
            &&& expects_nothing(benchmarks)
            &&& all_exited_zero(done)
            &&& forall|i: int|
                0 <= i < outputs.len() ==> (#[trigger] outputs[i]).output.exit_success
        },
        ScanView::Reporting { benchmarks, done } => {
            &&& expects_nothing(benchmarks)
            &&& all_exited_zero(done)
        },
        ScanView::Finished { verdict } => verdict is Ok,
    }
}

proof fn lemma_resume_stays_clean(benchmarks: Seq<BenchmarkView>, done: Seq<Seq<StepRunView>>)
    requires
        expects_nothing(benchmarks),
        all_exited_zero(done),
    ensures
        clean(resume(benchmarks, done)),
    decreases benchmarks.len() - done.len(),
{
    if done.len() < benchmarks.len() && benchmarks[done.len() as int].audit.len() == 0 {
        let more = done.push(Seq::empty());
        assert(all_exited_zero(more));
        lemma_resume_stays_clean(benchmarks, more);
    }
}

/// While nothing goes wrong, nothing has gone wrong: a clean event leaves a
/// clean state clean.
pub proof fn lemma_clean_event_keeps_clean(scan: ScanView, event: EventView)
    requires
        scan.inv(),
        clean(scan),
        clean_event(event),
    ensures
        clean(scan.advance(event)),
{
    match scan {
        ScanView::Loading => {
            if let EventView::Loaded(benchmarks) = event {
                lemma_resume_stays_clean(benchmarks, Seq::empty());
            }
        },
        ScanView::Executing { benchmarks, done, outputs } => {
            if let EventView::Ran(output) = event {
                let def = benchmarks[done.len() as int];
                let step = def.audit[outputs.len() as int];
                let run = StepRunView { run: step.run, output, success: output.exit_success };
                if outputs.len() + 1 >= def.audit.len() {
                    let more = done.push(outputs.push(run));
                    assert(all_exited_zero(more));
                    lemma_resume_stays_clean(benchmarks, more);
                }
            }
        },
        ScanView::Reporting { benchmarks, done } => {
            if event is Written {
                lemma_clean_scan_is_compliant(benchmarks, done);
            }
        },
        ScanView::Finished { verdict } => {},
    }
}

/// A scan in which no step expects a pattern and every command exits with
/// success never fails: whenever it reports, every line of the report
/// passes, and when it ends, it ends with success.
pub proof fn lemma_clean_events_give_compliance(events: Seq<EventView>)
    requires
        forall|k: int| 0 <= k < events.len() ==> clean_event(#[trigger] events[k]),
    ensures
        clean(replay(ScanView::Loading, events)),
        replay(ScanView::Loading, events) matches ScanView::Reporting { benchmarks, done }
            ==> compliant(report_rows(benchmarks, done)),
        replay(ScanView::Loading, events) matches ScanView::Finished { verdict } ==> verdict is Ok,
    decreases events.len(),
{
    if events.len() > 0 {
        let before = events.drop_last();
        lemma_clean_events_give_compliance(before);
        lemma_replay_keeps_inv(before);
        lemma_clean_event_keeps_clean(replay(ScanView::Loading, before), events.last());
    }
    lemma_replay_keeps_inv(events);
    if let ScanView::Reporting { benchmarks, done } = replay(ScanView::Loading, events) {
        lemma_clean_scan_is_compliant(benchmarks, done);
    }
}

/// Whenever a scan reports, the report has one line for each audit step of
/// the benchmarks it works on, the steps of all of them counted.
pub proof fn lemma_report_counts_every_step(events: Seq<EventView>)
    ensures
        replay(ScanView::Loading, events) matches ScanView::Reporting { benchmarks, done }
            ==> report_rows(benchmarks, done).len() == steps_before(
            benchmarks,
            benchmarks.len() as int,
        ),
{
    lemma_replay_keeps_inv(events);
    if let ScanView::Reporting { benchmarks, done } = replay(ScanView::Loading, events) {
        lemma_report_follows_document(benchmarks, done);
    }
}

} // verus!
