//! The benchmark evaluator: from the judged runs of a benchmark's audit
//! steps to the benchmark's verdict and its lines of the report.

use vstd::prelude::*;
use vstd::utf8::{decode_utf8, valid_utf8};

use crate::model::{
    Benchmark, BenchmarkResult, BenchmarkResultView, BenchmarkView, ExecutionOutcome,
    ExecutionOutcomeView, Mode,
};

verus! {

/// One executed audit step: the command as it was run, what it produced, and
/// whether that counts as a success.
#[derive(Clone, Debug, PartialEq, Eq)]
pub struct StepRun {
    pub run: String,
    pub output: ExecutionOutcome,
    pub success: bool,
}

/// A [`StepRun`] as a mathematical value.
pub ghost struct StepRunView {
    pub run: Seq<char>,
    pub output: ExecutionOutcomeView,
    pub success: bool,
}

impl View for StepRun {
    type V = StepRunView;

    open spec fn view(&self) -> StepRunView {
        StepRunView { run: self.run@, output: self.output@, success: self.success }
    }
}

impl DeepView for StepRun {
    type V = StepRunView;

    open spec fn deep_view(&self) -> StepRunView {
        self@
    }
}

/// Under `All` every run must have succeeded; under `Any` one must have.
pub open spec fn aggregate(mode: Mode, outputs: Seq<StepRunView>) -> bool {
    match mode {
        Mode::All => forall|i: int| 0 <= i < outputs.len() ==> (#[trigger] outputs[i]).success,
        Mode::Any => exists|i: int| 0 <= i < outputs.len() && (#[trigger] outputs[i]).success,
    }
}

/// The verdict of a benchmark: a waived benchmark passes whatever its steps
/// did; any other passes when its policy is met.
pub open spec fn benchmark_passed(def: BenchmarkView, outputs: Seq<StepRunView>) -> bool {
    def.waived() || aggregate(def.policy(), outputs)
}

/// Captured bytes as text, where they are valid UTF-8.
pub open spec fn decoded(bytes: Seq<u8>) -> Option<Seq<char>> {
    if valid_utf8(bytes) {
        Some(decode_utf8(bytes))
    } else {
        None
    }
}

/// The report line of one run: the benchmark's labels and skip reason, the
/// run's own command and captured text, and the benchmark's verdict.
pub open spec fn result_row(
    def: BenchmarkView,
    run: StepRunView,
    passed: bool,
) -> BenchmarkResultView {
    BenchmarkResultView {
        section: def.section,
        description: def.description,
        run: run.run,
        passed,
        output: decoded(run.output.stdout),
        error: decoded(run.output.stderr),
        skip: def.skip,
    }
}

/// The report lines of a benchmark: one per run, in order, all with the
/// benchmark's verdict.
pub open spec fn benchmark_rows(def: BenchmarkView, outputs: Seq<StepRunView>) -> Seq<
    BenchmarkResultView,
> {
    Seq::new(outputs.len(), |i: int| result_row(def, outputs[i], benchmark_passed(def, outputs)))
}

/// The policy of a benchmark: `All` where the document names none.
pub fn policy(step: &Benchmark) -> (mode: Mode)
    ensures
        mode == step@.policy(),
{
    match step.mode {
        Some(mode) => mode,
        None => Mode::All,
    }
}

/// Whether the runs meet the policy.
pub fn aggregate_successes(mode: Mode, outputs: &Vec<StepRun>) -> (met: bool)
    ensures
        met == aggregate(mode, outputs.deep_view()),
{
    let ghost runs = outputs.deep_view();
    let mut i: usize = 0;
    match mode {
        Mode::All => {
            while i < outputs.len()
                invariant
                    i <= outputs.len(),
                    runs == outputs.deep_view(),
                    mode is All,
                    forall|k: int| 0 <= k < i ==> (#[trigger] runs[k]).success,
                decreases outputs.len() - i,
            {
                if !outputs[i].success {
                    assert(!runs[i as int].success);
                    return false;
                }
                i += 1;
            }
            true
        },
        Mode::Any => {
            while i < outputs.len()
                invariant
                    i <= outputs.len(),
                    runs == outputs.deep_view(),
                    mode is Any,
                    forall|k: int| 0 <= k < i ==> !(#[trigger] runs[k]).success,
                decreases outputs.len() - i,
            {
                if outputs[i].success {
                    assert(runs[i as int].success);
                    return true;
                }
                i += 1;
            }
            false
        },
    }
}

/// Captured bytes as text: `None` where they are not valid UTF-8.
pub fn decode(bytes: &Vec<u8>) -> (text: Option<String>)
    ensures
        text.deep_view() == decoded(bytes@),
{
    match String::from_utf8(bytes.clone()) {
        Ok(text) => Some(text),
        Err(_) => None,
    }
}

/// The report lines of one benchmark whose steps have all been run and
/// judged.
pub fn benchmark_results(step: &Benchmark, outputs: &Vec<StepRun>) -> (results: Vec<
    BenchmarkResult,
>)
    ensures
        results.deep_view() == benchmark_rows(step@, outputs.deep_view()),
{
    let passed = step.skip.is_some() || aggregate_successes(policy(step), outputs);
    let ghost runs = outputs.deep_view();
    let mut results: Vec<BenchmarkResult> = Vec::new();
    let mut i: usize = 0;
    while i < outputs.len()
        invariant
            i <= outputs.len(),
            results.len() == i,
            runs == outputs.deep_view(),
            passed == benchmark_passed(step@, runs),
            forall|k: int|
                0 <= k < i ==> (#[trigger] results[k])@ == result_row(step@, runs[k], passed),
        decreases outputs.len() - i,
    {
        let run = &outputs[i];
        results.push(
            BenchmarkResult {
                section: step.section.clone(),
                description: step.description.clone(),
                run: run.run.clone(),
                passed,
                output: decode(&run.output.stdout),
                error: decode(&run.output.stderr),
                skip: step.skip.clone(),
            },
        );
        i += 1;
    }
    results
}

/// A benchmark yields exactly one line per run, in the order of the runs,
/// and all of its lines carry the same verdict.
pub proof fn lemma_rows_share_verdict(def: BenchmarkView, outputs: Seq<StepRunView>)
    ensures
        benchmark_rows(def, outputs).len() == outputs.len(),
        forall|i: int|
            0 <= i < outputs.len() ==> #[trigger] benchmark_rows(def, outputs)[i] == result_row(
                def,
                outputs[i],
                benchmark_passed(def, outputs),
            ),
        forall|i: int, j: int|
            0 <= i < outputs.len() && 0 <= j < outputs.len() ==> (#[trigger] benchmark_rows(
                def,
                outputs,
            )[i]).passed == (#[trigger] benchmark_rows(def, outputs)[j]).passed,
{
}

/// Under `All`, one failed step fails every line of a benchmark that is not
/// waived: the lines of the steps that succeeded too.
pub proof fn lemma_one_failure_fails_all(def: BenchmarkView, outputs: Seq<StepRunView>)
    requires
        def.policy() == Mode::All,
        !def.waived(),
        exists|i: int| 0 <= i < outputs.len() && !(#[trigger] outputs[i]).success,
    ensures
        forall|i: int|
            0 <= i < benchmark_rows(def, outputs).len() ==> !(#[trigger] benchmark_rows(
                def,
                outputs,
            )[i]).passed,
{
}

/// Under `Any`, one successful step passes every line of the benchmark: the
/// lines of the steps that failed too.
pub proof fn lemma_one_success_passes_all(def: BenchmarkView, outputs: Seq<StepRunView>)
    requires
        def.policy() == Mode::Any,
        exists|i: int| 0 <= i < outputs.len() && (#[trigger] outputs[i]).success,
    ensures
        forall|i: int|
            0 <= i < benchmark_rows(def, outputs).len() ==> (#[trigger] benchmark_rows(
                def,
                outputs,
            )[i]).passed,
{
}

/// Every line of a waived benchmark passes, whatever its steps did, and
/// still shows the skip reason and what each step really printed.
pub proof fn lemma_waived_passes(def: BenchmarkView, outputs: Seq<StepRunView>)
    requires
        def.waived(),
    ensures
        forall|i: int|
            0 <= i < benchmark_rows(def, outputs).len() ==> {
                let row = #[trigger] benchmark_rows(def, outputs)[i];
                &&& row.passed
                &&& row.skip == def.skip
                &&& row.output == decoded(outputs[i].output.stdout)
                &&& row.error == decoded(outputs[i].output.stderr)
            },
{
}

} // verus!
