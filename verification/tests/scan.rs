use saytshen::error::AuditError;
use saytshen::model::{AuditStep, Benchmark, BenchmarkResult, ExecutionOutcome, Mode};
use saytshen::scan::{run_scan, Action, Event, Progress, Scan};

/// What a scan did: the commands it had run, in order, the report it had
/// written, and how it ended.
struct Trace {
    commands: Vec<String>,
    report: Option<Vec<BenchmarkResult>>,
    loads: usize,
    verdict: Result<(), AuditError>,
}

fn printed(exit_success: bool, stdout: &[u8], stderr: &[u8]) -> Event {
    Event::Ran(ExecutionOutcome { exit_success, stdout: stdout.to_vec(), stderr: stderr.to_vec() })
}

/// Stands for the shell: what each of these command lines does when run.
fn shell(command: &str) -> Event {
    match command {
        "true" => printed(true, b"", b""),
        "false" => printed(false, b"", b""),
        "echo ok" => printed(true, b"ok\n", b""),
        "printf ok" => printed(true, b"ok", b""),
        "echo one" => printed(true, b"one\n", b""),
        "echo two" => printed(true, b"two\n", b""),
        "echo three" => printed(true, b"three\n", b""),
        "echo oops >&2; false" => printed(false, b"", b"oops\n"),
        "echo ok; false" => printed(false, b"ok\n", b""),
        "printf '\\377'" => printed(true, &[0xff], b""),
        _ => Event::Failed(AuditError::IoError(std::io::Error::new(
            std::io::ErrorKind::Other,
            "cannot spawn",
        ))),
    }
}

fn drive(loaded: Event, written: fn() -> Event) -> Trace {
    let mut loaded = Some(loaded);
    let mut trace = Trace { commands: Vec::new(), report: None, loads: 0, verdict: Ok(()) };
    let mut scan = Scan::new();
    loop {
        let event = match scan.pending() {
            Action::Load => {
                trace.loads += 1;
                loaded.take().expect("the benchmarks are loaded once")
            }
            Action::Run(command) => {
                trace.commands.push(command.to_string());
                shell(command)
            }
            Action::Report(results) => {
                assert!(trace.report.is_none(), "the report is written once");
                trace.report = Some(results.clone());
                written()
            }
        };
        match run_scan(scan, event) {
            Progress::Pending(next) => scan = next,
            Progress::Finished(verdict) => {
                trace.verdict = verdict;
                return trace;
            }
        }
    }
}

fn scan_of(benchmarks: Vec<Benchmark>) -> Trace {
    drive(Event::Loaded(benchmarks), || Event::Written)
}

fn step(run: &str) -> AuditStep {
    AuditStep { run: run.to_string(), expect: None }
}

fn expecting(run: &str, expect: &str) -> AuditStep {
    AuditStep { run: run.to_string(), expect: Some(expect.to_string()) }
}

fn benchmark(
    section: &str,
    mode: Option<Mode>,
    skip: Option<&str>,
    audit: Vec<AuditStep>,
) -> Benchmark {
    Benchmark {
        section: section.to_string(),
        description: format!("Benchmark {}", section),
        audit,
        mode,
        skip: skip.map(|s| s.to_string()),
    }
}

fn verdicts(trace: &Trace) -> Vec<bool> {
    trace.report.as_ref().expect("a report").iter().map(|r| r.passed).collect()
}

fn runs(trace: &Trace) -> Vec<String> {
    trace.report.as_ref().expect("a report").iter().map(|r| r.run.clone()).collect()
}

#[test]
fn all_with_two_passing_steps_is_compliant() {
    let trace = scan_of(vec![benchmark(
        "1",
        Some(Mode::All),
        None,
        vec![step("true"), step("true")],
    )]);
    assert_eq!(trace.commands, vec!["true", "true"]);
    assert_eq!(verdicts(&trace), vec![true, true]);
    assert!(matches!(trace.verdict, Ok(())));
}

#[test]
fn all_with_one_failing_step_is_non_compliant() {
    let trace = scan_of(vec![benchmark(
        "1",
        Some(Mode::All),
        None,
        vec![step("true"), step("false")],
    )]);
    assert_eq!(trace.commands, vec!["true", "false"]);
    assert_eq!(verdicts(&trace), vec![false, false]);
    assert!(matches!(trace.verdict, Err(AuditError::NonCompliant)));
}

#[test]
fn any_with_one_passing_step_is_compliant() {
    let trace = scan_of(vec![benchmark(
        "1",
        Some(Mode::Any),
        None,
        vec![step("false"), step("true")],
    )]);
    assert_eq!(trace.commands, vec!["false", "true"]);
    assert_eq!(verdicts(&trace), vec![true, true]);
    assert!(matches!(trace.verdict, Ok(())));
}

#[test]
fn any_with_no_passing_step_is_non_compliant() {
    let trace = scan_of(vec![benchmark(
        "1",
        Some(Mode::Any),
        None,
        vec![step("false"), step("false")],
    )]);
    assert_eq!(verdicts(&trace), vec![false, false]);
    assert!(matches!(trace.verdict, Err(AuditError::NonCompliant)));
}

#[test]
fn absent_mode_means_all() {
    let trace = scan_of(vec![benchmark("1", None, None, vec![step("false"), step("true")])]);
    assert_eq!(verdicts(&trace), vec![false, false]);
    assert!(matches!(trace.verdict, Err(AuditError::NonCompliant)));
}

#[test]
fn skipped_benchmark_passes_and_still_runs() {
    let trace = scan_of(vec![benchmark(
        "1",
        None,
        Some("waived"),
        vec![step("echo oops >&2; false")],
    )]);
    assert_eq!(trace.commands, vec!["echo oops >&2; false"]);
    let report = trace.report.as_ref().unwrap();
    assert_eq!(report.len(), 1);
    assert_eq!(report[0].passed, true);
    assert_eq!(report[0].skip, Some("waived".to_string()));
    assert_eq!(report[0].output, Some(String::new()));
    assert_eq!(report[0].error, Some("oops\n".to_string()));
    assert!(matches!(trace.verdict, Ok(())));
}

#[test]
fn skipped_false_step_reports_the_real_run() {
    let trace = scan_of(vec![benchmark("1", Some(Mode::All), Some("waived"), vec![step("false")])]);
    let report = trace.report.as_ref().unwrap();
    assert_eq!(
        report,
        &vec![BenchmarkResult {
            section: "1".to_string(),
            description: "Benchmark 1".to_string(),
            run: "false".to_string(),
            passed: true,
            output: Some(String::new()),
            error: Some(String::new()),
            skip: Some("waived".to_string()),
        }]
    );
    assert!(matches!(trace.verdict, Ok(())));
}

#[test]
fn expected_pattern_found_in_output_passes() {
    let trace = scan_of(vec![benchmark("1", None, None, vec![expecting("printf ok", "^ok$")])]);
    assert_eq!(verdicts(&trace), vec![true]);
    assert!(matches!(trace.verdict, Ok(())));
    let trace = scan_of(vec![benchmark("1", None, None, vec![expecting("echo ok", "^ok")])]);
    assert_eq!(verdicts(&trace), vec![true]);
    assert!(matches!(trace.verdict, Ok(())));
}

#[test]
fn expected_pattern_missing_fails_despite_exit_zero() {
    let trace = scan_of(vec![benchmark("1", None, None, vec![expecting("printf ok", "^no$")])]);
    assert_eq!(verdicts(&trace), vec![false]);
    assert!(matches!(trace.verdict, Err(AuditError::NonCompliant)));
    let trace = scan_of(vec![benchmark("1", None, None, vec![expecting("echo ok", "^no$")])]);
    assert_eq!(verdicts(&trace), vec![false]);
    assert!(matches!(trace.verdict, Err(AuditError::NonCompliant)));
}

#[test]
fn expected_pattern_found_fails_on_non_zero_exit() {
    let trace = scan_of(vec![benchmark("1", None, None, vec![expecting("echo ok; false", "ok")])]);
    assert_eq!(verdicts(&trace), vec![false]);
    assert!(matches!(trace.verdict, Err(AuditError::NonCompliant)));
}

#[test]
fn failed_load_runs_nothing_and_writes_nothing() {
    let error = serde_yaml::from_str::<serde_yaml::Value>("- section: [unclosed").unwrap_err();
    let trace = drive(Event::Failed(AuditError::YamlError(error)), || Event::Written);
    assert_eq!(trace.loads, 1);
    assert!(trace.commands.is_empty());
    assert!(trace.report.is_none());
    assert!(matches!(trace.verdict, Err(AuditError::YamlError(_))));
}

#[test]
fn unreadable_document_is_an_io_error() {
    let error = std::io::Error::new(std::io::ErrorKind::NotFound, "no such file");
    let trace = drive(Event::Failed(AuditError::IoError(error)), || Event::Written);
    assert!(trace.commands.is_empty());
    assert!(trace.report.is_none());
    assert!(matches!(trace.verdict, Err(AuditError::IoError(_))));
}

#[test]
fn clean_benchmarks_are_compliant() {
    let trace = scan_of(vec![
        benchmark("1", None, None, vec![step("true"), step("echo one")]),
        benchmark("2", Some(Mode::Any), None, vec![step("echo two")]),
        benchmark("3", Some(Mode::All), None, vec![step("true"), step("true"), step("echo three")]),
    ]);
    assert_eq!(verdicts(&trace), vec![true; 6]);
    assert!(matches!(trace.verdict, Ok(())));
}

#[test]
fn report_has_one_line_per_step_in_document_order() {
    let trace = scan_of(vec![
        benchmark("1", None, None, vec![step("echo one"), step("false")]),
        benchmark("2", Some(Mode::Any), None, vec![]),
        benchmark(
            "3",
            Some(Mode::Any),
            None,
            vec![step("echo two"), step("false"), step("echo three")],
        ),
        benchmark("4", None, None, vec![step("true")]),
    ]);
    assert_eq!(
        trace.commands,
        vec!["echo one", "false", "echo two", "false", "echo three", "true"]
    );
    assert_eq!(runs(&trace), trace.commands);
    let report = trace.report.as_ref().unwrap();
    assert_eq!(report.len(), 2 + 0 + 3 + 1);
    let sections: Vec<&str> = report.iter().map(|r| r.section.as_str()).collect();
    assert_eq!(sections, vec!["1", "1", "3", "3", "3", "4"]);
    let outputs: Vec<Option<&str>> = report.iter().map(|r| r.output.as_deref()).collect();
    assert_eq!(
        outputs,
        vec![Some("one\n"), Some(""), Some("two\n"), Some(""), Some("three\n"), Some("")]
    );
    assert_eq!(verdicts(&trace), vec![false, false, true, true, true, true]);
    assert!(matches!(trace.verdict, Err(AuditError::NonCompliant)));
}

#[test]
fn empty_document_reports_nothing_and_is_compliant() {
    let trace = scan_of(Vec::new());
    assert!(trace.commands.is_empty());
    assert_eq!(trace.report, Some(Vec::new()));
    assert!(matches!(trace.verdict, Ok(())));
}

#[test]
fn benchmarks_without_steps_report_nothing() {
    let trace = scan_of(vec![
        benchmark("1", Some(Mode::Any), None, vec![]),
        benchmark("2", None, None, vec![]),
    ]);
    assert!(trace.commands.is_empty());
    assert_eq!(trace.report, Some(Vec::new()));
    assert!(matches!(trace.verdict, Ok(())));
}

#[test]
fn one_failing_benchmark_makes_the_scan_non_compliant() {
    let trace = scan_of(vec![
        benchmark("1", None, None, vec![step("true")]),
        benchmark("2", None, None, vec![step("false")]),
        benchmark("3", None, None, vec![step("true")]),
    ]);
    assert_eq!(verdicts(&trace), vec![true, false, true]);
    assert!(matches!(trace.verdict, Err(AuditError::NonCompliant)));
}

#[test]
fn command_that_cannot_be_run_ends_the_scan() {
    let trace = scan_of(vec![
        benchmark("1", None, None, vec![step("true"), step("no such shell"), step("true")]),
        benchmark("2", None, None, vec![step("true")]),
    ]);
    assert_eq!(trace.commands, vec!["true", "no such shell"]);
    assert!(trace.report.is_none());
    assert!(matches!(trace.verdict, Err(AuditError::IoError(_))));
}

#[test]
fn invalid_pattern_ends_the_scan_at_its_step() {
    let trace = scan_of(vec![
        benchmark("1", None, None, vec![step("true")]),
        benchmark("2", None, None, vec![expecting("echo ok", "ok("), step("echo one")]),
        benchmark("3", None, None, vec![step("true")]),
    ]);
    assert_eq!(trace.commands, vec!["true", "echo ok"]);
    assert!(trace.report.is_none());
    assert!(matches!(trace.verdict, Err(AuditError::RegexError(_))));
}

#[test]
fn invalid_pattern_ends_a_skipped_benchmark_too() {
    let trace = scan_of(vec![benchmark("1", None, Some("waived"), vec![expecting("true", "*")])]);
    assert!(trace.report.is_none());
    assert!(matches!(trace.verdict, Err(AuditError::RegexError(_))));
}

#[test]
fn undecodable_output_ends_the_scan_when_a_pattern_is_expected() {
    let trace = scan_of(vec![benchmark(
        "1",
        None,
        None,
        vec![expecting("printf '\\377'", "."), step("true")],
    )]);
    assert_eq!(trace.commands, vec!["printf '\\377'"]);
    assert!(trace.report.is_none());
    assert!(matches!(trace.verdict, Err(AuditError::StringError(_))));
}

#[test]
fn undecodable_output_is_left_out_when_no_pattern_is_expected() {
    let trace = scan_of(vec![benchmark("1", None, None, vec![step("printf '\\377'")])]);
    let report = trace.report.as_ref().unwrap();
    assert_eq!(report[0].output, None);
    assert_eq!(report[0].error, Some(String::new()));
    assert_eq!(report[0].passed, true);
    assert!(matches!(trace.verdict, Ok(())));
}

#[test]
fn report_that_cannot_be_written_ends_the_scan_with_that_failure() {
    let trace = drive(
        Event::Loaded(vec![benchmark("1", None, None, vec![step("false")])]),
        || {
            Event::Failed(AuditError::CsvError(csv::Error::from(std::io::Error::new(
                std::io::ErrorKind::PermissionDenied,
                "read-only",
            ))))
        },
    );
    assert_eq!(verdicts(&trace), vec![false]);
    assert!(matches!(trace.verdict, Err(AuditError::CsvError(_))));
}

#[test]
fn failure_is_handed_back_unchanged() {
    let error = std::io::Error::new(std::io::ErrorKind::NotFound, "benchmarks.yml is missing");
    match run_scan(Scan::new(), Event::Failed(AuditError::IoError(error))) {
        Progress::Finished(Err(AuditError::IoError(inner))) => {
            assert_eq!(inner.kind(), std::io::ErrorKind::NotFound);
            assert_eq!(inner.to_string(), "benchmarks.yml is missing");
        }
        _ => panic!("the scan should have ended with the failure"),
    }
}

#[test]
fn new_scan_waits_for_the_benchmarks() {
    assert!(matches!(Scan::new().pending(), Action::Load));
}

#[test]
fn loaded_scan_waits_for_its_first_command() {
    let loaded = Event::Loaded(vec![
        benchmark("1", None, None, vec![]),
        benchmark("2", None, None, vec![step("echo one"), step("echo two")]),
    ]);
    match run_scan(Scan::new(), loaded) {
        Progress::Pending(scan) => assert!(matches!(scan.pending(), Action::Run("echo one"))),
        Progress::Finished(_) => panic!("the scan has steps to run"),
    }
}

#[test]
fn event_that_answers_nothing_changes_nothing() {
    let scan = match run_scan(Scan::new(), Event::Written) {
        Progress::Pending(scan) => scan,
        Progress::Finished(_) => panic!("nothing was written"),
    };
    assert!(matches!(scan.pending(), Action::Load));
    let scan = match run_scan(scan, printed(true, b"", b"")) {
        Progress::Pending(scan) => scan,
        Progress::Finished(_) => panic!("nothing was run"),
    };
    assert!(matches!(scan.pending(), Action::Load));

    let loaded = Event::Loaded(vec![benchmark("1", None, None, vec![step("true"), step("false")])]);
    let mut scan = match run_scan(scan, loaded) {
        Progress::Pending(scan) => scan,
        Progress::Finished(_) => panic!("the scan has steps to run"),
    };
    for _ in 0..2 {
        scan = match run_scan(scan, Event::Written) {
            Progress::Pending(scan) => scan,
            Progress::Finished(_) => panic!("nothing was written"),
        };
        assert!(matches!(scan.pending(), Action::Run("true")));
        scan = match run_scan(scan, Event::Loaded(Vec::new())) {
            Progress::Pending(scan) => scan,
            Progress::Finished(_) => panic!("nothing was loaded"),
        };
        assert!(matches!(scan.pending(), Action::Run("true")));
    }
    let scan = match run_scan(scan, shell("true")) {
        Progress::Pending(scan) => scan,
        Progress::Finished(_) => panic!("a step is left"),
    };
    assert!(matches!(scan.pending(), Action::Run("false")));
    let scan = match run_scan(scan, shell("false")) {
        Progress::Pending(scan) => scan,
        Progress::Finished(_) => panic!("the report is left"),
    };
    let scan = match run_scan(scan, shell("true")) {
        Progress::Pending(scan) => scan,
        Progress::Finished(_) => panic!("nothing was written"),
    };
    match scan.pending() {
        Action::Report(results) => {
            assert_eq!(results.len(), 2);
            assert_eq!(results[0].passed, false);
            assert_eq!(results[1].passed, false);
        }
        _ => panic!("the report is pending"),
    }
    assert!(matches!(
        run_scan(scan, Event::Written),
        Progress::Finished(Err(AuditError::NonCompliant))
    ));
}
