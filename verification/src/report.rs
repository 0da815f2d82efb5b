//! The report: its table of text, and the verdict it amounts to.

use vstd::prelude::*;

use crate::model::{BenchmarkResult, BenchmarkResultView};

verus! {

/// The report's first record: the names of its seven columns.
pub open spec fn header() -> Seq<Seq<char>> {
    seq!["Section"@, "Description"@, "Run"@, "Passed"@, "Output"@, "Error"@, "Skip"@]
}

/// A verdict as the report spells it.
pub open spec fn boolean_literal(value: bool) -> Seq<char> {
    if value {
        "true"@
    } else {
        "false"@
    }
}

/// Text that may be absent: absent text is an empty field.
pub open spec fn or_empty(text: Option<Seq<char>>) -> Seq<char> {
    match text {
        Some(text) => text,
        None => Seq::empty(),
    }
}

/// The record of one report line: seven fields, in the header's order.
pub open spec fn record(row: BenchmarkResultView) -> Seq<Seq<char>> {
    seq![
        row.section,
        row.description,
        row.run,
        boolean_literal(row.passed),
        or_empty(row.output),
        or_empty(row.error),
        or_empty(row.skip),
    ]
}

/// The whole report: the header, then one record per line, in order.
pub open spec fn report_table(rows: Seq<BenchmarkResultView>) -> Seq<Seq<Seq<char>>> {
    Seq::new(
        rows.len() + 1,
        |i: int|
            if i == 0 {
                header()
            } else {
                record(rows[i - 1])
            },
    )
}

/// A report is compliant when every one of its lines passed.
pub open spec fn compliant(rows: Seq<BenchmarkResultView>) -> bool {
    forall|i: int| 0 <= i < rows.len() ==> (#[trigger] rows[i]).passed
}

/// The header record.
pub fn report_header() -> (fields: Vec<String>)
    ensures
        fields.deep_view() == header(),
{
    let mut fields: Vec<String> = Vec::new();
    fields.push("Section".to_owned());
    fields.push("Description".to_owned());
    fields.push("Run".to_owned());
    fields.push("Passed".to_owned());
    fields.push("Output".to_owned());
    fields.push("Error".to_owned());
    fields.push("Skip".to_owned());
    fields
}

/// The field for text that may be absent.
pub fn field_or_empty(text: &Option<String>) -> (field: String)
    ensures
        field@ == or_empty(text.deep_view()),
{
    match text {
        Some(text) => text.clone(),
        None => String::new(),
    }
}

/// The record of one line of the report.
pub fn report_record(result: &BenchmarkResult) -> (fields: Vec<String>)
    ensures
        fields.deep_view() == record(result@),
{
    let mut fields: Vec<String> = Vec::new();
    fields.push(result.section.clone());
    fields.push(result.description.clone());
    fields.push(result.run.clone());
    if result.passed {
        fields.push("true".to_owned());
    } else {
        fields.push("false".to_owned());
    }
    fields.push(field_or_empty(&result.output));
    fields.push(field_or_empty(&result.error));
    fields.push(field_or_empty(&result.skip));
    fields
}

/// The table to write: the header, then the record of each result.
pub fn report_records(results: &Vec<BenchmarkResult>) -> (table: Vec<Vec<String>>)
    ensures
        table.deep_view() == report_table(results.deep_view()),
{
    let ghost rows = results.deep_view();
    let mut table: Vec<Vec<String>> = Vec::new();
    table.push(report_header());
    let mut i: usize = 0;
    while i < results.len()
        invariant
            i <= results.len(),
            rows == results.deep_view(),
            table.len() == i + 1,
            table[0].deep_view() == header(),
            forall|k: int| 1 <= k <= i ==> (#[trigger] table[k]).deep_view() == record(rows[k - 1]),
        decreases results.len() - i,
    {
        table.push(report_record(&results[i]));
        i += 1;
    }
    table
}

/// Whether every line of the report passed.
pub fn is_compliant(results: &Vec<BenchmarkResult>) -> (passed: bool)
    ensures
        passed == compliant(results.deep_view()),
{
    let ghost rows = results.deep_view();
    let mut i: usize = 0;
    while i < results.len()
        invariant
            i <= results.len(),
            rows == results.deep_view(),
            forall|k: int| 0 <= k < i ==> (#[trigger] rows[k]).passed,
        decreases results.len() - i,
    {
        if !results[i].passed {
            assert(!rows[i as int].passed);
            return false;
        }
        i += 1;
    }
    true
}

} // verus!
