//! The summary of a report as two tables: the run's duration, and the mean
//! and peak of each metric.

use vstd::prelude::*;

use crate::report::{MemoryKind, Report};
use crate::series::{maximum, mean, peak};
use crate::table::{Emphasis, TableView, TextCell, TextTable};
use crate::text::{percent, percent_text};

verus! {

/// What `humansize::format_size` writes for a byte count with decimal units.
pub uninterp spec fn decimal_size(bytes: u64) -> Seq<char>;

/// What `humantime` writes for a duration given in nanoseconds.
pub uninterp spec fn human_duration(nanos: u64) -> Seq<char>;

/// Relies on humansize::format_size with humansize::DECIMAL: the text
/// depends on the byte count alone.
#[verifier::external_body]
fn size_text(bytes: u64) -> (r: String)
    ensures
        r@ == decimal_size(bytes),
{
    humansize::format_size(bytes, humansize::DECIMAL)
}

/// Relies on the Display of humantime::Duration: the text depends on the
/// duration alone.
#[verifier::external_body]
fn duration_text(nanos: u64) -> (r: String)
    ensures
        r@ == human_duration(nanos),
{
    humantime::Duration::from(std::time::Duration::from_nanos(nanos)).to_string()
}

/// Why a report could not be rendered.
#[derive(Clone, Copy, Debug, PartialEq, Eq, Structural)]
pub enum FormatError {
    /// The report holds no observation.
    EmptyReport,
}

/// A report can be summarised only when it holds observations.
pub open spec fn summarisable(r: &Report) -> bool {
    r.memory@.len() > 0 && r.cpu@.len() > 0
}

pub open spec fn duration_view(r: &Report) -> TableView {
    TableView {
        header: None,
        rows: seq![
            seq![
                ("Duration"@, Emphasis::Bold),
                (human_duration((r.time_end - r.time_start) as u64), Emphasis::Plain),
            ],
        ],
    }
}

pub open spec fn statistics_view(r: &Report) -> TableView {
    TableView {
        header: Some(
            seq![
                (""@, Emphasis::Plain),
                ("CPU (%)"@, Emphasis::Italic),
                ("Memory (rss)"@, Emphasis::Italic),
                ("Memory (vms)"@, Emphasis::Italic),
                ("Memory (shared)"@, Emphasis::Italic),
            ],
        ),
        rows: seq![
            seq![
                ("Mean"@, Emphasis::Bold),
                (percent(mean(r.cpu_series()).unwrap() as nat), Emphasis::Plain),
                (decimal_size(mean(r.memory_series(MemoryKind::Rss)).unwrap()), Emphasis::Plain),
                (decimal_size(mean(r.memory_series(MemoryKind::Vms)).unwrap()), Emphasis::Plain),
                (decimal_size(mean(r.memory_series(MemoryKind::Shared)).unwrap()), Emphasis::Plain),
            ],
            seq![
                ("Peak"@, Emphasis::Bold),
                (percent(peak(r.cpu_series()) as nat), Emphasis::Plain),
                (decimal_size(maximum(r.memory_series(MemoryKind::Rss)).unwrap()), Emphasis::Plain),
                (decimal_size(maximum(r.memory_series(MemoryKind::Vms)).unwrap()), Emphasis::Plain),
                (decimal_size(maximum(r.memory_series(MemoryKind::Shared)).unwrap()), Emphasis::Plain),
            ],
        ],
    }
}

fn cell(text: String, emphasis: Emphasis) -> (r: TextCell)
    ensures
        r.text@ == text@,
        r.emphasis == emphasis,
{
    TextCell { text, emphasis }
}

fn literal(s: &str) -> (r: String)
    ensures
        r@ == s@,
{
    String::from_str(s)
}

/// The two tables that summarise a report: its duration, then the mean and
/// peak of each metric. Fails exactly when the report holds no observation.
pub fn summary_tables(report: &Report) -> (r: Result<(TextTable, TextTable), FormatError>)
    requires
        report.wf(),
    ensures
        r is Err <==> !summarisable(report),
        r matches Err(e) ==> e == FormatError::EmptyReport,
        r matches Ok((d, s)) ==> d@ == duration_view(report) && s@ == statistics_view(report),
{
    if report.memory.len() == 0 || report.cpu.len() == 0 {
        return Err(FormatError::EmptyReport);
    }
    let peak_cpu = report.max_cpu_percentage();
    let mean_cpu = report.mean_cpu_percentage().unwrap();
    let peak_rss = report.max_rss_memory().unwrap();
    let mean_rss = report.mean_rss_memory().unwrap();
    let peak_vms = report.max_vms_memory().unwrap();
    let mean_vms = report.mean_vms_memory().unwrap();
    let peak_shared = report.max_shared_memory().unwrap();
    let mean_shared = report.mean_shared_memory().unwrap();

    let time_row = vec![
        cell(literal("Duration"), Emphasis::Bold),
        cell(duration_text(report.duration_nanos()), Emphasis::Plain),
    ];
    assert(crate::table::row_view(time_row@) =~= duration_view(report).rows[0]);
    let time_table = TextTable { header: None, rows: vec![time_row] };

    let header = vec![
        cell(literal(""), Emphasis::Plain),
        cell(literal("CPU (%)"), Emphasis::Italic),
        cell(literal("Memory (rss)"), Emphasis::Italic),
        cell(literal("Memory (vms)"), Emphasis::Italic),
        cell(literal("Memory (shared)"), Emphasis::Italic),
    ];
    let mean_row = vec![
        cell(literal("Mean"), Emphasis::Bold),
        cell(percent_text(mean_cpu), Emphasis::Plain),
        cell(size_text(mean_rss), Emphasis::Plain),
        cell(size_text(mean_vms), Emphasis::Plain),
        cell(size_text(mean_shared), Emphasis::Plain),
    ];
    let peak_row = vec![
        cell(literal("Peak"), Emphasis::Bold),
        cell(percent_text(peak_cpu), Emphasis::Plain),
        cell(size_text(peak_rss), Emphasis::Plain),
        cell(size_text(peak_vms), Emphasis::Plain),
        cell(size_text(peak_shared), Emphasis::Plain),
    ];
    assert(crate::table::row_view(mean_row@) =~= statistics_view(report).rows[0]);
    assert(crate::table::row_view(peak_row@) =~= statistics_view(report).rows[1]);
    let stats_table = TextTable { header: Some(header), rows: vec![mean_row, peak_row] };
    proof {
        assert(time_table@.rows =~= duration_view(report).rows);
        assert(stats_table@.header.unwrap() =~= statistics_view(report).header.unwrap());
        assert(stats_table@.rows =~= statistics_view(report).rows);
    }
    Ok((time_table, stats_table))
}

/// The rendered duration table, a line break, then the rendered statistics
/// table.
pub fn join_tables(time_text: String, stats_text: &str) -> (r: String)
    ensures
        r@ == time_text@ + seq!['\n'] + stats_text@,
{
    let mut s = time_text;
    proof { reveal_strlit("\n"); }
    s.append("\n");
    s.append(stats_text);
    s
}

/// Text of the form `a`, line break, `b`.
pub open spec fn two_parts(s: Seq<char>) -> bool {
    exists|a: Seq<char>, b: Seq<char>| s == a + seq!['\n'] + b
}

fn render_summary(report: &Report) -> (r: Result<String, FormatError>)
    requires
        report.wf(),
    ensures
        r is Err <==> !summarisable(report),
        r matches Err(e) ==> e == FormatError::EmptyReport,
        r matches Ok(s) ==> two_parts(s@),
{
    match summary_tables(report) {
        Err(e) => Err(e),
        Ok((time_table, stats_table)) => {
            let time_text = time_table.render();
            let stats_text = stats_table.render();
            let s = join_tables(time_text, stats_text.as_str());
            assert(s@ == time_text@ + seq!['\n'] + stats_text@);
            Ok(s)
        },
    }
}

/// Renders a report as a duration table followed by a table of the mean
/// and peak of each metric.
pub struct BasicTableSummary;

impl BasicTableSummary {
    /// Fails with `EmptyReport` exactly when the report holds no observation;
    /// otherwise `join_tables` of the two tables that `summary_tables` lays
    /// out, each drawn through `TextTable::build` and comfy-table.
    pub fn to_string(&self, report: &Report) -> (r: Result<String, FormatError>)
        requires
            report.wf(),
        ensures
            r is Err <==> !summarisable(report),
            r matches Err(e) ==> e == FormatError::EmptyReport,
            r matches Ok(s) ==> two_parts(s@),
    {
        render_summary(report)
    }
}

/// The summary printed at the end of a run; it renders as `BasicTableSummary`.
pub struct TableSummary;

impl TableSummary {
    /// Fails with `EmptyReport` exactly when the report holds no observation;
    /// otherwise the text that `BasicTableSummary::to_string` gives.
    pub fn to_string(&self, report: &Report) -> (r: Result<String, FormatError>)
        requires
            report.wf(),
        ensures
            r is Err <==> !summarisable(report),
            r matches Err(e) ==> e == FormatError::EmptyReport,
            r matches Ok(s) ==> two_parts(s@),
    {
        render_summary(report)
    }
}

} // verus!
