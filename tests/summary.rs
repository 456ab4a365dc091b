use memtrace::report::{MemorySample, Report};
use memtrace::summary::{summary_tables, BasicTableSummary, FormatError, TableSummary};
use memtrace::table::Emphasis;
use memtrace::text::{decimal_text, percent_text};
use memtrace::textplot::TextplotFormatter;

fn mem(rss: u64, vms: u64, shared: u64) -> MemorySample {
    MemorySample { rss, vms, shared }
}

#[test]
fn decimal_text_values() {
    assert_eq!(decimal_text(0), "0");
    assert_eq!(decimal_text(7), "7");
    assert_eq!(decimal_text(1234567890), "1234567890");
    assert_eq!(decimal_text(u64::MAX), "18446744073709551615");
}

#[test]
fn percent_text_values() {
    assert_eq!(percent_text(1234), "12.34%");
    assert_eq!(percent_text(5), "0.05%");
    assert_eq!(percent_text(1500), "15.00%");
    assert_eq!(percent_text(0), "0.00%");
}

#[test]
fn empty_report_fails_to_render() {
    let r = Report::new(vec![], 0, 0);
    assert_eq!(BasicTableSummary.to_string(&r), Err(FormatError::EmptyReport));
    assert_eq!(TableSummary.to_string(&r), Err(FormatError::EmptyReport));
    assert!(summary_tables(&r).is_err());
}

#[test]
fn summary_table_cells() {
    let r = Report::new(
        vec![(mem(100, 1000, 10), 1000), (mem(200, 2000, 5500), 2000)],
        1_000_000_000,
        2_500_000_000,
    );
    let (d, s) = summary_tables(&r).unwrap();
    assert!(d.header.is_none());
    assert_eq!(d.rows.len(), 1);
    assert_eq!(d.rows[0][0].text, "Duration");
    assert_eq!(d.rows[0][0].emphasis, Emphasis::Bold);
    assert_eq!(d.rows[0][1].text, "1s 500ms");

    let header: Vec<&str> = s.header.as_ref().unwrap().iter().map(|c| c.text.as_str()).collect();
    assert_eq!(header, vec!["", "CPU (%)", "Memory (rss)", "Memory (vms)", "Memory (shared)"]);
    assert_eq!(s.header.as_ref().unwrap()[1].emphasis, Emphasis::Italic);
    let mean: Vec<&str> = s.rows[0].iter().map(|c| c.text.as_str()).collect();
    assert_eq!(mean, vec!["Mean", "15.00%", "150 B", "1.50 kB", "2.75 kB"]);
    let peak: Vec<&str> = s.rows[1].iter().map(|c| c.text.as_str()).collect();
    assert_eq!(peak, vec!["Peak", "20.00%", "200 B", "2 kB", "5.50 kB"]);
}

#[test]
fn summary_renders_all_cells() {
    let r = Report::new(vec![(mem(1000, 2000, 3000), 1250)], 0, 3_000_000_000);
    let text = BasicTableSummary.to_string(&r).unwrap();
    for word in ["Duration", "3s", "Mean", "Peak", "12.50%", "1 kB", "2 kB", "3 kB", "Memory (shared)"] {
        assert!(text.contains(word), "missing {word} in {text}");
    }
    assert_eq!(TableSummary.to_string(&r), Ok(text));
}

#[test]
fn textplot_formatter_flags() {
    let f = TextplotFormatter::new(true, false);
    assert!(f.memory());
    assert!(!f.cpu());
    let g = TextplotFormatter::new(false, true);
    assert!(!g.memory());
    assert!(g.cpu());
}

#[test]
fn join_tables_puts_line_break() {
    assert_eq!(memtrace::summary::join_tables("ab".to_string(), "cd"), "ab\ncd");
    assert_eq!(memtrace::summary::join_tables(String::new(), ""), "\n");
}

#[test]
fn built_table_renders_its_cells() {
    let r = Report::new(vec![(mem(1, 2, 3), 700), (mem(4, 5, 6), 100)], 0, 1);
    let (_, s) = summary_tables(&r).unwrap();
    let text = s.render();
    for word in ["CPU (%)", "Mean", "Peak", "4.00%", "7.00%", "2 B", "5 B"] {
        assert!(text.contains(word), "missing {word} in {text}");
    }
}
