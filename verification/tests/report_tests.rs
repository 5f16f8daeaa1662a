use sysreport::report::{Line, LineKind, Report, Stream};

#[test]
fn new_report_is_empty() {
    let report = Report::new();
    assert_eq!(report.len(), 0);
    assert!(report.lines.is_empty());
    assert_eq!(report.count(LineKind::Process), 0);
    assert_eq!(report.count_on(Stream::Standard), 0);
}

#[test]
fn standard_and_diagnostic_lines() {
    let a = Line::standard(LineKind::Disk, String::from("d"));
    assert_eq!(a, Line { stream: Stream::Standard, kind: LineKind::Disk, text: String::from("d") });
    let b = Line::diagnostic(LineKind::PlatformDiscoveryFailure, String::from("f"));
    assert_eq!(
        b,
        Line {
            stream: Stream::Diagnostic,
            kind: LineKind::PlatformDiscoveryFailure,
            text: String::from("f"),
        }
    );
}

#[test]
fn push_adds_at_the_end() {
    let mut report = Report::new();
    report.push(Line::standard(LineKind::Disk, String::from("one")));
    report.push(Line::standard(LineKind::Network, String::from("two")));
    report.push(Line::diagnostic(LineKind::DeviceDiscoveryFailure, String::from("three")));
    assert_eq!(report.len(), 3);
    assert_eq!(report.lines[0].text, "one");
    assert_eq!(report.lines[1].text, "two");
    assert_eq!(report.lines[2].text, "three");
}

#[test]
fn append_keeps_both_orders() {
    let mut first = Report::new();
    first.push(Line::standard(LineKind::Disk, String::from("a")));
    first.push(Line::standard(LineKind::Disk, String::from("b")));
    let mut second = Report::new();
    second.push(Line::standard(LineKind::Network, String::from("c")));
    second.push(Line::standard(LineKind::Disk, String::from("d")));
    first.append(second);
    let texts: Vec<&str> = first.lines.iter().map(|line| line.text.as_str()).collect();
    assert_eq!(texts, vec!["a", "b", "c", "d"]);
    first.append(Report::new());
    assert_eq!(first.len(), 4);
}

#[test]
fn count_by_kind_and_by_stream() {
    let mut report = Report::new();
    report.push(Line::standard(LineKind::Process, String::from("p1")));
    report.push(Line::diagnostic(LineKind::DeviceDiscoveryFailure, String::from("f")));
    report.push(Line::standard(LineKind::Process, String::from("p2")));
    report.push(Line::standard(LineKind::Disk, String::from("d")));
    assert_eq!(report.count(LineKind::Process), 2);
    assert_eq!(report.count(LineKind::Disk), 1);
    assert_eq!(report.count(LineKind::DeviceDiscoveryFailure), 1);
    assert_eq!(report.count(LineKind::Network), 0);
    assert_eq!(report.count_on(Stream::Standard), 3);
    assert_eq!(report.count_on(Stream::Diagnostic), 1);
}
