use secprobe::terminal::{severity_style, terminal_report_lines, Color, Paint, Segment};
use secprobe::types::{Finding, Language, ScanResult, Severity};

fn text(lines: &Vec<Vec<Segment>>) -> Vec<String> {
    lines.iter().map(|l| l.iter().map(|s| s.text.as_str()).collect::<String>()).collect()
}

fn result(findings: Vec<Finding>) -> ScanResult {
    ScanResult {
        project_path: "/p".to_string(),
        total_files: 3,
        scanned_files: 2,
        findings,
        scan_duration_ms: 5,
        languages: vec![(Language::Python, 2), (Language::Go, 1)],
    }
}

#[test]
fn clean_scan_report() {
    let lines = terminal_report_lines(&result(vec![]));
    let t = text(&lines);
    assert_eq!(t[0], "");
    assert_eq!(t[2], "  SecProbe - AI Security Audit Tool");
    assert_eq!(t[5], "Project:  /p");
    assert_eq!(t[6], "Files:  2 / 3 scanned");
    assert_eq!(t[7], "Duration:  5 ms");
    assert_eq!(t[8], "Languages: Python: 2, Go: 1");
    assert_eq!(t[11], "  0 Critical  0 High  0 Medium  0 Low  0 Info");
    assert_eq!(t[13], "  No security issues found!");
    assert_eq!(t.len(), 15);
    assert_eq!(lines[13][0].paint, Paint { color: Some(Color::Green), bold: true, dimmed: false });
}

#[test]
fn findings_report() {
    let f = Finding {
        id: "F-0001".to_string(),
        rule_id: "SEC-010".to_string(),
        title: "XSS".to_string(),
        description: "d".to_string(),
        severity: Severity::High,
        confidence_percent: 85,
        file: "a.js".to_string(),
        line: 2,
        column: 3,
        code_snippet: "     1 | x\n>    2 | y".to_string(),
        language: Language::JavaScript,
        cwe_id: Some("CWE-79".to_string()),
        owasp_category: Some("A03".to_string()),
        fix_suggestion: "escape".to_string(),
        fix_code: Some("a\nb".to_string()),
    };
    let lines = terminal_report_lines(&result(vec![f]));
    let t = text(&lines);
    let start = t.iter().position(|l| l.starts_with("─── Findings")).unwrap();
    assert_eq!(
        &t[start + 1..],
        &[
            "",
            "  [1/1] HIGH XSS (SEC-010)",
            "  CWE-79 | A03",
            "  Location: a.js:2",
            "",
            "         1 | x",
            "    >    2 | y",
            "",
            "  Fix: escape",
            "",
            "    Recommended code:",
            "    a",
            "    b",
            "",
            "══════════════════════════════════════════════════════════",
            "  Total: 1 issues (0 critical, 1 high, 0 medium, 0 low)",
            "══════════════════════════════════════════════════════════",
            "",
        ]
    );
    let hit = &lines[start + 7][1];
    assert_eq!(hit.paint.color, Some(Color::Red));
    assert!(lines[start + 6][1].paint.dimmed);
}

#[test]
fn severity_paints() {
    assert_eq!(severity_style(Severity::Critical), Paint { color: Some(Color::Red), bold: true, dimmed: false });
    assert_eq!(severity_style(Severity::Medium), Paint { color: Some(Color::Cyan), bold: false, dimmed: false });
    assert_eq!(severity_style(Severity::Info), Paint { color: None, bold: false, dimmed: true });
}
