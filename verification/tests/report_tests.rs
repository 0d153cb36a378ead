use secprobe::report::{export_html, html_escape, severity_order, severity_sorted_order, HTML_HEAD};
use secprobe::types::{Finding, Language, ScanResult, Severity};

fn finding(id: &str, sev: Severity, cwe: Option<&str>, fix: Option<&str>) -> Finding {
    Finding {
        id: id.to_string(),
        rule_id: format!("R-{id}"),
        title: format!("Title <{id}>"),
        description: "d".to_string(),
        severity: sev,
        confidence_percent: 85,
        file: "src/a.js".to_string(),
        line: 7,
        column: 1,
        code_snippet: ">    7 | a && \"b\"".to_string(),
        language: Language::JavaScript,
        cwe_id: cwe.map(|s| s.to_string()),
        owasp_category: Some("A03:2021-Injection".to_string()),
        fix_suggestion: "use <safe> & sound".to_string(),
        fix_code: fix.map(|s| s.to_string()),
    }
}

fn unescape(s: &str) -> String {
    s.replace("&quot;", "\"").replace("&gt;", ">").replace("&lt;", "<").replace("&amp;", "&")
}

fn escape(s: &str) -> String {
    s.replace('&', "&amp;").replace('<', "&lt;").replace('>', "&gt;").replace('"', "&quot;")
}

#[test]
fn escaping() {
    assert_eq!(html_escape("<a href=\"x\">&amp;</a>"), "&lt;a href=&quot;x&quot;&gt;&amp;amp;&lt;/a&gt;");
    assert_eq!(html_escape("plain 文字"), "plain 文字");
    assert_eq!(html_escape(""), "");
    for s in ["'\"<>&&", "x<y>z", "a\"b"] {
        let e = html_escape(s);
        assert_eq!(e, escape(s));
        assert!(!e.contains('<') && !e.contains('>') && !e.contains('"'));
    }
}

#[test]
fn order_ranks() {
    assert_eq!(severity_order(Severity::Critical), 0);
    assert_eq!(severity_order(Severity::Info), 4);
}

#[test]
fn sorted_order_is_stable() {
    let fs = vec![
        finding("0", Severity::Low, None, None),
        finding("1", Severity::Critical, None, None),
        finding("2", Severity::Info, None, None),
        finding("3", Severity::Low, None, None),
        finding("4", Severity::Critical, None, None),
        finding("5", Severity::Medium, None, None),
    ];
    assert_eq!(severity_sorted_order(&fs), vec![1, 4, 5, 0, 3, 2]);
    assert!(severity_sorted_order(&vec![]).is_empty());
}

fn expected_card(f: &Finding) -> String {
    let sev_class = match f.severity {
        Severity::Critical => "sev-critical",
        Severity::High => "sev-high",
        Severity::Medium => "sev-medium",
        _ => "sev-low",
    };
    let badge_class = sev_class.replace("sev-", "badge-");
    let mut h = format!("<div class=\"finding {sev_class}\">\n");
    h.push_str(&format!(
        "<div class=\"title\"><span class=\"badge {badge_class}\">{}</span> {} <small>({})</small></div>\n",
        f.severity.label(),
        escape(&f.title),
        f.rule_id
    ));
    if let (Some(cwe), Some(owasp)) = (&f.cwe_id, &f.owasp_category) {
        h.push_str(&format!("<div class=\"loc\">{cwe} | {owasp}</div>\n"));
    }
    h.push_str(&format!("<div class=\"loc\">{}:{}</div>\n", f.file, f.line));
    h.push_str(&format!("<pre>{}</pre>\n", escape(&f.code_snippet)));
    h.push_str(&format!("<div class=\"fix\">Fix: {}</div>\n", escape(&f.fix_suggestion)));
    if let Some(fix) = &f.fix_code {
        h.push_str(&format!("<pre style=\"border-left:3px solid #10b981;\">{}</pre>\n", escape(fix)));
    }
    h.push_str("</div>\n");
    h
}

#[test]
fn html_report_layout() {
    let result = ScanResult {
        project_path: "/work/proj".to_string(),
        total_files: 9,
        scanned_files: 8,
        findings: vec![
            finding("a", Severity::Medium, Some("CWE-1"), None),
            finding("b", Severity::Critical, None, Some("x < y")),
            finding("c", Severity::Info, Some("CWE-2"), None),
        ],
        scan_duration_ms: 41,
        languages: vec![(Language::JavaScript, 8)],
    };
    let html = export_html(&result);
    let mut expected = HTML_HEAD.to_string();
    expected.push_str("<div class=\"meta\">Project: /work/proj | Files: 8/9 | Duration: 41ms</div>\n");
    expected.push_str("<div class=\"stats\">\n");
    for (class, n, label) in [("critical", 1, "Critical"), ("high", 0, "High"), ("medium", 1, "Medium"), ("low", 0, "Low")] {
        expected.push_str(&format!(
            "<div class=\"stat {class}\"><div class=\"num\">{n}</div><div class=\"label\">{label}</div></div>\n"
        ));
    }
    expected.push_str("</div>\n<h2>Findings</h2>\n");
    for i in [1, 0, 2] {
        expected.push_str(&expected_card(&result.findings[i]));
    }
    expected.push_str("</div>\n</body>\n</html>");
    assert_eq!(html, expected);
    assert!(html.starts_with("<!DOCTYPE html>\n<html lang=\"zh-CN\">"));
    assert!(html.contains("<title>SecProbe Security Audit Report</title>"));
}

#[test]
fn html_report_without_findings() {
    let result = ScanResult {
        project_path: "p".to_string(),
        total_files: 0,
        scanned_files: 0,
        findings: vec![],
        scan_duration_ms: 0,
        languages: vec![],
    };
    let html = export_html(&result);
    assert!(html.ends_with("<h2>Findings</h2>\n</div>\n</body>\n</html>"));
}

#[test]
fn escaped_text_decodes_back() {
    for s in ["", "&lt;", "&amp;quot;", "a & b < c > d \" e", "&&&;;<<", "文字&\"&quot;"] {
        assert_eq!(unescape(&html_escape(s)), s);
    }
    assert_ne!(html_escape("&lt;"), html_escape("<"));
}
