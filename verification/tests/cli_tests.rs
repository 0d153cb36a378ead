use secprobe::cli::{parse_severity, retain_min_severity, severity_tag, severity_value};
use secprobe::types::{Finding, Language, Severity};

fn finding(id: &str, sev: Severity) -> Finding {
    Finding {
        id: id.to_string(),
        rule_id: "SEC-001".to_string(),
        title: "t".to_string(),
        description: "d".to_string(),
        severity: sev,
        confidence_percent: 85,
        file: "a.js".to_string(),
        line: 1,
        column: 1,
        code_snippet: String::new(),
        language: Language::JavaScript,
        cwe_id: None,
        owasp_category: None,
        fix_suggestion: "f".to_string(),
        fix_code: None,
    }
}

#[test]
fn severity_names() {
    assert_eq!(parse_severity("critical"), Severity::Critical);
    assert_eq!(parse_severity("CRITICAL"), Severity::Critical);
    assert_eq!(parse_severity("High"), Severity::High);
    assert_eq!(parse_severity("medium"), Severity::Medium);
    assert_eq!(parse_severity("MED"), Severity::Medium);
    assert_eq!(parse_severity("low"), Severity::Low);
    assert_eq!(parse_severity("info"), Severity::Info);
    assert_eq!(parse_severity("whatever"), Severity::Info);
    assert_eq!(parse_severity(""), Severity::Info);
    assert_eq!(parse_severity(" high"), Severity::Info);
}

#[test]
fn labels_read_back() {
    for s in [Severity::Critical, Severity::High, Severity::Medium, Severity::Low, Severity::Info] {
        assert_eq!(parse_severity(s.label()), s);
    }
}

#[test]
fn severity_values_rank() {
    assert_eq!(severity_value(Severity::Critical), 0);
    assert_eq!(severity_value(Severity::High), 1);
    assert_eq!(severity_value(Severity::Medium), 2);
    assert_eq!(severity_value(Severity::Low), 3);
    assert_eq!(severity_value(Severity::Info), 4);
}

#[test]
fn minimum_severity_filter() {
    let mut fs = vec![
        finding("a", Severity::Low),
        finding("b", Severity::Critical),
        finding("c", Severity::Info),
        finding("d", Severity::Medium),
        finding("e", Severity::High),
    ];
    retain_min_severity(&mut fs, Severity::Medium);
    let ids: Vec<&str> = fs.iter().map(|f| f.id.as_str()).collect();
    assert_eq!(ids, vec!["b", "d", "e"]);
    retain_min_severity(&mut fs, Severity::Medium);
    assert_eq!(fs.len(), 3);
    retain_min_severity(&mut fs, Severity::Info);
    assert_eq!(fs.len(), 3);
    retain_min_severity(&mut fs, Severity::Critical);
    assert_eq!(fs.len(), 1);
    assert_eq!(fs[0].id, "b");
}

#[test]
fn rule_listing_tags() {
    assert_eq!(severity_tag(Severity::Critical), "CRIT");
    assert_eq!(severity_tag(Severity::Medium), "MED ");
    assert_eq!(severity_tag(Severity::Low), "LOW ");
}

#[test]
fn parsing_ignores_case() {
    for s in ["HIGH", "Critical", "MED", "mEdIuM", "LoW", "INFO", "other", "Hİgh", "\u{212A}"] {
        assert_eq!(parse_severity(s), parse_severity(&s.to_lowercase()), "{s}");
    }
    assert_eq!(parse_severity("HIGH"), Severity::High);
    assert_eq!(parse_severity("Critical"), Severity::Critical);
    assert_eq!(parse_severity("MED"), Severity::Medium);
}
