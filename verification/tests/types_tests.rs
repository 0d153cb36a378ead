use secprobe::types::{Finding, Language, ScanResult, Severity};

fn finding(sev: Severity) -> Finding {
    Finding {
        id: "F-0001".to_string(),
        rule_id: "SEC-001".to_string(),
        title: "t".to_string(),
        description: "d".to_string(),
        severity: sev,
        confidence_percent: 85,
        file: "a.js".to_string(),
        line: 1,
        column: 1,
        code_snippet: "> 1 | x".to_string(),
        language: Language::JavaScript,
        cwe_id: None,
        owasp_category: None,
        fix_suggestion: "f".to_string(),
        fix_code: None,
    }
}

fn result_with(sevs: &[Severity]) -> ScanResult {
    ScanResult {
        project_path: "/p".to_string(),
        total_files: 1,
        scanned_files: 1,
        findings: sevs.iter().map(|s| finding(*s)).collect(),
        scan_duration_ms: 3,
        languages: vec![],
    }
}

#[test]
fn extensions_map_to_languages() {
    for e in ["js", "jsx", "mjs", "cjs"] {
        assert_eq!(Language::from_extension(e), Language::JavaScript);
    }
    for e in ["ts", "tsx", "mts", "cts"] {
        assert_eq!(Language::from_extension(e), Language::TypeScript);
    }
    assert_eq!(Language::from_extension("py"), Language::Python);
    assert_eq!(Language::from_extension("pyw"), Language::Python);
    assert_eq!(Language::from_extension("go"), Language::Go);
    assert_eq!(Language::from_extension("java"), Language::Java);
    assert_eq!(Language::from_extension("rs"), Language::Rust);
    assert_eq!(Language::from_extension("php"), Language::Php);
}

#[test]
fn unknown_extensions() {
    assert_eq!(Language::from_extension(""), Language::Unknown);
    assert_eq!(Language::from_extension("JS"), Language::Unknown);
    assert_eq!(Language::from_extension("jsx2"), Language::Unknown);
    assert_eq!(Language::from_extension("txt"), Language::Unknown);
    assert_eq!(Language::from_extension("j"), Language::Unknown);
}

#[test]
fn labels() {
    assert_eq!(Severity::Critical.label(), "CRITICAL");
    assert_eq!(Severity::High.label(), "HIGH");
    assert_eq!(Severity::Medium.label(), "MEDIUM");
    assert_eq!(Severity::Low.label(), "LOW");
    assert_eq!(Severity::Info.label(), "INFO");
    assert_eq!(Severity::Medium.variant_name(), "Medium");
    assert_eq!(Language::Php.label(), "PHP");
    assert_eq!(Language::JavaScript.label(), "JavaScript");
    assert_eq!(Language::Unknown.label(), "Unknown");
}

#[test]
fn summary_counts_each_severity() {
    let r = result_with(&[
        Severity::Critical,
        Severity::High,
        Severity::High,
        Severity::Medium,
        Severity::Low,
        Severity::Info,
        Severity::Info,
        Severity::Info,
    ]);
    let s = r.summary();
    assert_eq!(s.critical, 1);
    assert_eq!(s.high, 2);
    assert_eq!(s.medium, 1);
    assert_eq!(s.low, 1);
    assert_eq!(s.info, 3);
    assert_eq!(s.total, 8);
    assert_eq!(s.critical + s.high + s.medium + s.low + s.info, s.total);
}

#[test]
fn summary_of_no_findings() {
    let s = result_with(&[]).summary();
    assert_eq!((s.critical, s.high, s.medium, s.low, s.info, s.total), (0, 0, 0, 0, 0, 0));
}

#[test]
fn summary_adds_up_over_concatenation() {
    let a = result_with(&[Severity::Critical, Severity::Low, Severity::Low]);
    let b = result_with(&[Severity::High, Severity::Low, Severity::Info]);
    let mut all = vec![Severity::Critical, Severity::Low, Severity::Low];
    all.extend_from_slice(&[Severity::High, Severity::Low, Severity::Info]);
    let c = result_with(&all);
    let (sa, sb, sc) = (a.summary(), b.summary(), c.summary());
    assert_eq!(sc.critical, sa.critical + sb.critical);
    assert_eq!(sc.high, sa.high + sb.high);
    assert_eq!(sc.medium, sa.medium + sb.medium);
    assert_eq!(sc.low, sa.low + sb.low);
    assert_eq!(sc.info, sa.info + sb.info);
    assert_eq!(sc.total, sa.total + sb.total);
    assert_eq!((sc.critical, sc.high, sc.low, sc.info, sc.total), (1, 1, 3, 1, 6));
}

#[test]
fn summary_ignores_order() {
    let a = result_with(&[Severity::Info, Severity::Critical, Severity::Medium, Severity::Critical]);
    let b = result_with(&[Severity::Critical, Severity::Medium, Severity::Critical, Severity::Info]);
    assert_eq!(a.summary(), b.summary());
}

#[test]
fn findings_and_results_clone_and_debug() {
    let r = result_with(&[Severity::High]);
    let c = r.clone();
    assert_eq!(c.findings.len(), 1);
    assert_eq!(c.findings[0].id, r.findings[0].id);
    assert_eq!(c.summary(), r.summary());
    assert!(format!("{:?}", c.findings[0]).contains("SEC-001"));
}
