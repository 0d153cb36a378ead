use secprobe::rules::{all_rules, compile_rules};
use secprobe::scanner::{
    build_scan_result, classify_file, finding_id, is_skipped_dir, scan_file, snippet, summarize_languages,
    within_size_limit, MAX_FILE_SIZE,
};
use secprobe::scanner::{collect_findings, try_scan_file, find_hits, findings_from_hits, make_finding, rules_of};
use secprobe::text::split_lines;
use secprobe::types::{Language, Severity};

#[test]
fn innerhtml_line_gives_one_finding() {
    let rules = compile_rules(&all_rules());
    let content = "const a = 1;\nel.innerHTML = userInput;\nfoo();\n";
    let fs = scan_file("src/app.js", Language::JavaScript, content, &rules);
    assert_eq!(fs.len(), 1);
    let f = &fs[0];
    assert_eq!(f.id, "F-0001");
    assert_eq!(f.rule_id, "SEC-010");
    assert_eq!(f.severity, Severity::High);
    assert_eq!(f.confidence_percent, 85);
    assert_eq!(f.file, "src/app.js");
    assert_eq!(f.line, 2);
    assert_eq!(f.column, 3);
    assert_eq!(f.language, Language::JavaScript);
    assert_eq!(f.cwe_id.as_deref(), Some("CWE-79"));
    assert_eq!(f.owasp_category.as_deref(), Some("A03:2021-Injection"));
    assert!(f.fix_code.is_some());
    assert_eq!(
        f.code_snippet,
        "     1 | const a = 1;\n>    2 | el.innerHTML = userInput;\n     3 | foo();"
    );
}

#[test]
fn rules_for_other_languages_do_not_fire() {
    let rules = compile_rules(&all_rules());
    let content = "el.innerHTML = userInput;\n";
    assert_eq!(scan_file("a.py", Language::Python, content, &rules).len(), 0);
    assert_eq!(scan_file("a.go", Language::Go, content, &rules).len(), 0);
    assert_eq!(scan_file("a.rs", Language::Rust, content, &rules).len(), 0);
}

#[test]
fn findings_are_numbered_rule_after_rule() {
    let rules = compile_rules(&all_rules());
    let content = "import pickle\ndata = pickle.loads(blob)\ncursor.execute(f\"SELECT {x}\")\nh = hashlib.md5(b)\n";
    let fs = scan_file("x.py", Language::Python, content, &rules);
    let ids: Vec<&str> = fs.iter().map(|f| f.id.as_str()).collect();
    let rule_ids: Vec<&str> = fs.iter().map(|f| f.rule_id.as_str()).collect();
    assert_eq!(rule_ids, vec!["SEC-002", "SEC-060"]);
    assert_eq!(ids, vec!["F-0001", "F-0002"]);
    assert_eq!(fs[0].line, 3);
    assert_eq!(fs[1].line, 2);
    assert_eq!(fs[1].column, 8);
}

#[test]
fn crlf_lines_and_snippet_edges() {
    let rules = compile_rules(&all_rules());
    let content = "document.write(x)\r\nok\r\n";
    let fs = scan_file("w.ts", Language::TypeScript, content, &rules);
    assert_eq!(fs.len(), 1);
    assert_eq!(fs[0].line, 1);
    assert_eq!(fs[0].code_snippet, ">    1 | document.write(x)\n     2 | ok");
}

#[test]
fn empty_file_has_no_findings() {
    let rules = compile_rules(&all_rules());
    assert_eq!(scan_file("e.js", Language::JavaScript, "", &rules).len(), 0);
}

#[test]
fn finding_ids_are_zero_padded() {
    assert_eq!(finding_id(1), "F-0001");
    assert_eq!(finding_id(42), "F-0042");
    assert_eq!(finding_id(12345), "F-12345");
}

#[test]
fn snippet_window_is_two_lines_each_side() {
    let lines: Vec<String> = (1..=12).map(|i| format!("l{i}")).collect();
    assert_eq!(
        snippet(&lines, 9),
        "     8 | l8\n     9 | l9\n>   10 | l10\n    11 | l11\n    12 | l12"
    );
    assert_eq!(snippet(&lines, 0), ">    1 | l1\n     2 | l2\n     3 | l3");
    assert_eq!(snippet(&lines, 11), "    10 | l10\n    11 | l11\n>   12 | l12");
}

#[test]
fn skipped_directories() {
    for d in [
        "node_modules", ".git", "target", "__pycache__", ".venv", "vendor", "dist", "build", ".next", ".nuxt",
        "coverage", ".idea", ".vscode", ".cursor",
    ] {
        assert!(is_skipped_dir(d), "{d}");
    }
    assert!(!is_skipped_dir("src"));
    assert!(!is_skipped_dir("Build"));
    assert!(!is_skipped_dir(""));
}

#[test]
fn size_limit_and_classification() {
    assert_eq!(MAX_FILE_SIZE, 1_048_576);
    assert!(within_size_limit(0));
    assert!(within_size_limit(1_048_575));
    assert!(!within_size_limit(1_048_576));
    assert_eq!(classify_file("js", 10), Some(Language::JavaScript));
    assert_eq!(classify_file("js", 1_048_576), None);
    assert_eq!(classify_file("md", 10), None);
    assert_eq!(classify_file("rs", 10), Some(Language::Rust));
}

#[test]
fn languages_most_frequent_first() {
    let ls = vec![
        Language::Python,
        Language::Go,
        Language::Python,
        Language::JavaScript,
        Language::Go,
        Language::Python,
        Language::Unknown,
    ];
    let s = summarize_languages(&ls);
    assert_eq!(s, vec![(Language::Python, 3), (Language::Go, 2), (Language::JavaScript, 1)]);
    let total: usize = s.iter().map(|e| e.1).sum();
    let r = build_scan_result("/proj".to_string(), &ls, vec![], 12);
    assert_eq!(r.total_files, 7);
    assert_eq!(r.scanned_files, 6);
    assert_eq!(total, r.scanned_files);
    assert_eq!(r.languages, s);
    assert_eq!(r.project_path, "/proj");
    assert_eq!(r.scan_duration_ms, 12);
}

#[test]
fn language_ties_keep_declaration_order() {
    let ls = vec![Language::Php, Language::Java, Language::TypeScript];
    assert_eq!(
        summarize_languages(&ls),
        vec![(Language::TypeScript, 1), (Language::Java, 1), (Language::Php, 1)]
    );
    assert!(summarize_languages(&vec![]).is_empty());
}

#[test]
fn hits_then_findings() {
    let compiled = compile_rules(&all_rules());
    let lines = split_lines("x = 1\ny = eval(req.body)\nel.innerHTML = 2\n");
    let hits = find_hits(Language::JavaScript, &lines, &compiled);
    let rules = rules_of(&compiled);
    let ids: Vec<&str> = hits.iter().map(|h| rules[h.0].id).collect();
    assert_eq!(ids, vec!["SEC-010", "SEC-060"]);
    assert_eq!((hits[0].1, hits[0].2), (2, 2));
    assert_eq!((hits[1].1, hits[1].2), (1, 4));
    let fs = findings_from_hits("f.js", Language::JavaScript, &lines, &rules, &hits);
    assert_eq!(fs.len(), 2);
    assert_eq!(fs[1].id, "F-0002");
    assert_eq!(fs[1].line, 2);
    assert_eq!(fs[1].column, 5);
    let f = make_finding("f.js", Language::JavaScript, &rules[0], &lines, 0, 0, 9);
    assert_eq!(f.id, "F-0009");
    assert_eq!(f.rule_id, "SEC-001");
    assert_eq!(f.column, 1);
    assert_eq!(f.code_snippet, ">    1 | x = 1\n     2 | y = eval(req.body)\n     3 | el.innerHTML = 2");
    let f = make_finding("f.js", Language::JavaScript, &rules[0], &lines, 1, 41, 1);
    assert_eq!(f.column, 42);
}

#[test]
fn checked_scan_agrees_with_scan() {
    let rules = compile_rules(&all_rules());
    let content = "a\nel.innerHTML = b\ndocument.write(c)\n";
    let checked = try_scan_file("t.js", Language::JavaScript, content, &rules).unwrap();
    let plain = scan_file("t.js", Language::JavaScript, content, &rules);
    assert_eq!(checked.len(), 2);
    assert_eq!(checked.len(), plain.len());
    for (a, b) in checked.iter().zip(&plain) {
        assert_eq!((a.id.as_str(), a.line, a.column), (b.id.as_str(), b.line, b.column));
    }
    assert_eq!(checked[1].column, 1);
}

#[test]
fn project_findings_keep_file_order() {
    let rules = compile_rules(&all_rules());
    let a = scan_file("a.js", Language::JavaScript, "el.innerHTML = x;\n", &rules);
    let b = scan_file("b.js", Language::JavaScript, "ok();\nel.innerHTML = y;\n", &rules);
    assert!(!a.is_empty() && !b.is_empty());
    let (na, nb) = (a.len(), b.len());
    let ls = vec![Language::JavaScript, Language::JavaScript];
    let r = build_scan_result("/p".to_string(), &ls, vec![a, vec![], b], 1);
    assert_eq!(r.findings.len(), na + nb);
    assert!(r.findings[..na].iter().all(|f| f.file == "a.js"));
    assert!(r.findings[na..].iter().all(|f| f.file == "b.js"));
    assert_eq!(collect_findings(vec![vec![], vec![]]).len(), 0);
}
