use secprobe::rules::{all_rules, compile_rule, compile_rules};
use secprobe::types::{Language, Severity};
use std::collections::HashSet;

#[test]
fn catalogue_has_twenty_eight_rules() {
    assert_eq!(all_rules().len(), 28);
}

#[test]
fn catalogue_ids_are_unique_and_in_order() {
    let rules = all_rules();
    let ids: Vec<&str> = rules.iter().map(|r| r.id).collect();
    let set: HashSet<&str> = ids.iter().cloned().collect();
    assert_eq!(set.len(), ids.len());
    assert_eq!(ids[0], "SEC-001");
    assert_eq!(ids[27], "SEC-401");
}

#[test]
fn catalogue_entries_match_the_rule_table() {
    let rules = all_rules();
    let find = |id: &str| rules.iter().find(|r| r.id == id).unwrap().clone();
    let r = find("SEC-010");
    assert_eq!(r.severity, Severity::High);
    assert_eq!(r.cwe_id, Some("CWE-79"));
    assert_eq!(r.languages, &[Language::JavaScript, Language::TypeScript]);
    let all = [
        Language::JavaScript,
        Language::TypeScript,
        Language::Python,
        Language::Go,
        Language::Java,
        Language::Rust,
        Language::Php,
    ];
    let r = find("SEC-040");
    assert_eq!(r.cwe_id, Some("CWE-798"));
    assert_eq!(r.languages, &all);
    let r = find("SEC-050");
    assert_eq!(r.cwe_id, Some("CWE-327"));
    assert_eq!(r.languages, &all);
    let r = find("SEC-180");
    assert_eq!(r.severity, Severity::Low);
    let r = find("SEC-401");
    assert_eq!(r.languages, &[Language::Java]);
    assert_eq!(r.severity, Severity::Critical);
}

#[test]
fn every_pattern_compiles() {
    let rules = all_rules();
    for r in &rules {
        assert!(compile_rule(r).is_some(), "{} should compile", r.id);
    }
    let compiled = compile_rules(&rules);
    assert_eq!(compiled.len(), 28);
    assert_eq!(compiled[0].rule().id, "SEC-001");
    assert_eq!(compiled[21].rule().id, "SEC-190");
}

#[test]
fn insecure_cookie_rule() {
    let rules = all_rules();
    let c = compile_rule(rules.iter().find(|r| r.id == "SEC-190").unwrap()).unwrap();
    assert_eq!(c.find_in("app.use(session({ name: 'sid', maxAge: 1 }))"), Some(8));
    assert_eq!(c.find_in("res.cookie({ path: '/' })"), Some(4));
    assert_eq!(c.find_in("app.use(session({ httpOnly: true }))"), None);
    assert_eq!(c.find_in("res.cookie({ secure: true, path: '/' })"), None);
    assert_eq!(c.find_in("res.cookie({ sameSite: 'strict' })"), None);
    assert_eq!(c.find_in("res.cookie({ http: 1, sec: 2, same: 3, secur: 4 })"), Some(4));
    assert_eq!(c.find_in("cookie({ x: 1 }"), Some(0));
    assert_eq!(c.find_in("cookie({ x: 1 )"), None);
    assert_eq!(c.find_in("opts = { secure: false }"), Some(9));
    assert_eq!(c.find_in("{ httpOnly : false }"), Some(2));
}

#[test]
fn compiled_rule_finds_match_start() {
    let rules = all_rules();
    let xss = rules.iter().find(|r| r.id == "SEC-010").unwrap();
    let c = compile_rule(xss).unwrap();
    assert_eq!(c.find_in("el.innerHTML = x"), Some(2));
    assert_eq!(c.find_in("el.textContent = x"), None);
    assert_eq!(c.find_in("日本 document.write(a)"), Some(7));
}

#[test]
fn compiled_rule_matches_its_own_pattern() {
    let mut a = all_rules()[0];
    a.pattern = r"abc";
    let mut b = a;
    b.pattern = r"xyz";
    let ca = compile_rule(&a).unwrap();
    let cb = compile_rule(&b).unwrap();
    assert_eq!(ca.rule().pattern, "abc");
    assert_eq!(ca.find_in("..abc..xyz"), Some(2));
    assert_eq!(cb.find_in("..abc..xyz"), Some(7));
    let mut bad = a;
    bad.pattern = r"(?=x)";
    assert!(compile_rule(&bad).is_none());
}
