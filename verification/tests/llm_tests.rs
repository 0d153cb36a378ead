use secprobe::llm::{analyze_findings, build_analysis_prompt, pending_analysis, LlmConfig, LlmEnv, LlmProvider};
use secprobe::types::{Finding, Language, Severity};

fn env() -> LlmEnv {
    LlmEnv {
        openai_api_key: None,
        openai_model: None,
        openai_base_url: None,
        anthropic_api_key: None,
        anthropic_model: "anthropic-default".to_string(),
        deepseek_api_key: None,
    }
}

fn finding(line: usize) -> Finding {
    Finding {
        id: "F-0003".to_string(),
        rule_id: "SEC-060".to_string(),
        title: "Unsafe deserialization".to_string(),
        description: "pickle on untrusted data".to_string(),
        severity: Severity::Critical,
        confidence_percent: 85,
        file: "app.py".to_string(),
        line,
        column: 1,
        code_snippet: String::new(),
        language: Language::Python,
        cwe_id: Some("CWE-502".to_string()),
        owasp_category: None,
        fix_suggestion: "use json".to_string(),
        fix_code: None,
    }
}

#[test]
fn default_config() {
    let c = LlmConfig::default();
    assert_eq!(c.provider, LlmProvider::OpenAI);
    assert_eq!(c.api_key, "");
    assert_eq!(c.model, "gpt-4o-mini");
    assert!(c.base_url.is_none());
}

#[test]
fn no_key_no_config() {
    assert!(LlmConfig::from_env(env()).is_none());
}

#[test]
fn openai_key_wins() {
    let mut e = env();
    e.openai_api_key = Some("k1".to_string());
    e.anthropic_api_key = Some("k2".to_string());
    e.deepseek_api_key = Some("k3".to_string());
    let c = LlmConfig::from_env(e).unwrap();
    assert_eq!(c.provider, LlmProvider::OpenAI);
    assert_eq!(c.api_key, "k1");
    assert_eq!(c.model, "gpt-4o-mini");
    assert!(c.base_url.is_none());
    let mut e = env();
    e.openai_api_key = Some("k1".to_string());
    e.openai_model = Some("gpt-x".to_string());
    e.openai_base_url = Some("http://local".to_string());
    let c = LlmConfig::from_env(e).unwrap();
    assert_eq!(c.model, "gpt-x");
    assert_eq!(c.base_url.as_deref(), Some("http://local"));
}

#[test]
fn anthropic_then_deepseek() {
    let mut e = env();
    e.anthropic_api_key = Some("k2".to_string());
    e.deepseek_api_key = Some("k3".to_string());
    let c = LlmConfig::from_env(e).unwrap();
    assert_eq!(c.provider, LlmProvider::Anthropic);
    assert_eq!(c.api_key, "k2");
    assert_eq!(c.model, "anthropic-default");
    assert!(c.base_url.is_none());
    let mut e = env();
    e.deepseek_api_key = Some("k3".to_string());
    let c = LlmConfig::from_env(e).unwrap();
    assert_eq!(c.provider, LlmProvider::DeepSeek);
    assert_eq!(c.api_key, "k3");
    assert_eq!(c.model, "deepseek-chat");
    assert_eq!(c.base_url.as_deref(), Some("https://api.deepseek.com"));
}

#[test]
fn prompt_shows_context_and_fields() {
    let content: String = (1..=40).map(|i| format!("line {i}\n")).collect();
    let p = build_analysis_prompt(&finding(20), &content);
    assert!(p.starts_with("You are a senior security researcher."));
    assert!(p.contains("- **Rule**: Unsafe deserialization (SEC-060)\n- **Severity**: Critical\n- **File**: app.py:20\n- **CWE**: CWE-502\n- **OWASP**: N/A\n"));
    assert!(p.contains("## Code Context (lines 6-35)\n```\n   6 | line 6\n"));
    assert!(p.contains("  35 | line 35\n```\n\n## Description\npickle on untrusted data\n\n## Task\n"));
    assert!(!p.contains("line 36"));
    assert!(p.ends_with("\"reasoning\": \"...\"\n}\n```"));
}

#[test]
fn prompt_near_file_start() {
    let p = build_analysis_prompt(&finding(2), "a\nb\nc\n");
    assert!(p.contains("## Code Context (lines 1-3)\n```\n   1 | a\n   2 | b\n   3 | c\n```"));
}

#[test]
fn pending_analysis_fields() {
    let a = pending_analysis(&finding(1));
    assert_eq!(a.finding_id, "F-0003");
    assert_eq!(a.exploitability, "pending_llm_call");
    assert_eq!(a.detailed_fix, "use json");
    assert_eq!(a.confidence_adjustment_percent, 85);
    assert!(!a.is_false_positive);
}

#[test]
fn unreadable_files_are_skipped() {
    let fs = vec![finding(1), finding(2)];
    let contents = vec![None, Some("x\ny\n".to_string())];
    let cfg = LlmConfig::default();
    let out = analyze_findings(&fs, &contents, &cfg);
    assert_eq!(out.len(), 1);
    assert_eq!(out[0].finding_id, "F-0003");
}

#[test]
fn analyses_ignore_the_configuration() {
    let fs = vec![finding(1), finding(2)];
    let contents = vec![Some("a\nb\n".to_string()), Some("x\ny\n".to_string())];
    let mut e = env();
    e.deepseek_api_key = Some("k3".to_string());
    let other = LlmConfig::from_env(e).unwrap();
    let a = analyze_findings(&fs, &contents, &LlmConfig::default());
    let b = analyze_findings(&fs, &contents, &other);
    assert_eq!(a.len(), b.len());
    for (x, y) in a.iter().zip(b.iter()) {
        assert_eq!(x.finding_id, y.finding_id);
        assert_eq!(x.exploitability, y.exploitability);
        assert_eq!(x.impact, y.impact);
        assert_eq!(x.attack_scenario, y.attack_scenario);
        assert_eq!(x.detailed_fix, y.detailed_fix);
        assert_eq!(x.confidence_adjustment_percent, y.confidence_adjustment_percent);
        assert_eq!(x.is_false_positive, y.is_false_positive);
        assert_eq!(x.reasoning, y.reasoning);
    }
}
