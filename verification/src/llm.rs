//! Settings for optional language-model review of findings, the prompt
//! that review would send, and the placeholder analysis given meanwhile.
use vstd::prelude::*;
use crate::text::{decimal, pad_left, lines_of, push_decimal, push_padded_decimal, split_lines, string_views};
use crate::types::{Finding, severity_variant_name};
use crate::scanner::opt_string_view;

verus! {

broadcast use vstd::string::group_string_axioms;

/// The language-model services the tool can talk to.
#[derive(Debug, Clone, Copy, PartialEq, Eq, Structural)]
pub enum LlmProvider {
    OpenAI,
    Anthropic,
    DeepSeek,
    Custom,
}

/// Which service to use, with what key and model.
#[derive(Debug, Clone)]
pub struct LlmConfig {
    pub provider: LlmProvider,
    pub api_key: String,
    pub model: String,
    pub base_url: Option<String>,
}

impl Default for LlmConfig {
    fn default() -> (r: Self)
        ensures
            r.provider == LlmProvider::OpenAI,
            r.api_key@ == Seq::<char>::empty(),
            r.model@ == "gpt-4o-mini"@,
            r.base_url is None,
    {
        LlmConfig {
            provider: LlmProvider::OpenAI,
            api_key: String::new(),
            model: "gpt-4o-mini".to_string(),
            base_url: None,
        }
    }
}

/// The environment variables the configuration is read from, each `None`
/// when unset (or not valid Unicode).
pub struct LlmEnv {
    /// `OPENAI_API_KEY`
    pub openai_api_key: Option<String>,
    /// `OPENAI_MODEL`
    pub openai_model: Option<String>,
    /// `OPENAI_BASE_URL`
    pub openai_base_url: Option<String>,
    /// `ANTHROPIC_API_KEY`
    pub anthropic_api_key: Option<String>,
    /// `ANTHROPIC_MODEL`, as the caller resolved it (the caller supplies the
    /// model to use when the variable is unset)
    pub anthropic_model: String,
    /// `DEEPSEEK_API_KEY`
    pub deepseek_api_key: Option<String>,
}

/// `o`'s text, or `default` when there is none.
pub open spec fn text_or(o: Option<Seq<char>>, default: Seq<char>) -> Seq<char> {
    match o {
        Some(s) => s,
        None => default,
    }
}

fn string_or(o: Option<String>, default: &str) -> (r: String)
    ensures
        r@ == text_or(opt_string_view(o), default@),
{
    match o {
        Some(s) => s,
        None => default.to_string(),
    }
}

impl LlmConfig {
    /// The configuration the environment selects: an OpenAI key wins over
    /// an Anthropic key, which wins over a DeepSeek key; `None` without any.
    pub fn from_env(env: LlmEnv) -> (r: Option<LlmConfig>)
        ensures
            match (opt_string_view(env.openai_api_key), opt_string_view(env.anthropic_api_key), opt_string_view(env.deepseek_api_key)) {
                (Some(key), _, _) => r matches Some(c) && c.provider == LlmProvider::OpenAI && c.api_key@ == key
                    && c.model@ == text_or(opt_string_view(env.openai_model), "gpt-4o-mini"@)
                    && opt_string_view(c.base_url) == opt_string_view(env.openai_base_url),
                (None, Some(key), _) => r matches Some(c) && c.provider == LlmProvider::Anthropic && c.api_key@ == key
                    && c.model@ == env.anthropic_model@
                    && c.base_url is None,
                (None, None, Some(key)) => r matches Some(c) && c.provider == LlmProvider::DeepSeek && c.api_key@ == key
                    && c.model@ == "deepseek-chat"@
                    && opt_string_view(c.base_url) == Some("https://api.deepseek.com"@),
                (None, None, None) => r is None,
            },
    {
        let LlmEnv { openai_api_key, openai_model, openai_base_url, anthropic_api_key, anthropic_model, deepseek_api_key } = env;
        if let Some(key) = openai_api_key {
            return Some(LlmConfig {
                provider: LlmProvider::OpenAI,
                api_key: key,
                model: string_or(openai_model, "gpt-4o-mini"),
                base_url: openai_base_url,
            });
        }
        if let Some(key) = anthropic_api_key {
            return Some(LlmConfig {
                provider: LlmProvider::Anthropic,
                api_key: key,
                model: anthropic_model,
                base_url: None,
            });
        }
        if let Some(key) = deepseek_api_key {
            return Some(LlmConfig {
                provider: LlmProvider::DeepSeek,
                api_key: key,
                model: "deepseek-chat".to_string(),
                base_url: Some("https://api.deepseek.com".to_string()),
            });
        }
        None
    }
}

/// An assessment of one finding.
#[derive(Debug, Clone)]
pub struct DeepAnalysis {
    pub finding_id: String,
    pub exploitability: String,
    pub impact: String,
    pub attack_scenario: String,
    pub detailed_fix: String,
    /// Adjusted confidence in hundredths.
    pub confidence_adjustment_percent: u32,
    pub is_false_positive: bool,
    pub reasoning: String,
}

/// The assessment given while no language model is called: the finding's
/// own fix suggestion and confidence, marked as pending.
pub fn pending_analysis(f: &Finding) -> (r: DeepAnalysis)
    ensures
        r.finding_id@ == f.id@,
        r.exploitability@ == "pending_llm_call"@,
        r.impact@ == "pending_llm_call"@,
        r.attack_scenario@ == "LLM analysis not yet implemented — run with --llm flag after setting API key"@,
        r.detailed_fix@ == f.fix_suggestion@,
        r.confidence_adjustment_percent == f.confidence_percent,
        !r.is_false_positive,
        r.reasoning@ == "Static analysis only — LLM deep analysis requires API key configuration"@,
{
    DeepAnalysis {
        finding_id: f.id.clone(),
        exploitability: "pending_llm_call".to_string(),
        impact: "pending_llm_call".to_string(),
        attack_scenario: "LLM analysis not yet implemented — run with --llm flag after setting API key".to_string(),
        detailed_fix: f.fix_suggestion.clone(),
        confidence_adjustment_percent: f.confidence_percent,
        is_false_positive: false,
        reasoning: "Static analysis only — LLM deep analysis requires API key configuration".to_string(),
    }
}

/// First line of the context around a finding: fifteen lines above it.
pub open spec fn context_start(line: usize) -> int {
    if line >= 15 { line - 15 } else { 0 }
}

/// One past the last context line: fifteen lines below the finding, or the
/// end of the file.
pub open spec fn context_end(line: usize, n_lines: nat) -> int {
    if line + 15 <= n_lines { line + 15 } else { n_lines as int }
}

/// Line `i` (0-based) of the context: its 1-based number right-aligned in
/// four columns, a bar, and the text.
pub open spec fn context_line(lines: Seq<Seq<char>>, i: int) -> Seq<char> {
    pad_left(decimal((i + 1) as nat), 4, ' ') + " | "@ + lines[i]
}

/// Context lines `start..end`, joined by newlines.
pub open spec fn context_range(lines: Seq<Seq<char>>, start: int, end: int) -> Seq<char>
    decreases end - start,
{
    if end <= start {
        seq![]
    } else if end == start + 1 {
        context_line(lines, start)
    } else {
        context_range(lines, start, end - 1) + "\n"@ + context_line(lines, end - 1)
    }
}

/// The prompt asking for a review of `f`, shown with the lines of its file
/// around it.
pub open spec fn analysis_prompt(f: Finding, lines: Seq<Seq<char>>) -> Seq<char> {
    let start = context_start(f.line);
    let end = context_end(f.line, lines.len());
    "You are a senior security researcher. Analyze this potential vulnerability finding.\n\n## Finding\n- **Rule**: "@ + f.title@ + " ("@ + f.rule_id@ + ")\n- **Severity**: "@ + severity_variant_name(f.severity) + "\n- **File**: "@ + f.file@ + ":"@
        + decimal(f.line as nat) + "\n- **CWE**: "@ + text_or(opt_string_view(f.cwe_id), "N/A"@) + "\n- **OWASP**: "@
        + text_or(opt_string_view(f.owasp_category), "N/A"@) + "\n\n## Code Context (lines "@ + decimal((start + 1) as nat) + "-"@
        + decimal(end as nat) + ")\n```\n"@ + context_range(lines, start, end) + "\n```\n\n## Description\n"@ + f.description@ + "\n\n## Task\nAnalyze this finding and provide:\n1. **Exploitability**: How easy is it to exploit? (trivial / moderate / difficult / theoretical)\n2. **Impact**: What's the worst-case impact? (critical / high / moderate / low)\n3. **Attack Scenario**: Describe a realistic attack scenario in 2-3 sentences\n4. **Is False Positive**: Is this likely a false positive? (true/false) with reasoning\n5. **Detailed Fix**: Provide the exact code fix for this specific instance\n6. **Confidence**: Your confidence this is a real issue (0.0-1.0)\n\nRespond in JSON format:\n```json\n{\n  \"exploitability\": \"...\",\n  \"impact\": \"...\",\n  \"attack_scenario\": \"...\",\n  \"is_false_positive\": false,\n  \"detailed_fix\": \"...\",\n  \"confidence\": 0.85,\n  \"reasoning\": \"...\"\n}\n```"@
}

fn push_context(s: &mut String, lines: &Vec<String>, start: usize, end: usize)
    requires
        start <= end <= lines.len(),
    ensures
        final(s)@ == old(s)@ + context_range(string_views(lines@), start as int, end as int),
{
    let ghost lv = string_views(lines@);
    let ghost s0 = s@;
    let mut i: usize = start;
    while i < end
        invariant
            start <= i <= end,
            end <= lines.len(),
            lv == string_views(lines@),
            s@ == s0 + context_range(lv, start as int, i as int),
        decreases end - i,
    {
        let ghost before = s@;
        if i > start {
            s.append("\n");
        }
        push_padded_decimal(s, (i + 1) as u64, 4, ' ');
        s.append(" | ");
        s.append(lines[i].as_str());
        assert(lines[i as int]@ == lv[i as int]);
        if i == start {
            assert(s@ =~= s0 + context_line(lv, i as int));
        } else {
            assert(s@ =~= before + "\n"@ + context_line(lv, i as int));
        }
        i = i + 1;
    }
}

fn opt_text<'a>(o: &'a Option<String>, default: &'a str) -> (r: &'a str)
    ensures
        r@ == text_or(opt_string_view(*o), default@),
{
    match o {
        Some(s) => s.as_str(),
        None => default,
    }
}

/// The prompt asking a language model to review `finding`, with the lines
/// of its file (`file_content`) around it as context.
pub fn build_analysis_prompt(finding: &Finding, file_content: &str) -> (r: String)
    requires
        finding.line <= usize::MAX - 15,
        context_start(finding.line) <= lines_of(file_content@).len(),
    ensures
        r@ == analysis_prompt(*finding, lines_of(file_content@)),
{
    let lines = split_lines(file_content);
    let start: usize = if finding.line >= 15 { finding.line - 15 } else { 0 };
    let end: usize = if finding.line + 15 <= lines.len() { finding.line + 15 } else { lines.len() };
    let mut s = String::new();
    s.append("You are a senior security researcher. Analyze this potential vulnerability finding.\n\n## Finding\n- **Rule**: ");
    s.append(finding.title.as_str());
    s.append(" (");
    s.append(finding.rule_id.as_str());
    s.append(")\n- **Severity**: ");
    s.append(finding.severity.variant_name());
    s.append("\n- **File**: ");
    s.append(finding.file.as_str());
    s.append(":");
    push_decimal(&mut s, finding.line as u64);
    s.append("\n- **CWE**: ");
    s.append(opt_text(&finding.cwe_id, "N/A"));
    s.append("\n- **OWASP**: ");
    s.append(opt_text(&finding.owasp_category, "N/A"));
    s.append("\n\n## Code Context (lines ");
    push_decimal(&mut s, (start + 1) as u64);
    s.append("-");
    push_decimal(&mut s, end as u64);
    s.append(")\n```\n");
    push_context(&mut s, &lines, start, end);
    s.append("\n```\n\n## Description\n");
    s.append(finding.description.as_str());
    s.append("\n\n## Task\nAnalyze this finding and provide:\n1. **Exploitability**: How easy is it to exploit? (trivial / moderate / difficult / theoretical)\n2. **Impact**: What's the worst-case impact? (critical / high / moderate / low)\n3. **Attack Scenario**: Describe a realistic attack scenario in 2-3 sentences\n4. **Is False Positive**: Is this likely a false positive? (true/false) with reasoning\n5. **Detailed Fix**: Provide the exact code fix for this specific instance\n6. **Confidence**: Your confidence this is a real issue (0.0-1.0)\n\nRespond in JSON format:\n```json\n{\n  \"exploitability\": \"...\",\n  \"impact\": \"...\",\n  \"attack_scenario\": \"...\",\n  \"is_false_positive\": false,\n  \"detailed_fix\": \"...\",\n  \"confidence\": 0.85,\n  \"reasoning\": \"...\"\n}\n```");
    assert(s@ =~= analysis_prompt(*finding, lines_of(file_content@)));
    s
}

/// The prompt for `f` can be built from `content`: the finding's line is
/// far enough from the end of the number range, and its context starts
/// within the file.
pub open spec fn prompt_fits(f: Finding, content: Seq<char>) -> bool {
    &&& f.line <= usize::MAX - 15
    &&& context_start(f.line) <= lines_of(content).len()
}

/// Which findings get an analysis: those whose file could be read
/// (`contents[i]` is the text of `findings[i]`'s file, `None` when it could
/// not be read), in order, as indices.
pub open spec fn analyzed_indices(contents: Seq<Option<String>>, n: int) -> Seq<int>
    decreases n,
{
    if n <= 0 {
        seq![]
    } else if contents[n - 1] is Some {
        analyzed_indices(contents, n - 1).push(n - 1)
    } else {
        analyzed_indices(contents, n - 1)
    }
}

/// `a` is the pending analysis of finding `f`.
pub open spec fn is_pending_analysis(a: DeepAnalysis, f: Finding) -> bool {
    &&& a.finding_id@ == f.id@
    &&& a.exploitability@ == "pending_llm_call"@
    &&& a.impact@ == "pending_llm_call"@
    &&& a.attack_scenario@ == "LLM analysis not yet implemented — run with --llm flag after setting API key"@
    &&& a.detailed_fix@ == f.fix_suggestion@
    &&& a.confidence_adjustment_percent == f.confidence_percent
    &&& !a.is_false_positive
    &&& a.reasoning@ == "Static analysis only — LLM deep analysis requires API key configuration"@
}

/// `r` holds, in order, the pending analysis of each finding whose file
/// text is at hand (`contents[i]` for `findings[i]`).
pub open spec fn pending_analyses_of(
    r: Seq<DeepAnalysis>,
    findings: Seq<Finding>,
    contents: Seq<Option<String>>,
) -> bool {
    let idx = analyzed_indices(contents, contents.len() as int);
    &&& r.len() == idx.len()
    &&& forall|k: int| 0 <= k < r.len() ==> is_pending_analysis(#[trigger] r[k], findings[idx[k]])
}

/// `a` and `b` hold the same text and values in every field.
pub open spec fn same_analysis(a: DeepAnalysis, b: DeepAnalysis) -> bool {
    &&& a.finding_id@ == b.finding_id@
    &&& a.exploitability@ == b.exploitability@
    &&& a.impact@ == b.impact@
    &&& a.attack_scenario@ == b.attack_scenario@
    &&& a.detailed_fix@ == b.detailed_fix@
    &&& a.confidence_adjustment_percent == b.confidence_adjustment_percent
    &&& a.is_false_positive == b.is_false_positive
    &&& a.reasoning@ == b.reasoning@
}

/// The analyses depend on the findings and their files alone, never on the
/// language-model configuration (its key, model or address): two results
/// of `analyze_findings` for the same findings and file texts, whatever
/// configuration each call was given, agree field by field.
pub proof fn lemma_analyses_ignore_config(
    findings: Seq<Finding>,
    contents: Seq<Option<String>>,
    r1: Seq<DeepAnalysis>,
    r2: Seq<DeepAnalysis>,
)
    requires
        pending_analyses_of(r1, findings, contents),
        pending_analyses_of(r2, findings, contents),
    ensures
        r1.len() == r2.len(),
        forall|k: int| 0 <= k < r1.len() ==> same_analysis(#[trigger] r1[k], r2[k]),
{
    let idx = analyzed_indices(contents, contents.len() as int);
    assert forall|k: int| 0 <= k < r1.len() implies same_analysis(#[trigger] r1[k], r2[k]) by {
        assert(is_pending_analysis(r1[k], findings[idx[k]]));
        assert(is_pending_analysis(r2[k], findings[idx[k]]));
    }
}

/// Analyses of the findings whose file text is at hand (`contents[i]` for
/// `findings[i]`): for each, in order, the review prompt is built from the
/// file and the pending analysis is given.
pub fn analyze_findings(findings: &Vec<Finding>, contents: &Vec<Option<String>>, config: &LlmConfig) -> (r: Vec<DeepAnalysis>)
    requires
        contents.len() == findings.len(),
        forall|i: int|
            0 <= i < findings.len() ==> (#[trigger] contents@[i] matches Some(c) ==> prompt_fits(findings@[i], c@)),
    ensures
        pending_analyses_of(r@, findings@, contents@),
{
    let mut out: Vec<DeepAnalysis> = Vec::new();
    let mut i: usize = 0;
    while i < findings.len()
        invariant
            i <= findings.len(),
            contents.len() == findings.len(),
            forall|j: int|
                0 <= j < findings.len() ==> (#[trigger] contents@[j] matches Some(c) ==> prompt_fits(findings@[j], c@)),
            out.len() == analyzed_indices(contents@, i as int).len(),
            forall|k: int|
                0 <= k < out.len() ==> is_pending_analysis(
                    #[trigger] out@[k],
                    findings@[analyzed_indices(contents@, i as int)[k]],
                ),
        decreases findings.len() - i,
    {
        let ghost before = out@;
        match &contents[i] {
            Some(content) => {
                assert(contents@[i as int] matches Some(c) && c == *content);
                let _prompt = build_analysis_prompt(&findings[i], content.as_str());
                out.push(pending_analysis(&findings[i]));
                assert forall|k: int| 0 <= k < out.len() implies is_pending_analysis(
                    #[trigger] out@[k],
                    findings@[analyzed_indices(contents@, i + 1)[k]],
                ) by {
                    if k < before.len() {
                        assert(out@[k] == before[k]);
                    }
                }
            },
            None => {},
        }
        i = i + 1;
    }
    out
}

} // verus!
