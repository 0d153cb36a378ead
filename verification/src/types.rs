//! The scanner's data: severities, languages, findings and scan results.
use vstd::prelude::*;
use crate::text::str_eq;

verus! {

/// How serious a finding is, from most to least severe.
#[derive(Debug, Clone, Copy, PartialEq, Eq, Hash, Structural)]
pub enum Severity {
    Critical,
    High,
    Medium,
    Low,
    Info,
}

/// The upper-case name a severity is displayed with.
pub open spec fn severity_label(s: Severity) -> Seq<char> {
    match s {
        Severity::Critical => "CRITICAL"@,
        Severity::High => "HIGH"@,
        Severity::Medium => "MEDIUM"@,
        Severity::Low => "LOW"@,
        Severity::Info => "INFO"@,
    }
}

/// The variant name of a severity, as its debug form shows it.
pub open spec fn severity_variant_name(s: Severity) -> Seq<char> {
    match s {
        Severity::Critical => "Critical"@,
        Severity::High => "High"@,
        Severity::Medium => "Medium"@,
        Severity::Low => "Low"@,
        Severity::Info => "Info"@,
    }
}

/// The position of a severity in the order most severe first.
pub open spec fn severity_rank(s: Severity) -> u8 {
    match s {
        Severity::Critical => 0,
        Severity::High => 1,
        Severity::Medium => 2,
        Severity::Low => 3,
        Severity::Info => 4,
    }
}

impl Severity {
    /// The upper-case display name (`CRITICAL`, `HIGH`, ...).
    pub fn label(&self) -> (r: &'static str)
        ensures
            r@ == severity_label(*self),
    {
        match self {
            Severity::Critical => "CRITICAL",
            Severity::High => "HIGH",
            Severity::Medium => "MEDIUM",
            Severity::Low => "LOW",
            Severity::Info => "INFO",
        }
    }

    /// The variant name (`Critical`, `High`, ...).
    pub fn variant_name(&self) -> (r: &'static str)
        ensures
            r@ == severity_variant_name(*self),
    {
        match self {
            Severity::Critical => "Critical",
            Severity::High => "High",
            Severity::Medium => "Medium",
            Severity::Low => "Low",
            Severity::Info => "Info",
        }
    }
}

/// The source languages the scanner knows.
#[derive(Debug, Clone, Copy, PartialEq, Eq, Hash, Structural)]
pub enum Language {
    JavaScript,
    TypeScript,
    Python,
    Go,
    Java,
    Rust,
    Php,
    Unknown,
}

/// The language a file extension (without the dot) stands for.
pub open spec fn language_of_extension(ext: Seq<char>) -> Language {
    if ext == "js"@ || ext == "jsx"@ || ext == "mjs"@ || ext == "cjs"@ {
        Language::JavaScript
    } else if ext == "ts"@ || ext == "tsx"@ || ext == "mts"@ || ext == "cts"@ {
        Language::TypeScript
    } else if ext == "py"@ || ext == "pyw"@ {
        Language::Python
    } else if ext == "go"@ {
        Language::Go
    } else if ext == "java"@ {
        Language::Java
    } else if ext == "rs"@ {
        Language::Rust
    } else if ext == "php"@ {
        Language::Php
    } else {
        Language::Unknown
    }
}

/// The display name of a language.
pub open spec fn language_label(l: Language) -> Seq<char> {
    match l {
        Language::JavaScript => "JavaScript"@,
        Language::TypeScript => "TypeScript"@,
        Language::Python => "Python"@,
        Language::Go => "Go"@,
        Language::Java => "Java"@,
        Language::Rust => "Rust"@,
        Language::Php => "PHP"@,
        Language::Unknown => "Unknown"@,
    }
}

impl Language {
    /// The language of a file with extension `ext` (case-sensitive, no dot).
    pub fn from_extension(ext: &str) -> (r: Language)
        ensures
            r == language_of_extension(ext@),
    {
        if str_eq(ext, "js") || str_eq(ext, "jsx") || str_eq(ext, "mjs") || str_eq(ext, "cjs") {
            Language::JavaScript
        } else if str_eq(ext, "ts") || str_eq(ext, "tsx") || str_eq(ext, "mts") || str_eq(ext, "cts") {
            Language::TypeScript
        } else if str_eq(ext, "py") || str_eq(ext, "pyw") {
            Language::Python
        } else if str_eq(ext, "go") {
            Language::Go
        } else if str_eq(ext, "java") {
            Language::Java
        } else if str_eq(ext, "rs") {
            Language::Rust
        } else if str_eq(ext, "php") {
            Language::Php
        } else {
            Language::Unknown
        }
    }

    /// The display name (`JavaScript`, `PHP`, ...).
    pub fn label(&self) -> (r: &'static str)
        ensures
            r@ == language_label(*self),
    {
        match self {
            Language::JavaScript => "JavaScript",
            Language::TypeScript => "TypeScript",
            Language::Python => "Python",
            Language::Go => "Go",
            Language::Java => "Java",
            Language::Rust => "Rust",
            Language::Php => "PHP",
            Language::Unknown => "Unknown",
        }
    }
}

/// One rule hit in one file.
#[derive(Debug, Clone)]
pub struct Finding {
    /// `F-0001`, `F-0002`, ... numbered within the file.
    pub id: String,
    pub rule_id: String,
    pub title: String,
    pub description: String,
    pub severity: Severity,
    /// Confidence in hundredths (85 stands for 0.85).
    pub confidence_percent: u32,
    /// The path of the file, as displayed.
    pub file: String,
    /// 1-based line number.
    pub line: usize,
    /// 1-based byte column of the start of the match.
    pub column: usize,
    pub code_snippet: String,
    pub language: Language,
    pub cwe_id: Option<String>,
    pub owasp_category: Option<String>,
    pub fix_suggestion: String,
    pub fix_code: Option<String>,
}

/// The outcome of scanning a project.
#[derive(Debug, Clone)]
pub struct ScanResult {
    pub project_path: String,
    pub total_files: usize,
    pub scanned_files: usize,
    pub findings: Vec<Finding>,
    pub scan_duration_ms: u64,
    /// Files per language, most frequent first.
    pub languages: Vec<(Language, usize)>,
}

/// Counts of findings per severity.
#[derive(Debug, Clone, Copy, PartialEq, Eq, Structural)]
pub struct ScanSummary {
    pub critical: u32,
    pub high: u32,
    pub medium: u32,
    pub low: u32,
    pub info: u32,
    pub total: u32,
}

/// The number of findings in `fs` with severity `s`.
pub open spec fn count_severity(fs: Seq<Finding>, s: Severity) -> nat
    decreases fs.len(),
{
    if fs.len() == 0 {
        0
    } else {
        count_severity(fs.drop_last(), s) + if fs.last().severity == s { 1nat } else { 0nat }
    }
}

pub proof fn lemma_count_severity_bound(fs: Seq<Finding>, s: Severity)
    ensures
        count_severity(fs, s) <= fs.len(),
    decreases fs.len(),
{
    if fs.len() > 0 {
        lemma_count_severity_bound(fs.drop_last(), s);
    }
}

/// The count of a severity is the number of findings that have it.
pub proof fn lemma_count_severity_counts(fs: Seq<Finding>, s: Severity)
    ensures
        count_severity(fs, s) == fs.filter(|f: Finding| f.severity == s).len(),
    decreases fs.len(),
{
    reveal_with_fuel(Seq::filter, 1);
    if fs.len() > 0 {
        lemma_count_severity_counts(fs.drop_last(), s);
    }
}

/// Every finding has exactly one severity: the per-severity counts add up
/// to the number of findings.
pub proof fn lemma_severity_counts_partition(fs: Seq<Finding>)
    ensures
        count_severity(fs, Severity::Critical) + count_severity(fs, Severity::High)
            + count_severity(fs, Severity::Medium) + count_severity(fs, Severity::Low)
            + count_severity(fs, Severity::Info) == fs.len(),
    decreases fs.len(),
{
    if fs.len() > 0 {
        lemma_severity_counts_partition(fs.drop_last());
    }
}

/// Counting findings of a severity adds up over concatenation: the counts
/// of `a ++ b` (and so each field of the summary) are those of `a` plus
/// those of `b`.
pub proof fn lemma_severity_count_concat(a: Seq<Finding>, b: Seq<Finding>, s: Severity)
    ensures
        count_severity(a + b, s) == count_severity(a, s) + count_severity(b, s),
    decreases b.len(),
{
    if b.len() == 0 {
        assert(a + b =~= a);
    } else {
        lemma_severity_count_concat(a, b.drop_last(), s);
        assert((a + b).drop_last() =~= a + b.drop_last());
        assert((a + b).last() == b.last());
    }
}

proof fn lemma_severity_count_remove(b: Seq<Finding>, i: int, s: Severity)
    requires
        0 <= i < b.len(),
    ensures
        count_severity(b, s) == count_severity(b.remove(i), s) + if b[i].severity == s { 1nat } else { 0nat },
{
    let t = b.take(i);
    let u = b.skip(i + 1);
    assert(b =~= t + seq![b[i]] + u);
    assert(b.remove(i) =~= t + u);
    lemma_severity_count_concat(t + seq![b[i]], u, s);
    lemma_severity_count_concat(t, seq![b[i]], s);
    lemma_severity_count_concat(t, u, s);
    let one = seq![b[i]];
    assert(one.drop_last() =~= Seq::<Finding>::empty());
    assert(count_severity(one, s) == if b[i].severity == s { 1nat } else { 0nat }) by {
        reveal_with_fuel(count_severity, 2);
    }
}

/// Reordering findings changes no count: two sequences holding the same
/// findings (as multisets) have the same count of every severity, and so
/// the same summary.
pub proof fn lemma_severity_count_permutation(a: Seq<Finding>, b: Seq<Finding>, s: Severity)
    requires
        a.to_multiset() == b.to_multiset(),
    ensures
        count_severity(a, s) == count_severity(b, s),
        a.len() == b.len(),
    decreases a.len(),
{
    broadcast use vstd::seq_lib::group_to_multiset_ensures;
    if a.len() == 0 {
        assert(b.to_multiset().len() == 0);
    } else {
        let y = a.last();
        let d = a.drop_last();
        assert(d.push(y) =~= a);
        assert(a.to_multiset() =~= d.to_multiset().insert(y));
        assert(b.to_multiset().count(y) > 0);
        assert(b.contains(y));
        let i = choose|i: int| 0 <= i < b.len() && b[i] == y;
        assert(b.remove(i).to_multiset() =~= b.to_multiset().remove(y));
        assert(d.to_multiset() =~= b.remove(i).to_multiset());
        lemma_severity_count_permutation(d, b.remove(i), s);
        lemma_severity_count_remove(b, i, s);
    }
}

impl ScanResult {
    /// How many findings there are of each severity, and in all.
    pub fn summary(&self) -> (r: ScanSummary)
        requires
            self.findings.len() <= u32::MAX,
        ensures
            r.critical == count_severity(self.findings@, Severity::Critical),
            r.high == count_severity(self.findings@, Severity::High),
            r.medium == count_severity(self.findings@, Severity::Medium),
            r.low == count_severity(self.findings@, Severity::Low),
            r.info == count_severity(self.findings@, Severity::Info),
            r.total == self.findings.len(),
    {
        let mut critical: u32 = 0;
        let mut high: u32 = 0;
        let mut medium: u32 = 0;
        let mut low: u32 = 0;
        let mut info: u32 = 0;
        let n = self.findings.len();
        let mut i: usize = 0;
        while i < n
            invariant
                n == self.findings.len(),
                n <= u32::MAX,
                i <= n,
                critical == count_severity(self.findings@.take(i as int), Severity::Critical),
                high == count_severity(self.findings@.take(i as int), Severity::High),
                medium == count_severity(self.findings@.take(i as int), Severity::Medium),
                low == count_severity(self.findings@.take(i as int), Severity::Low),
                info == count_severity(self.findings@.take(i as int), Severity::Info),
            decreases n - i,
        {
            let ghost pre = self.findings@.take(i as int);
            let ghost post = self.findings@.take(i + 1);
            assert(post.drop_last() =~= pre);
            proof {
                lemma_count_severity_bound(pre, Severity::Critical);
                lemma_count_severity_bound(pre, Severity::High);
                lemma_count_severity_bound(pre, Severity::Medium);
                lemma_count_severity_bound(pre, Severity::Low);
                lemma_count_severity_bound(pre, Severity::Info);
            }
            match self.findings[i].severity {
                Severity::Critical => critical = critical + 1,
                Severity::High => high = high + 1,
                Severity::Medium => medium = medium + 1,
                Severity::Low => low = low + 1,
                Severity::Info => info = info + 1,
            }
            i = i + 1;
        }
        assert(self.findings@.take(n as int) =~= self.findings@);
        ScanSummary { critical, high, medium, low, info, total: n as u32 }
    }
}

} // verus!
