//! Matching rules against a file's lines, and assembling a project's scan
//! result from what the files gave.
use vstd::prelude::*;
use crate::text::{decimal, pad_left, lines_of, push_padded_decimal, split_lines, string_views};
use crate::types::{Finding, Language, ScanResult};
use crate::rules::{CompiledRule, Rule, regex_find_start, opt_str_view};

verus! {

broadcast use vstd::string::group_string_axioms;

/// The view of an optional owned string.
pub open spec fn opt_string_view(o: Option<String>) -> Option<Seq<char>> {
    match o {
        Some(s) => Some(s@),
        None => None,
    }
}

/// The id of the `n`-th finding of a file: `F-` and `n` padded with zeros
/// to four digits.
pub open spec fn finding_id_text(n: nat) -> Seq<char> {
    "F-"@ + pad_left(decimal(n), 4, '0')
}

/// Line `i` of a snippet around line `hit` (both 0-based): a `>` marks
/// the hit line, then the 1-based line number right-aligned in four
/// columns, a bar, and the line's text.
pub open spec fn snippet_line(lines: Seq<Seq<char>>, hit: int, i: int) -> Seq<char> {
    (if i == hit { ">"@ } else { " "@ }) + " "@ + pad_left(decimal((i + 1) as nat), 4, ' ') + " | "@
        + lines[i]
}

/// Lines `start..end` of the snippet around `hit`, joined by newlines.
pub open spec fn snippet_range(lines: Seq<Seq<char>>, hit: int, start: int, end: int) -> Seq<char>
    decreases end - start,
{
    if end <= start {
        seq![]
    } else if end == start + 1 {
        snippet_line(lines, hit, start)
    } else {
        snippet_range(lines, hit, start, end - 1) + "\n"@ + snippet_line(lines, hit, end - 1)
    }
}

/// First line of the snippet around line `hit`: two lines before it when
/// there are that many.
pub open spec fn snippet_start(hit: int) -> int {
    if hit >= 2 { hit - 2 } else { 0 }
}

/// One past the last line of the snippet around `hit`: two lines after it
/// when the file has that many.
pub open spec fn snippet_end(lines: Seq<Seq<char>>, hit: int) -> int {
    if hit + 3 <= lines.len() { hit + 3 } else { lines.len() as int }
}

/// The code snippet shown for a hit on line `hit` (0-based).
pub open spec fn snippet_text(lines: Seq<Seq<char>>, hit: int) -> Seq<char> {
    snippet_range(lines, hit, snippet_start(hit), snippet_end(lines, hit))
}

/// `f` is the `k`-th (0-based) finding of a file, made by `rule` matching
/// line `line_idx` (0-based) at byte `start`.
pub open spec fn finding_matches(
    f: Finding,
    k: int,
    rule: Rule,
    line_idx: int,
    start: usize,
    path: Seq<char>,
    lang: Language,
    lines: Seq<Seq<char>>,
) -> bool {
    &&& f.id@ == finding_id_text((k + 1) as nat)
    &&& f.rule_id@ == rule.id@
    &&& f.title@ == rule.title@
    &&& f.description@ == rule.description@
    &&& f.severity == rule.severity
    &&& f.confidence_percent == 85
    &&& f.file@ == path
    &&& f.line == line_idx + 1
    &&& f.column == start + 1
    &&& f.code_snippet@ == snippet_text(lines, line_idx)
    &&& f.language == lang
    &&& opt_string_view(f.cwe_id) == opt_str_view(rule.cwe_id)
    &&& opt_string_view(f.owasp_category) == opt_str_view(rule.owasp)
    &&& f.fix_suggestion@ == rule.fix_suggestion@
    &&& opt_string_view(f.fix_code) == opt_str_view(rule.fix_example)
}

/// The hits of one rule (index `r`, pattern `pat`) on the first `m` lines:
/// (rule index, line index, match start), in line order.
pub open spec fn line_hits(pat: Seq<char>, lines: Seq<Seq<char>>, r: int, m: int) -> Seq<(int, int, usize)>
    decreases m,
{
    if m <= 0 {
        seq![]
    } else {
        let prev = line_hits(pat, lines, r, m - 1);
        match regex_find_start(pat, lines[m - 1]) {
            Some(s) => prev.push((r, m - 1, s)),
            None => prev,
        }
    }
}

/// Whether a rule is meant for files of language `lang`.
pub open spec fn rule_applies(rule: Rule, lang: Language) -> bool {
    rule.languages@.contains(lang)
}

/// The hits of the first `n` rules that apply to `lang`, rule after rule,
/// each rule's hits in line order.
pub open spec fn file_hits(rules: Seq<CompiledRule>, lang: Language, lines: Seq<Seq<char>>, n: int) -> Seq<(int, int, usize)>
    decreases n,
{
    if n <= 0 {
        seq![]
    } else {
        let prev = file_hits(rules, lang, lines, n - 1);
        if rule_applies(rules[n - 1].spec_rule(), lang) {
            prev + line_hits(rules[n - 1]@, lines, n - 1, lines.len() as int)
        } else {
            prev
        }
    }
}

/// `fs` are the findings made from `hits`, one for one and in order
/// (`rules[h.0]` is the rule of hit `h`).
pub open spec fn findings_match_hits(
    fs: Seq<Finding>,
    hits: Seq<(int, int, usize)>,
    path: Seq<char>,
    lang: Language,
    lines: Seq<Seq<char>>,
    rules: Seq<Rule>,
) -> bool {
    &&& fs.len() == hits.len()
    &&& forall|k: int|
        0 <= k < fs.len() ==> finding_matches(
            #[trigger] fs[k],
            k,
            rules[hits[k].0],
            hits[k].1,
            hits[k].2,
            path,
            lang,
            lines,
        )
}

/// The findings of a file are its hits, in order, each made into a finding.
pub open spec fn findings_of_file(
    fs: Seq<Finding>,
    path: Seq<char>,
    lang: Language,
    lines: Seq<Seq<char>>,
    rules: Seq<CompiledRule>,
) -> bool {
    findings_match_hits(
        fs,
        file_hits(rules, lang, lines, rules.len() as int),
        path,
        lang,
        lines,
        crate::rules::compiled_rules_of(rules),
    )
}

/// The view of hits as (rule index, line index, match start).
pub open spec fn hits_view(v: Seq<(usize, usize, usize)>) -> Seq<(int, int, usize)> {
    v.map_values(|h: (usize, usize, usize)| (h.0 as int, h.1 as int, h.2))
}

proof fn lemma_line_hits_shape(pat: Seq<char>, lines: Seq<Seq<char>>, r: int, m: int)
    requires
        0 <= m <= lines.len(),
    ensures
        line_hits(pat, lines, r, m).len() <= m,
        forall|k: int|
            0 <= k < line_hits(pat, lines, r, m).len() ==> {
                let h = #[trigger] line_hits(pat, lines, r, m)[k];
                &&& h.0 == r
                &&& 0 <= h.1 < m
                &&& regex_find_start(pat, lines[h.1]) == Some(h.2)
            },
    decreases m,
{
    if m > 0 {
        lemma_line_hits_shape(pat, lines, r, m - 1);
    }
}

proof fn lemma_file_hits_shape(rules: Seq<CompiledRule>, lang: Language, lines: Seq<Seq<char>>, n: int)
    requires
        0 <= n <= rules.len(),
    ensures
        file_hits(rules, lang, lines, n).len() <= n * lines.len(),
        forall|k: int|
            0 <= k < file_hits(rules, lang, lines, n).len() ==> {
                let h = #[trigger] file_hits(rules, lang, lines, n)[k];
                &&& 0 <= h.0 < n
                &&& 0 <= h.1 < lines.len()
                &&& rule_applies(rules[h.0].spec_rule(), lang)
                &&& regex_find_start(rules[h.0]@, lines[h.1]) == Some(h.2)
            },
    decreases n,
{
    if n > 0 {
        lemma_file_hits_shape(rules, lang, lines, n - 1);
        let prev = file_hits(rules, lang, lines, n - 1);
        assert((n - 1) * lines.len() + lines.len() == n * lines.len()) by (nonlinear_arith);
        if rule_applies(rules[n - 1].spec_rule(), lang) {
            let lh = line_hits(rules[n - 1]@, lines, n - 1, lines.len() as int);
            lemma_line_hits_shape(rules[n - 1]@, lines, n - 1, lines.len() as int);
            let all = prev + lh;
            assert forall|k: int| 0 <= k < all.len() implies {
                let h = #[trigger] all[k];
                &&& 0 <= h.0 < n
                &&& 0 <= h.1 < lines.len()
                &&& rule_applies(rules[h.0].spec_rule(), lang)
                &&& regex_find_start(rules[h.0]@, lines[h.1]) == Some(h.2)
            } by {
                if k >= prev.len() {
                    assert(all[k] == lh[k - prev.len()]);
                } else {
                    assert(all[k] == prev[k]);
                }
            }
        }
    }
}

/// Whether `lang` is one of `langs`.
pub fn language_in(langs: &[Language], lang: Language) -> (r: bool)
    ensures
        r == langs@.contains(lang),
{
    let mut i: usize = 0;
    while i < langs.len()
        invariant
            i <= langs@.len(),
            forall|j: int| 0 <= j < i ==> langs@[j] != lang,
        decreases langs@.len() - i,
    {
        if langs[i] == lang {
            assert(langs@[i as int] == lang);
            return true;
        }
        i = i + 1;
    }
    false
}

/// An owned copy of an optional string.
fn opt_to_string(o: Option<&str>) -> (r: Option<String>)
    ensures
        opt_string_view(r) == opt_str_view(o),
{
    match o {
        Some(s) => Some(s.to_string()),
        None => None,
    }
}

/// The id text of the `n`-th finding (`F-0001`, ...).
pub fn finding_id(n: u32) -> (r: String)
    ensures
        r@ == finding_id_text(n as nat),
{
    let mut s = "F-".to_string();
    push_padded_decimal(&mut s, n as u64, 4, '0');
    s
}

fn push_snippet_line(s: &mut String, lines: &Vec<String>, hit: usize, i: usize)
    requires
        i < lines.len(),
    ensures
        final(s)@ == old(s)@ + snippet_line(string_views(lines@), hit as int, i as int),
{
    let ghost start = s@;
    if i == hit {
        s.append(">");
    } else {
        s.append(" ");
    }
    s.append(" ");
    push_padded_decimal(s, (i + 1) as u64, 4, ' ');
    s.append(" | ");
    s.append(lines[i].as_str());
    assert(lines[i as int]@ == string_views(lines@)[i as int]);
    assert(s@ =~= start + snippet_line(string_views(lines@), hit as int, i as int));
}

/// The code snippet around line `hit` (0-based) of `lines`.
pub fn snippet(lines: &Vec<String>, hit: usize) -> (r: String)
    requires
        hit < lines.len(),
    ensures
        r@ == snippet_text(string_views(lines@), hit as int),
{
    let ghost lv = string_views(lines@);
    let start: usize = if hit >= 2 { hit - 2 } else { 0 };
    let end: usize = if lines.len() >= 3 && hit <= lines.len() - 3 { hit + 3 } else { lines.len() };
    let mut s = String::new();
    push_snippet_line(&mut s, lines, hit, start);
    assert(s@ =~= snippet_line(lv, hit as int, start as int));
    let mut i: usize = start + 1;
    while i < end
        invariant
            start < i <= end,
            start == snippet_start(hit as int),
            end == snippet_end(lv, hit as int),
            end <= lines.len(),
            lv == string_views(lines@),
            s@ == snippet_range(lv, hit as int, start as int, i as int),
        decreases end - i,
    {
        let ghost before = s@;
        s.append("\n");
        push_snippet_line(&mut s, lines, hit, i);
        assert(s@ =~= before + "\n"@ + snippet_line(lv, hit as int, i as int));
        i = i + 1;
    }
    s
}

/// The finding made by `rule` matching line `line_idx` (0-based) of
/// `lines` at byte `start`, numbered `n` within its file.
pub fn make_finding(
    path: &str,
    lang: Language,
    rule: &Rule,
    lines: &Vec<String>,
    line_idx: usize,
    start: usize,
    n: u32,
) -> (f: Finding)
    requires
        line_idx < lines.len(),
        n >= 1,
        start < usize::MAX,
    ensures
        finding_matches(f, n - 1, *rule, line_idx as int, start, path@, lang, string_views(lines@)),
{
    Finding {
        id: finding_id(n),
        rule_id: rule.id.to_string(),
        title: rule.title.to_string(),
        description: rule.description.to_string(),
        severity: rule.severity,
        confidence_percent: 85,
        file: path.to_string(),
        line: line_idx + 1,
        column: start + 1,
        code_snippet: snippet(lines, line_idx),
        language: lang,
        cwe_id: opt_to_string(rule.cwe_id),
        owasp_category: opt_to_string(rule.owasp),
        fix_suggestion: rule.fix_suggestion.to_string(),
        fix_code: opt_to_string(rule.fix_example),
    }
}

/// Where the compiled rules match the lines of a file of language `lang`:
/// every rule meant for `lang`, in order, is tried on every line, in order;
/// each match gives (rule index, line index, match start).
pub fn find_hits(lang: Language, lines: &Vec<String>, rules: &Vec<CompiledRule>) -> (r: Vec<(usize, usize, usize)>)
    ensures
        hits_view(r@) == file_hits(rules@, lang, string_views(lines@), rules.len() as int),
        forall|k: int| 0 <= k < r.len() ==> #[trigger] r@[k].2 <= isize::MAX,
{
    let ghost lv = string_views(lines@);
    let n_lines = lines.len();
    let mut hits: Vec<(usize, usize, usize)> = Vec::new();
    let mut ri: usize = 0;
    while ri < rules.len()
        invariant
            lv == string_views(lines@),
            n_lines == lines.len(),
            ri <= rules.len(),
            hits_view(hits@) == file_hits(rules@, lang, lv, ri as int),
            forall|k: int| 0 <= k < hits.len() ==> #[trigger] hits@[k].2 <= isize::MAX,
        decreases rules.len() - ri,
    {
        let ghost prev = file_hits(rules@, lang, lv, ri as int);
        let ghost pat = rules@[ri as int]@;
        let compiled = &rules[ri];
        if language_in(compiled.rule().languages, lang) {
            let mut li: usize = 0;
            while li < n_lines
                invariant
                    lv == string_views(lines@),
                    n_lines == lines.len(),
                    ri < rules.len(),
                    li <= n_lines,
                    *compiled == rules@[ri as int],
                    pat == compiled@,
                    prev == file_hits(rules@, lang, lv, ri as int),
                    hits_view(hits@) == prev + line_hits(pat, lv, ri as int, li as int),
                    forall|k: int| 0 <= k < hits.len() ==> #[trigger] hits@[k].2 <= isize::MAX,
                decreases n_lines - li,
            {
                let ghost before = hits@;
                assert(lines[li as int]@ == lv[li as int]);
                match compiled.find_in(lines[li].as_str()) {
                    Some(start) => {
                        hits.push((ri, li, start));
                        assert(hits@[hits.len() - 1].2 == start);
                        assert(hits_view(hits@) =~= hits_view(before).push((ri as int, li as int, start)));
                        assert(prev + line_hits(pat, lv, ri as int, li + 1) =~= (prev + line_hits(
                            pat,
                            lv,
                            ri as int,
                            li as int,
                        )).push((ri as int, li as int, start)));
                    },
                    None => {
                        assert(prev + line_hits(pat, lv, ri as int, li + 1) =~= prev + line_hits(
                            pat,
                            lv,
                            ri as int,
                            li as int,
                        ));
                    },
                }
                li = li + 1;
            }
        }
        ri = ri + 1;
    }
    hits
}

/// The findings made from `hits` (each `(rule index, line index, match
/// start)` into `rules` and `lines`), numbered from `F-0001` on.
pub fn findings_from_hits(
    path: &str,
    lang: Language,
    lines: &Vec<String>,
    rules: &Vec<Rule>,
    hits: &Vec<(usize, usize, usize)>,
) -> (r: Vec<Finding>)
    requires
        hits.len() <= u32::MAX,
        forall|k: int|
            0 <= k < hits.len() ==> #[trigger] hits@[k].0 < rules.len() && hits@[k].1 < lines.len() && hits@[k].2
                < usize::MAX,
    ensures
        findings_match_hits(r@, hits_view(hits@), path@, lang, string_views(lines@), rules@),
{
    let ghost lv = string_views(lines@);
    let mut findings: Vec<Finding> = Vec::new();
    let mut k: usize = 0;
    while k < hits.len()
        invariant
            k <= hits.len(),
            hits.len() <= u32::MAX,
            lv == string_views(lines@),
            forall|j: int|
                0 <= j < hits.len() ==> #[trigger] hits@[j].0 < rules.len() && hits@[j].1 < lines.len() && hits@[j].2
                    < usize::MAX,
            findings_match_hits(findings@, hits_view(hits@).take(k as int), path@, lang, lv, rules@),
        decreases hits.len() - k,
    {
        let (ri, li, start) = hits[k];
        assert(hits@[k as int].0 < rules.len());
        let f = make_finding(path, lang, &rules[ri], lines, li, start, (k + 1) as u32);
        let ghost before = findings@;
        findings.push(f);
        let ghost hv = hits_view(hits@).take(k + 1);
        assert forall|j: int| 0 <= j < findings@.len() implies finding_matches(
            #[trigger] findings@[j],
            j,
            rules@[hv[j].0],
            hv[j].1,
            hv[j].2,
            path@,
            lang,
            lv,
        ) by {
            if j < before.len() {
                assert(findings@[j] == before[j]);
                assert(hv[j] == hits_view(hits@).take(k as int)[j]);
            }
        }
        k = k + 1;
    }
    assert(hits_view(hits@).take(hits.len() as int) =~= hits_view(hits@));
    findings
}

/// The rules the compiled matchers come from, in order.
pub fn rules_of(rules: &Vec<CompiledRule>) -> (r: Vec<Rule>)
    ensures
        r@ == crate::rules::compiled_rules_of(rules@),
{
    let mut out: Vec<Rule> = Vec::new();
    let mut i: usize = 0;
    while i < rules.len()
        invariant
            i <= rules.len(),
            out@ == crate::rules::compiled_rules_of(rules@.take(i as int)),
        decreases rules.len() - i,
    {
        out.push(*rules[i].rule());
        i = i + 1;
        assert(out@ =~= crate::rules::compiled_rules_of(rules@.take(i as int)));
    }
    assert(rules@.take(rules.len() as int) =~= rules@);
    out
}

/// Scans the text of one file of language `lang` with the compiled rules:
/// every rule meant for `lang`, in order, is tried on every line, in order,
/// and each line it matches gives one finding. The findings are numbered
/// with a 32-bit counter, so there may be at most `u32::MAX` of them.
pub fn scan_file(path: &str, lang: Language, content: &str, rules: &Vec<CompiledRule>) -> (r: Vec<Finding>)
    requires
        file_hits(rules@, lang, lines_of(content@), rules.len() as int).len() <= u32::MAX,
    ensures
        findings_of_file(r@, path@, lang, lines_of(content@), rules@),
{
    let lines = split_lines(content);
    let hits = find_hits(lang, &lines, rules);
    proof {
        lemma_file_hits_shape(rules@, lang, string_views(lines@), rules.len() as int);
        assert forall|k: int| 0 <= k < hits.len() implies #[trigger] hits@[k].0 < rules.len() && hits@[k].1
            < lines.len() && hits@[k].2 < usize::MAX by {
            assert(hits_view(hits@)[k] == (hits@[k].0 as int, hits@[k].1 as int, hits@[k].2));
        }
    }
    let plain_rules = rules_of(rules);
    assert(plain_rules@.len() == rules@.len());
    assert(hits_view(hits@).len() == hits@.len());
    findings_from_hits(path, lang, &lines, &plain_rules, &hits)
}

/// Scans one file as `scan_file` does, when its findings can be numbered
/// with a 32-bit counter; `None` when it would give more than `u32::MAX`
/// findings.
pub fn try_scan_file(path: &str, lang: Language, content: &str, rules: &Vec<CompiledRule>) -> (r: Option<Vec<Finding>>)
    ensures
        r is Some <==> file_hits(rules@, lang, lines_of(content@), rules.len() as int).len() <= u32::MAX,
        r matches Some(fs) ==> findings_of_file(fs@, path@, lang, lines_of(content@), rules@),
{
    let lines = split_lines(content);
    proof {
        lemma_file_hits_shape(rules@, lang, lines_of(content@), rules.len() as int);
    }
    match rules.len().checked_mul(lines.len()) {
        Some(bound) => {
            if bound <= 4294967295 {
                return Some(scan_file(path, lang, content, rules));
            }
        },
        None => {},
    }
    let hits = find_hits(lang, &lines, rules);
    if hits.len() <= 4294967295 {
        assert(hits_view(hits@).len() == hits@.len());
        Some(scan_file(path, lang, content, rules))
    } else {
        assert(hits_view(hits@).len() == hits@.len());
        None
    }
}

/// Files of at least this many bytes are not scanned.
pub const MAX_FILE_SIZE: u64 = 1048576;

/// Names of directories the project walk does not enter.
pub open spec fn skipped_dir_names() -> Seq<Seq<char>> {
    seq![
        "node_modules"@,
        ".git"@,
        "target"@,
        "__pycache__"@,
        ".venv"@,
        "vendor"@,
        "dist"@,
        "build"@,
        ".next"@,
        ".nuxt"@,
        "coverage"@,
        ".idea"@,
        ".vscode"@,
        ".cursor"@,
    ]
}

/// Whether a directory with this name is left out of the walk (dependency,
/// build-output, cache and editor directories).
pub fn is_skipped_dir(name: &str) -> (r: bool)
    ensures
        r == skipped_dir_names().contains(name@),
{
    let names: [&str; 14] = [
        "node_modules",
        ".git",
        "target",
        "__pycache__",
        ".venv",
        "vendor",
        "dist",
        "build",
        ".next",
        ".nuxt",
        "coverage",
        ".idea",
        ".vscode",
        ".cursor",
    ];
    let ghost views = Seq::new(14, |j: int| names@[j]@);
    assert(views =~= skipped_dir_names());
    let mut i: usize = 0;
    while i < 14
        invariant
            i <= 14,
            views == skipped_dir_names(),
            views == Seq::new(14, |j: int| names@[j]@),
            forall|j: int| 0 <= j < i ==> views[j] != name@,
        decreases 14 - i,
    {
        if crate::text::str_eq(names[i], name) {
            assert(views[i as int] == name@);
            return true;
        }
        i = i + 1;
    }
    false
}

/// The walk leaves out exactly these directories: `node_modules`, `.git`,
/// `target`, `__pycache__`, `.venv`, `vendor`, `dist`, `build`, `.next`,
/// `.nuxt`, `coverage`, `.idea`, `.vscode` and `.cursor`.
pub proof fn lemma_skipped_dirs(name: Seq<char>)
    ensures
        skipped_dir_names().contains(name) <==> (name == "node_modules"@ || name == ".git"@ || name == "target"@
            || name == "__pycache__"@ || name == ".venv"@ || name == "vendor"@ || name == "dist"@
            || name == "build"@ || name == ".next"@ || name == ".nuxt"@ || name == "coverage"@
            || name == ".idea"@ || name == ".vscode"@ || name == ".cursor"@),
{
    let names = skipped_dir_names();
    if name == "node_modules"@ || name == ".git"@ || name == "target"@ || name == "__pycache__"@
        || name == ".venv"@ || name == "vendor"@ || name == "dist"@ || name == "build"@ || name == ".next"@
        || name == ".nuxt"@ || name == "coverage"@ || name == ".idea"@ || name == ".vscode"@
        || name == ".cursor"@ {
        assert(names.contains(name)) by {
            if name == "node_modules"@ { assert(names[0] == name); }
            else if name == ".git"@ { assert(names[1] == name); }
            else if name == "target"@ { assert(names[2] == name); }
            else if name == "__pycache__"@ { assert(names[3] == name); }
            else if name == ".venv"@ { assert(names[4] == name); }
            else if name == "vendor"@ { assert(names[5] == name); }
            else if name == "dist"@ { assert(names[6] == name); }
            else if name == "build"@ { assert(names[7] == name); }
            else if name == ".next"@ { assert(names[8] == name); }
            else if name == ".nuxt"@ { assert(names[9] == name); }
            else if name == "coverage"@ { assert(names[10] == name); }
            else if name == ".idea"@ { assert(names[11] == name); }
            else if name == ".vscode"@ { assert(names[12] == name); }
            else { assert(names[13] == name); }
        }
    }
}

/// A file is scanned exactly when it is smaller than 1 MiB (1 048 576
/// bytes) and its extension is one the tool knows: `js`, `jsx`, `mjs`,
/// `cjs` (JavaScript), `ts`, `tsx`, `mts`, `cts` (TypeScript), `py`, `pyw`
/// (Python), `go`, `java`, `rs`, `php`.
pub proof fn lemma_file_selection(ext: Seq<char>, len: u64)
    ensures
        (len < MAX_FILE_SIZE) <==> (len < 1048576),
        (ext == "js"@ || ext == "jsx"@ || ext == "mjs"@ || ext == "cjs"@) ==> crate::types::language_of_extension(ext)
            == Language::JavaScript,
        (ext == "ts"@ || ext == "tsx"@ || ext == "mts"@ || ext == "cts"@) ==> crate::types::language_of_extension(ext)
            == Language::TypeScript,
        (ext == "py"@ || ext == "pyw"@) ==> crate::types::language_of_extension(ext) == Language::Python,
        ext == "go"@ ==> crate::types::language_of_extension(ext) == Language::Go,
        ext == "java"@ ==> crate::types::language_of_extension(ext) == Language::Java,
        ext == "rs"@ ==> crate::types::language_of_extension(ext) == Language::Rust,
        ext == "php"@ ==> crate::types::language_of_extension(ext) == Language::Php,
        !(ext == "js"@ || ext == "jsx"@ || ext == "mjs"@ || ext == "cjs"@ || ext == "ts"@ || ext == "tsx"@
            || ext == "mts"@ || ext == "cts"@ || ext == "py"@ || ext == "pyw"@ || ext == "go"@ || ext == "java"@
            || ext == "rs"@ || ext == "php"@) ==> crate::types::language_of_extension(ext) == Language::Unknown,
{
    reveal_strlit("js");
    reveal_strlit("jsx");
    reveal_strlit("mjs");
    reveal_strlit("cjs");
    reveal_strlit("ts");
    reveal_strlit("tsx");
    reveal_strlit("mts");
    reveal_strlit("cts");
    reveal_strlit("py");
    reveal_strlit("pyw");
    reveal_strlit("go");
    reveal_strlit("java");
    reveal_strlit("rs");
    reveal_strlit("php");
    if ext == "ts"@ || ext == "tsx"@ {
        assert(ext[0] == 't');
    } else if ext == "mts"@ || ext == "cts"@ {
        assert(ext[1] == 't');
    } else if ext == "py"@ || ext == "pyw"@ {
        assert(ext[0] == 'p' && ext[1] == 'y');
    } else if ext == "go"@ {
        assert(ext[0] == 'g');
    } else if ext == "java"@ {
        assert(ext[0] == 'j' && ext[1] == 'a');
    } else if ext == "rs"@ {
        assert(ext[0] == 'r');
    } else if ext == "php"@ {
        assert(ext[0] == 'p' && ext[1] == 'h');
    }
}

/// Whether a file of `len` bytes is small enough to scan.
pub fn within_size_limit(len: u64) -> (r: bool)
    ensures
        r == (len < MAX_FILE_SIZE),
{
    len < MAX_FILE_SIZE
}

/// The language a file is scanned as, given its extension and size in
/// bytes; `None` when it is too large or its language is not known.
pub fn classify_file(ext: &str, len: u64) -> (r: Option<Language>)
    ensures
        r == (if len < MAX_FILE_SIZE && crate::types::language_of_extension(ext@) != Language::Unknown {
            Some(crate::types::language_of_extension(ext@))
        } else {
            None::<Language>
        }),
{
    if !within_size_limit(len) {
        return None;
    }
    let lang = Language::from_extension(ext);
    if lang == Language::Unknown {
        None
    } else {
        Some(lang)
    }
}

/// How many entries of `ls` are `l`.
pub open spec fn lang_count(ls: Seq<Language>, l: Language) -> nat
    decreases ls.len(),
{
    if ls.len() == 0 {
        0
    } else {
        lang_count(ls.drop_last(), l) + if ls.last() == l { 1nat } else { 0nat }
    }
}

/// How many entries of `ls` are a known language.
pub open spec fn known_count(ls: Seq<Language>) -> nat
    decreases ls.len(),
{
    if ls.len() == 0 {
        0
    } else {
        known_count(ls.drop_last()) + if ls.last() != Language::Unknown { 1nat } else { 0nat }
    }
}

/// The known languages, in declaration order.
pub open spec fn known_languages() -> Seq<Language> {
    seq![
        Language::JavaScript,
        Language::TypeScript,
        Language::Python,
        Language::Go,
        Language::Java,
        Language::Rust,
        Language::Php,
    ]
}

/// (language, count) for the first `n` known languages that occur in `ls`.
pub open spec fn tally_upto(ls: Seq<Language>, n: int) -> Seq<(Language, usize)>
    decreases n,
{
    if n <= 0 {
        seq![]
    } else {
        let prev = tally_upto(ls, n - 1);
        let l = known_languages()[n - 1];
        if lang_count(ls, l) > 0 {
            prev.push((l, lang_count(ls, l) as usize))
        } else {
            prev
        }
    }
}

/// Each known language that occurs in `ls`, with its count.
pub open spec fn language_tally(ls: Seq<Language>) -> Seq<(Language, usize)> {
    tally_upto(ls, 7)
}

/// `s` with `x` inserted after every entry whose count is at least `x`'s.
pub open spec fn insert_by_count(s: Seq<(Language, usize)>, x: (Language, usize)) -> Seq<(Language, usize)>
    decreases s.len(),
{
    if s.len() == 0 {
        seq![x]
    } else if s.last().1 >= x.1 {
        s.push(x)
    } else {
        insert_by_count(s.drop_last(), x).push(s.last())
    }
}

/// `s` stably sorted by count, largest first.
pub open spec fn sort_by_count(s: Seq<(Language, usize)>) -> Seq<(Language, usize)>
    decreases s.len(),
{
    if s.len() == 0 {
        seq![]
    } else {
        insert_by_count(sort_by_count(s.drop_last()), s.last())
    }
}

/// The per-language file counts a scan reports, most frequent first (ties
/// in declaration order).
pub open spec fn language_summary(ls: Seq<Language>) -> Seq<(Language, usize)> {
    sort_by_count(language_tally(ls))
}

pub proof fn lemma_lang_count_bound(ls: Seq<Language>, l: Language)
    ensures
        lang_count(ls, l) <= ls.len(),
    decreases ls.len(),
{
    if ls.len() > 0 {
        lemma_lang_count_bound(ls.drop_last(), l);
    }
}

proof fn lemma_known_count_bound(ls: Seq<Language>)
    ensures
        known_count(ls) <= ls.len(),
    decreases ls.len(),
{
    if ls.len() > 0 {
        lemma_known_count_bound(ls.drop_last());
    }
}

proof fn lemma_insert_at(s: Seq<(Language, usize)>, x: (Language, usize), p: int)
    requires
        0 <= p <= s.len(),
        forall|i: int| p <= i < s.len() ==> s[i].1 < x.1,
        p == 0 || s[p - 1].1 >= x.1,
    ensures
        insert_by_count(s, x) == s.take(p) + seq![x] + s.skip(p),
    decreases s.len(),
{
    if s.len() == 0 {
        assert(s.take(p) + seq![x] + s.skip(p) =~= seq![x]);
    } else if p == s.len() {
        assert(s.take(p) + seq![x] + s.skip(p) =~= s.push(x));
    } else {
        let d = s.drop_last();
        lemma_insert_at(d, x, p);
        assert(d.take(p) + seq![x] + d.skip(p) + seq![s.last()] =~= s.take(p) + seq![x] + s.skip(p));
    }
}

/// The number of files of language `l`.
fn count_language(ls: &Vec<Language>, l: Language) -> (r: usize)
    ensures
        r == lang_count(ls@, l),
{
    let mut c: usize = 0;
    let mut i: usize = 0;
    while i < ls.len()
        invariant
            i <= ls.len(),
            c == lang_count(ls@.take(i as int), l),
        decreases ls.len() - i,
    {
        assert(ls@.take(i + 1).drop_last() =~= ls@.take(i as int));
        proof {
            lemma_lang_count_bound(ls@.take(i as int), l);
        }
        if ls[i] == l {
            c = c + 1;
        }
        i = i + 1;
    }
    assert(ls@.take(ls.len() as int) =~= ls@);
    c
}

/// The number of files of a known language.
fn count_known(ls: &Vec<Language>) -> (r: usize)
    ensures
        r == known_count(ls@),
{
    let mut c: usize = 0;
    let mut i: usize = 0;
    while i < ls.len()
        invariant
            i <= ls.len(),
            c == known_count(ls@.take(i as int)),
        decreases ls.len() - i,
    {
        assert(ls@.take(i + 1).drop_last() =~= ls@.take(i as int));
        proof {
            lemma_known_count_bound(ls@.take(i as int));
        }
        if ls[i] != Language::Unknown {
            c = c + 1;
        }
        i = i + 1;
    }
    assert(ls@.take(ls.len() as int) =~= ls@);
    c
}

fn insert_sorted(v: &mut Vec<(Language, usize)>, x: (Language, usize))
    ensures
        final(v)@ == insert_by_count(old(v)@, x),
{
    let mut p: usize = v.len();
    while p > 0 && v[p - 1].1 < x.1
        invariant
            p <= v.len(),
            forall|i: int| p <= i < v.len() ==> v@[i].1 < x.1,
        decreases p,
    {
        p = p - 1;
    }
    proof {
        lemma_insert_at(v@, x, p as int);
    }
    let ghost before = v@;
    v.insert(p, x);
    assert(v@ =~= before.take(p as int) + seq![x] + before.skip(p as int));
}

/// The per-language file counts of a project, most frequent first.
pub fn summarize_languages(file_languages: &Vec<Language>) -> (r: Vec<(Language, usize)>)
    ensures
        r@ == language_summary(file_languages@),
{
    let known: [Language; 7] = [
        Language::JavaScript,
        Language::TypeScript,
        Language::Python,
        Language::Go,
        Language::Java,
        Language::Rust,
        Language::Php,
    ];
    assert(known@ =~= known_languages());
    let mut sorted: Vec<(Language, usize)> = Vec::new();
    let mut i: usize = 0;
    while i < 7
        invariant
            i <= 7,
            known@ == known_languages(),
            sorted@ == sort_by_count(tally_upto(file_languages@, i as int)),
        decreases 7 - i,
    {
        let l = known[i];
        let c = count_language(file_languages, l);
        if c > 0 {
            let ghost t = tally_upto(file_languages@, i as int);
            assert(tally_upto(file_languages@, i + 1) == t.push((l, c)));
            assert(t.push((l, c)).drop_last() =~= t);
            insert_sorted(&mut sorted, (l, c));
        }
        i = i + 1;
    }
    sorted
}

/// The findings of each file, one file after another in file order.
pub open spec fn concat_findings(per_file: Seq<Vec<Finding>>) -> Seq<Finding>
    decreases per_file.len(),
{
    if per_file.len() == 0 {
        seq![]
    } else {
        concat_findings(per_file.drop_last()) + per_file.last()@
    }
}

/// Joins the findings of each file into one list, keeping file order and,
/// within a file, the order of its findings.
pub fn collect_findings(per_file: Vec<Vec<Finding>>) -> (r: Vec<Finding>)
    ensures
        r@ == concat_findings(per_file@),
{
    let ghost files = per_file@;
    let mut out: Vec<Finding> = Vec::new();
    for v in it: per_file.into_iter()
        invariant
            it.seq() == files,
            out@ == concat_findings(files.take(it.index() as int)),
    {
        let ghost i = it.index() as int;
        assert(files.take(i + 1).drop_last() =~= files.take(i));
        let mut v = v;
        out.append(&mut v);
    }
    assert(files.take(files.len() as int) =~= files);
    out
}

/// The result of scanning a project: `file_languages` holds the language of
/// each file that was collected, `per_file_findings` what scanning each of
/// them gave, in the same order.
pub fn build_scan_result(
    project_path: String,
    file_languages: &Vec<Language>,
    per_file_findings: Vec<Vec<Finding>>,
    scan_duration_ms: u64,
) -> (r: ScanResult)
    ensures
        r.project_path@ == project_path@,
        r.total_files == file_languages.len(),
        r.scanned_files == known_count(file_languages@),
        r.findings@ == concat_findings(per_file_findings@),
        r.scan_duration_ms == scan_duration_ms,
        r.languages@ == language_summary(file_languages@),
{
    let languages = summarize_languages(file_languages);
    ScanResult {
        project_path,
        total_files: file_languages.len(),
        scanned_files: count_known(file_languages),
        findings: collect_findings(per_file_findings),
        scan_duration_ms,
        languages,
    }
}

proof fn lemma_line_hits_complete(pat: Seq<char>, lines: Seq<Seq<char>>, r: int, m: int, i: int, st: usize)
    requires
        0 <= i < m <= lines.len(),
        regex_find_start(pat, lines[i]) == Some(st),
    ensures
        line_hits(pat, lines, r, m).contains((r, i, st)),
    decreases m,
{
    let prev = line_hits(pat, lines, r, m - 1);
    if i == m - 1 {
        assert(prev.push((r, i, st))[prev.len() as int] == (r, i, st));
    } else {
        lemma_line_hits_complete(pat, lines, r, m - 1, i, st);
        let k = choose|k: int| 0 <= k < prev.len() && prev[k] == (r, i, st);
        match regex_find_start(pat, lines[m - 1]) {
            Some(s2) => {
                assert(prev.push((r, m - 1, s2))[k] == (r, i, st));
            },
            None => {},
        }
    }
}

proof fn lemma_file_hits_complete(
    rules: Seq<CompiledRule>,
    lang: Language,
    lines: Seq<Seq<char>>,
    n: int,
    ri: int,
    h: (int, int, usize),
)
    requires
        0 <= ri < n <= rules.len(),
        rules[ri].spec_rule().languages@.contains(lang),
        line_hits(rules[ri]@, lines, ri, lines.len() as int).contains(h),
    ensures
        file_hits(rules, lang, lines, n).contains(h),
    decreases n,
{
    let prev = file_hits(rules, lang, lines, n - 1);
    if ri == n - 1 {
        let lh = line_hits(rules[ri]@, lines, ri, lines.len() as int);
        let k = choose|k: int| 0 <= k < lh.len() && lh[k] == h;
        assert((prev + lh)[prev.len() + k] == h);
    } else {
        lemma_file_hits_complete(rules, lang, lines, n - 1, ri, h);
        let k = choose|k: int| 0 <= k < prev.len() && prev[k] == h;
        if rule_applies(rules[n - 1].spec_rule(), lang) {
            let lh = line_hits(rules[n - 1]@, lines, n - 1, lines.len() as int);
            assert((prev + lh)[k] == h);
        }
    }
}

/// A file scan misses nothing: wherever a rule meant for the file's
/// language matches a line, on any line of the file, there is a finding of
/// that rule on that line (1-based) at the match's column (1-based).
pub proof fn lemma_scan_finds_every_match(
    fs: Seq<Finding>,
    path: Seq<char>,
    lang: Language,
    lines: Seq<Seq<char>>,
    rules: Seq<CompiledRule>,
    ri: int,
    i: int,
    st: usize,
)
    requires
        findings_of_file(fs, path, lang, lines, rules),
        0 <= ri < rules.len(),
        rules[ri].spec_rule().languages@.contains(lang),
        0 <= i < lines.len(),
        regex_find_start(rules[ri]@, lines[i]) == Some(st),
    ensures
        exists|k: int|
            0 <= k < fs.len() && (#[trigger] fs[k]).rule_id@ == rules[ri].spec_rule().id@ && fs[k].line == i + 1
                && fs[k].column == st + 1,
{
    lemma_line_hits_complete(rules[ri]@, lines, ri, lines.len() as int, i, st);
    lemma_file_hits_complete(rules, lang, lines, rules.len() as int, ri, (ri, i, st));
    let hits = file_hits(rules, lang, lines, rules.len() as int);
    let k = choose|k: int| 0 <= k < hits.len() && hits[k] == (ri, i, st);
    assert(finding_matches(
        fs[k],
        k,
        crate::rules::compiled_rules_of(rules)[hits[k].0],
        hits[k].1,
        hits[k].2,
        path,
        lang,
        lines,
    ));
    assert(crate::rules::compiled_rules_of(rules)[ri] == rules[ri].spec_rule());
}

/// Every finding of a file points at one of its lines, carries the file's
/// path and language, and was made by a rule meant for that language whose
/// pattern matches that line where the finding's column says.
pub proof fn lemma_findings_point_into_file(
    fs: Seq<Finding>,
    path: Seq<char>,
    lang: Language,
    lines: Seq<Seq<char>>,
    rules: Seq<CompiledRule>,
)
    requires
        findings_of_file(fs, path, lang, lines, rules),
    ensures
        forall|k: int|
            0 <= k < fs.len() ==> {
                let f = #[trigger] fs[k];
                &&& 1 <= f.line <= lines.len()
                &&& f.file@ == path
                &&& f.language == lang
                &&& exists|r: int|
                    0 <= r < rules.len() && rules[r].spec_rule().languages@.contains(lang) && f.rule_id@
                        == rules[r].spec_rule().id@ && f.severity == rules[r].spec_rule().severity
                        && (regex_find_start(rules[r]@, lines[f.line - 1]) matches Some(s) && f.column
                        == s + 1)
            },
{
    let hits = file_hits(rules, lang, lines, rules.len() as int);
    lemma_file_hits_shape(rules, lang, lines, rules.len() as int);
    let plain = crate::rules::compiled_rules_of(rules);
    assert forall|k: int| 0 <= k < fs.len() implies {
        let f = #[trigger] fs[k];
        &&& 1 <= f.line <= lines.len()
        &&& f.file@ == path
        &&& f.language == lang
        &&& exists|r: int|
            0 <= r < rules.len() && rules[r].spec_rule().languages@.contains(lang) && f.rule_id@
                == rules[r].spec_rule().id@ && f.severity == rules[r].spec_rule().severity
                && (regex_find_start(rules[r]@, lines[f.line - 1]) matches Some(s) && f.column == s + 1)
    } by {
        let h = hits[k];
        assert(regex_find_start(rules[h.0]@, lines[h.1]) == Some(h.2));
        assert(plain[h.0] == rules[h.0].spec_rule());
        assert(fs[k].line - 1 == h.1);
    }
}

/// Sum of the counts of a language tally.
pub open spec fn count_sum(s: Seq<(Language, usize)>) -> int
    decreases s.len(),
{
    if s.len() == 0 {
        0
    } else {
        count_sum(s.drop_last()) + s.last().1
    }
}

proof fn lemma_insert_by_count(s: Seq<(Language, usize)>, x: (Language, usize))
    ensures
        count_sum(insert_by_count(s, x)) == count_sum(s) + x.1,
        insert_by_count(s, x).len() == s.len() + 1,
        forall|j: int|
            0 <= j < insert_by_count(s, x).len() ==> #[trigger] insert_by_count(s, x)[j] == x || s.contains(
                insert_by_count(s, x)[j],
            ),
        (forall|j1: int, j2: int| 0 <= j1 < j2 < s.len() ==> #[trigger] s[j1].1 >= #[trigger] s[j2].1) ==> (
        forall|j1: int, j2: int|
            0 <= j1 < j2 < insert_by_count(s, x).len() ==> #[trigger] insert_by_count(s, x)[j1].1
                >= #[trigger] insert_by_count(s, x)[j2].1),
    decreases s.len(),
{
    if s.len() > 0 && s.last().1 < x.1 {
        let d = s.drop_last();
        lemma_insert_by_count(d, x);
        let i = insert_by_count(d, x);
        let r = i.push(s.last());
        assert(r.drop_last() =~= i);
        assert(count_sum(r) == count_sum(i) + s.last().1);
        assert(count_sum(s) == count_sum(d) + s.last().1);
        assert forall|j: int| 0 <= j < r.len() implies #[trigger] r[j] == x || s.contains(r[j]) by {
            if j < i.len() {
                assert(r[j] == i[j]);
                if i[j] != x {
                    let t = choose|t: int| 0 <= t < d.len() && d[t] == i[j];
                    assert(s[t] == d[t]);
                }
            } else {
                assert(s[s.len() - 1] == r[j]);
            }
        }
        if forall|j1: int, j2: int| 0 <= j1 < j2 < s.len() ==> #[trigger] s[j1].1 >= #[trigger] s[j2].1 {
            assert forall|j1: int, j2: int| 0 <= j1 < j2 < d.len() implies #[trigger] d[j1].1 >= #[trigger] d[j2].1 by {
                assert(d[j1] == s[j1]);
                assert(d[j2] == s[j2]);
            }
            assert forall|j1: int, j2: int| 0 <= j1 < j2 < r.len() implies #[trigger] r[j1].1 >= #[trigger] r[j2].1 by {
                if j2 < i.len() {
                    assert(r[j1] == i[j1]);
                    assert(r[j2] == i[j2]);
                } else {
                    assert(r[j1] == i[j1]);
                    assert(r[j2] == s.last());
                    if i[j1] != x {
                        let t = choose|t: int| 0 <= t < d.len() && d[t] == i[j1];
                        assert(s[t] == d[t]);
                        assert(s[t].1 >= s[s.len() - 1].1);
                    }
                }
            }
        }
    } else if s.len() > 0 {
        let r = s.push(x);
        assert(r.drop_last() =~= s);
        assert(count_sum(r) == count_sum(s) + x.1);
        assert forall|j: int| 0 <= j < r.len() implies #[trigger] r[j] == x || s.contains(r[j]) by {
            if j < s.len() {
                assert(r[j] == s[j]);
            }
        }
        if forall|j1: int, j2: int| 0 <= j1 < j2 < s.len() ==> #[trigger] s[j1].1 >= #[trigger] s[j2].1 {
            assert forall|j1: int, j2: int| 0 <= j1 < j2 < r.len() implies #[trigger] r[j1].1 >= #[trigger] r[j2].1 by {
                assert(r[j1] == s[j1]);
                if j2 < s.len() {
                    assert(r[j2] == s[j2]);
                } else {
                    assert(s[j1].1 >= s[s.len() - 1].1 || j1 == s.len() - 1);
                }
            }
        }
    } else {
        assert(seq![x].drop_last() =~= seq![]);
        assert(count_sum(seq![x]) == count_sum(seq![]) + x.1);
    }
}

proof fn lemma_sort_by_count(s: Seq<(Language, usize)>)
    ensures
        count_sum(sort_by_count(s)) == count_sum(s),
        sort_by_count(s).len() == s.len(),
        forall|j: int| 0 <= j < sort_by_count(s).len() ==> s.contains(#[trigger] sort_by_count(s)[j]),
        forall|j1: int, j2: int|
            0 <= j1 < j2 < sort_by_count(s).len() ==> #[trigger] sort_by_count(s)[j1].1
                >= #[trigger] sort_by_count(s)[j2].1,
    decreases s.len(),
{
    if s.len() > 0 {
        let d = s.drop_last();
        lemma_sort_by_count(d);
        lemma_insert_by_count(sort_by_count(d), s.last());
        let r = sort_by_count(s);
        assert forall|j: int| 0 <= j < r.len() implies s.contains(#[trigger] r[j]) by {
            if r[j] == s.last() {
                assert(s[s.len() - 1] == r[j]);
            } else {
                let t = choose|t: int| 0 <= t < sort_by_count(d).len() && sort_by_count(d)[t] == r[j];
                let u = choose|u: int| 0 <= u < d.len() && d[u] == sort_by_count(d)[t];
                assert(s[u] == d[u]);
            }
        }
    }
}

proof fn lemma_known_count_split(ls: Seq<Language>)
    ensures
        known_count(ls) == lang_count(ls, Language::JavaScript) + lang_count(ls, Language::TypeScript)
            + lang_count(ls, Language::Python) + lang_count(ls, Language::Go) + lang_count(ls, Language::Java)
            + lang_count(ls, Language::Rust) + lang_count(ls, Language::Php),
    decreases ls.len(),
{
    if ls.len() > 0 {
        lemma_known_count_split(ls.drop_last());
    }
}

proof fn lemma_tally(ls: Seq<Language>, n: int)
    requires
        0 <= n <= 7,
        ls.len() <= usize::MAX,
    ensures
        forall|j: int|
            0 <= j < tally_upto(ls, n).len() ==> {
                let e = #[trigger] tally_upto(ls, n)[j];
                &&& e.1 > 0
                &&& e.0 != Language::Unknown
                &&& e.1 == lang_count(ls, e.0)
            },
    decreases n,
{
    if n > 0 {
        lemma_tally(ls, n - 1);
        let l = known_languages()[n - 1];
        lemma_lang_count_bound(ls, l);
        let prev = tally_upto(ls, n - 1);
        if lang_count(ls, l) > 0 {
            let cur = prev.push((l, lang_count(ls, l) as usize));
            assert forall|j: int| 0 <= j < cur.len() implies {
                let e = #[trigger] cur[j];
                &&& e.1 > 0
                &&& e.0 != Language::Unknown
                &&& e.1 == lang_count(ls, e.0)
            } by {
                if j < prev.len() {
                    assert(cur[j] == prev[j]);
                }
            }
        }
    }
}

proof fn lemma_tally_sum(ls: Seq<Language>)
    requires
        ls.len() <= usize::MAX,
    ensures
        count_sum(language_tally(ls)) == known_count(ls),
{
    lemma_known_count_split(ls);
    let k = known_languages();
    lemma_lang_count_bound(ls, Language::JavaScript);
    lemma_lang_count_bound(ls, Language::TypeScript);
    lemma_lang_count_bound(ls, Language::Python);
    lemma_lang_count_bound(ls, Language::Go);
    lemma_lang_count_bound(ls, Language::Java);
    lemma_lang_count_bound(ls, Language::Rust);
    lemma_lang_count_bound(ls, Language::Php);
    assert forall|n: int| 0 <= n <= 7 implies count_sum(#[trigger] tally_upto(ls, n)) == (if n >= 1 {
        lang_count(ls, k[0]) as int
    } else {
        0
    }) + (if n >= 2 { lang_count(ls, k[1]) as int } else { 0 }) + (if n >= 3 {
        lang_count(ls, k[2]) as int
    } else {
        0
    }) + (if n >= 4 { lang_count(ls, k[3]) as int } else { 0 }) + (if n >= 5 {
        lang_count(ls, k[4]) as int
    } else {
        0
    }) + (if n >= 6 { lang_count(ls, k[5]) as int } else { 0 }) + (if n >= 7 {
        lang_count(ls, k[6]) as int
    } else {
        0
    }) by {
        lemma_tally_sum_upto(ls, n);
    }
}

proof fn lemma_tally_sum_upto(ls: Seq<Language>, n: int)
    requires
        0 <= n <= 7,
        ls.len() <= usize::MAX,
    ensures
        count_sum(tally_upto(ls, n)) == (if n >= 1 {
            lang_count(ls, known_languages()[0]) as int
        } else {
            0
        }) + (if n >= 2 { lang_count(ls, known_languages()[1]) as int } else { 0 }) + (if n >= 3 {
            lang_count(ls, known_languages()[2]) as int
        } else {
            0
        }) + (if n >= 4 { lang_count(ls, known_languages()[3]) as int } else { 0 }) + (if n >= 5 {
            lang_count(ls, known_languages()[4]) as int
        } else {
            0
        }) + (if n >= 6 { lang_count(ls, known_languages()[5]) as int } else { 0 }) + (if n >= 7 {
            lang_count(ls, known_languages()[6]) as int
        } else {
            0
        }),
    decreases n,
{
    if n > 0 {
        lemma_tally_sum_upto(ls, n - 1);
        let l = known_languages()[n - 1];
        lemma_lang_count_bound(ls, l);
        let prev = tally_upto(ls, n - 1);
        if lang_count(ls, l) > 0 {
            assert(prev.push((l, lang_count(ls, l) as usize)).drop_last() =~= prev);
        }
    }
}

/// What a scan reports per language: never more scanned files than
/// collected ones; per-language counts that add up to the scanned files;
/// only known languages, each with its exact (non-zero) count; most
/// frequent first.
pub proof fn lemma_language_summary(ls: Seq<Language>)
    requires
        ls.len() <= usize::MAX,
    ensures
        known_count(ls) <= ls.len(),
        count_sum(language_summary(ls)) == known_count(ls),
        forall|j: int|
            0 <= j < language_summary(ls).len() ==> {
                let e = #[trigger] language_summary(ls)[j];
                &&& e.1 > 0
                &&& e.0 != Language::Unknown
                &&& e.1 == lang_count(ls, e.0)
            },
        forall|j1: int, j2: int|
            0 <= j1 < j2 < language_summary(ls).len() ==> #[trigger] language_summary(ls)[j1].1
                >= #[trigger] language_summary(ls)[j2].1,
{
    lemma_known_count_bound(ls);
    lemma_tally(ls, 7);
    lemma_tally_sum(ls);
    lemma_sort_by_count(language_tally(ls));
    let t = language_tally(ls);
    let r = language_summary(ls);
    assert forall|j: int| 0 <= j < r.len() implies {
        let e = #[trigger] r[j];
        &&& e.1 > 0
        &&& e.0 != Language::Unknown
        &&& e.1 == lang_count(ls, e.0)
    } by {
        let u = choose|u: int| 0 <= u < t.len() && t[u] == r[j];
    }
}

} // verus!
