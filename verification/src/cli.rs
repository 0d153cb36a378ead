//! Command-line decisions: reading a severity name, ranking severities, and
//! keeping the findings at or above a minimum severity.
use vstd::prelude::*;
use crate::text::chars_of;
use crate::types::{Finding, Severity, severity_rank, severity_label};

verus! {

broadcast use vstd::string::group_string_axioms;

/// `c` with an ASCII upper-case letter turned into lower case.
pub open spec fn ascii_lower_char(c: char) -> char {
    if 'A' <= c <= 'Z' {
        ((c as u32) + 32) as char
    } else {
        c
    }
}

/// `s` with its ASCII upper-case letters turned into lower case.
pub open spec fn ascii_lower(s: Seq<char>) -> Seq<char> {
    s.map_values(|c: char| ascii_lower_char(c))
}

/// The severity a name stands for, ignoring case: `critical`, `high`,
/// `medium` or `med`, `low`; any other name means `Info`.
pub open spec fn severity_from_name(s: Seq<char>) -> Severity {
    let l = ascii_lower(s);
    if l == "critical"@ {
        Severity::Critical
    } else if l == "high"@ {
        Severity::High
    } else if l == "medium"@ || l == "med"@ {
        Severity::Medium
    } else if l == "low"@ {
        Severity::Low
    } else {
        Severity::Info
    }
}

fn lower_char(c: char) -> (r: char)
    ensures
        r == ascii_lower_char(c),
{
    if 'A' <= c && c <= 'Z' {
        let b = c as u8;
        assert(b == c as u32);
        ((b + 32) as char)
    } else {
        c
    }
}

fn lowered_chars(s: &str) -> (r: Vec<char>)
    ensures
        r@ == ascii_lower(s@),
{
    let v = chars_of(s);
    let mut out: Vec<char> = Vec::new();
    let mut i: usize = 0;
    while i < v.len()
        invariant
            v@ == s@,
            i <= v.len(),
            out@ == ascii_lower(v@.take(i as int)),
        decreases v.len() - i,
    {
        out.push(lower_char(v[i]));
        i = i + 1;
        assert(out@ =~= ascii_lower(v@.take(i as int)));
    }
    assert(v@.take(v.len() as int) =~= v@);
    out
}

fn chars_equal_str(v: &Vec<char>, lit: &str) -> (r: bool)
    ensures
        r == (v@ == lit@),
{
    let w = chars_of(lit);
    if v.len() != w.len() {
        return false;
    }
    let mut i: usize = 0;
    while i < v.len()
        invariant
            w@ == lit@,
            v.len() == w.len(),
            i <= v.len(),
            forall|j: int| 0 <= j < i ==> v@[j] == w@[j],
        decreases v.len() - i,
    {
        if v[i] != w[i] {
            return false;
        }
        i = i + 1;
    }
    assert(v@ =~= lit@);
    true
}

/// Reads a severity name, ignoring case; unknown names mean `Info`.
pub fn parse_severity(s: &str) -> (r: Severity)
    ensures
        r == severity_from_name(s@),
{
    let l = lowered_chars(s);
    if chars_equal_str(&l, "critical") {
        Severity::Critical
    } else if chars_equal_str(&l, "high") {
        Severity::High
    } else if chars_equal_str(&l, "medium") || chars_equal_str(&l, "med") {
        Severity::Medium
    } else if chars_equal_str(&l, "low") {
        Severity::Low
    } else {
        Severity::Info
    }
}

/// Reading a severity name ignores case: lower-casing the name first
/// gives the same severity. Lower-casing is stated for ASCII letters: for
/// these names it agrees with full Unicode lower-casing, as no other
/// character lower-cases to exactly one of their letters.
pub proof fn lemma_parse_ignores_case(s: Seq<char>)
    ensures
        severity_from_name(ascii_lower(s)) == severity_from_name(s),
{
    assert forall|i: int| 0 <= i < s.len() implies #[trigger] ascii_lower_char(ascii_lower_char(s[i]))
        == ascii_lower_char(s[i]) by {
        let c = s[i];
        if 'A' <= c <= 'Z' {
            assert('a' <= ascii_lower_char(c) <= 'z');
        }
    }
    assert(ascii_lower(ascii_lower(s)) =~= ascii_lower(s));
}

/// The rank of a severity, 0 for `Critical` up to 4 for `Info`.
pub fn severity_value(s: Severity) -> (r: u8)
    ensures
        r == severity_rank(s),
{
    match s {
        Severity::Critical => 0,
        Severity::High => 1,
        Severity::Medium => 2,
        Severity::Low => 3,
        Severity::Info => 4,
    }
}

/// Whether a finding of severity `s` is reported when `min` is the least
/// severity asked for.
pub open spec fn at_least(s: Severity, min: Severity) -> bool {
    severity_rank(s) <= severity_rank(min)
}

/// The findings of `fs` whose severity is at least `min`, in order.
pub open spec fn keep_at_least(fs: Seq<Finding>, min: Severity) -> Seq<Finding>
    decreases fs.len(),
{
    if fs.len() == 0 {
        seq![]
    } else {
        let prev = keep_at_least(fs.drop_last(), min);
        if at_least(fs.last().severity, min) {
            prev.push(fs.last())
        } else {
            prev
        }
    }
}

/// Drops the findings less severe than `min`, keeping the order of the rest.
pub fn retain_min_severity(findings: &mut Vec<Finding>, min: Severity)
    ensures
        final(findings)@ == keep_at_least(old(findings)@, min),
{
    let mut all: Vec<Finding> = Vec::new();
    std::mem::swap(&mut all, findings);
    let ghost orig = all@;
    let min_value = severity_value(min);
    for f in it: all.into_iter()
        invariant
            it.seq() == orig,
            min_value == severity_rank(min),
            findings@ == keep_at_least(orig.take(it.index() as int), min),
    {
        let ghost i = it.index() as int;
        assert(orig.take(i + 1).drop_last() =~= orig.take(i));
        assert(orig.take(i + 1).last() == f);
        if severity_value(f.severity) <= min_value {
            findings.push(f);
        }
    }
    assert(orig.take(orig.len() as int) =~= orig);
}

/// The four-letter severity tag of the rule listing.
pub open spec fn severity_tag_text(s: Severity) -> Seq<char> {
    match s {
        Severity::Critical => "CRIT"@,
        Severity::High => "HIGH"@,
        Severity::Medium => "MED "@,
        Severity::Low => "LOW "@,
        Severity::Info => "INFO"@,
    }
}

/// The four-letter severity tag of the rule listing.
pub fn severity_tag(s: Severity) -> (r: &'static str)
    ensures
        r@ == severity_tag_text(s),
{
    match s {
        Severity::Critical => "CRIT",
        Severity::High => "HIGH",
        Severity::Medium => "MED ",
        Severity::Low => "LOW ",
        Severity::Info => "INFO",
    }
}

/// Reading back a severity's displayed name gives that severity, whatever
/// the case it is written in.
pub proof fn lemma_parse_label_roundtrip(s: Severity)
    ensures
        severity_from_name(severity_label(s)) == s,
{
    reveal_strlit("CRITICAL");
    reveal_strlit("HIGH");
    reveal_strlit("MEDIUM");
    reveal_strlit("LOW");
    reveal_strlit("INFO");
    reveal_strlit("critical");
    reveal_strlit("high");
    reveal_strlit("medium");
    reveal_strlit("med");
    reveal_strlit("low");
    let l = ascii_lower(severity_label(s));
    match s {
        Severity::Critical => {
            assert(l =~= "critical"@);
        },
        Severity::High => {
            assert(l =~= "high"@);
            assert(l != "critical"@);
        },
        Severity::Medium => {
            assert(l =~= "medium"@);
            assert(l != "critical"@);
            assert(l != "high"@);
        },
        Severity::Low => {
            assert(l =~= "low"@);
            assert(l[0] == 'l');
            assert(l != "critical"@);
            assert(l != "high"@);
            assert(l != "medium"@);
            assert(l != "med"@);
        },
        Severity::Info => {
            assert(l.len() == 4);
            assert(l != "critical"@);
            assert(l[0] == 'i');
            assert(l != "high"@);
            assert(l != "medium"@);
            assert(l != "med"@);
            assert(l != "low"@);
        },
    }
}

/// Ranking by `severity_value` orders the severities strictly, most severe
/// first.
pub proof fn lemma_severity_rank_strict(a: Severity, b: Severity)
    ensures
        severity_rank(a) == severity_rank(b) <==> a == b,
        severity_rank(Severity::Critical) < severity_rank(Severity::High) < severity_rank(Severity::Medium)
            < severity_rank(Severity::Low) < severity_rank(Severity::Info),
{
}

/// Filtering keeps exactly the findings at least as severe as the minimum,
/// in their order: every kept finding qualifies, and the kept findings are
/// the qualifying ones of the input.
pub proof fn lemma_keep_at_least_sound(fs: Seq<Finding>, min: Severity)
    ensures
        forall|k: int|
            0 <= k < keep_at_least(fs, min).len() ==> at_least(#[trigger] keep_at_least(fs, min)[k].severity, min),
        keep_at_least(fs, min).len() <= fs.len(),
        keep_at_least(fs, min) == fs.filter(|f: Finding| at_least(f.severity, min)),
    decreases fs.len(),
{
    reveal_with_fuel(Seq::filter, 1);
    if fs.len() > 0 {
        lemma_keep_at_least_sound(fs.drop_last(), min);
        let prev = keep_at_least(fs.drop_last(), min);
        if at_least(fs.last().severity, min) {
            assert forall|k: int| 0 <= k < prev.push(fs.last()).len() implies at_least(
                #[trigger] prev.push(fs.last())[k].severity,
                min,
            ) by {
                if k < prev.len() {
                    assert(prev.push(fs.last())[k] == prev[k]);
                }
            }
        }
    }
}

/// The minimum-severity filter keeps a finding exactly when its severity is
/// the minimum or more severe (so, for instance, `Low` findings stay under
/// the default minimum `Low`), in the input's order. The ranking is written
/// out: Critical, High, Medium, Low, Info, most severe first.
pub proof fn lemma_filter_keeps_min_and_above(fs: Seq<Finding>, min: Severity)
    ensures
        keep_at_least(fs, min) == fs.filter(
            |f: Finding|
                match min {
                    Severity::Critical => f.severity == Severity::Critical,
                    Severity::High => f.severity == Severity::Critical || f.severity == Severity::High,
                    Severity::Medium => f.severity != Severity::Low && f.severity != Severity::Info,
                    Severity::Low => f.severity != Severity::Info,
                    Severity::Info => true,
                },
        ),
        forall|k: int| 0 <= k < fs.len() && fs[k].severity == min ==> keep_at_least(fs, min).contains(#[trigger] fs[k]),
    decreases fs.len(),
{
    reveal_with_fuel(Seq::filter, 1);
    if fs.len() > 0 {
        lemma_filter_keeps_min_and_above(fs.drop_last(), min);
    }
    let pred = |f: Finding|
        match min {
            Severity::Critical => f.severity == Severity::Critical,
            Severity::High => f.severity == Severity::Critical || f.severity == Severity::High,
            Severity::Medium => f.severity != Severity::Low && f.severity != Severity::Info,
            Severity::Low => f.severity != Severity::Info,
            Severity::Info => true,
        };
    assert forall|k: int| 0 <= k < fs.len() && fs[k].severity == min implies keep_at_least(fs, min).contains(
        #[trigger] fs[k],
    ) by {
        fs.lemma_filter_contains(pred, k);
    }
}

/// With `Info` as the minimum nothing is dropped, and filtering twice with
/// the same minimum is filtering once.
pub proof fn lemma_keep_at_least_laws(fs: Seq<Finding>, min: Severity)
    ensures
        keep_at_least(fs, Severity::Info) == fs,
        keep_at_least(keep_at_least(fs, min), min) == keep_at_least(fs, min),
    decreases fs.len(),
{
    if fs.len() > 0 {
        lemma_keep_at_least_laws(fs.drop_last(), min);
        assert(fs.drop_last().push(fs.last()) =~= fs);
        let prev = keep_at_least(fs.drop_last(), min);
        if at_least(fs.last().severity, min) {
            let cur = prev.push(fs.last());
            assert(cur.drop_last() =~= prev);
        }
    }
}

} // verus!
