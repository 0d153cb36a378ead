//! Report building: severity ordering, HTML escaping, the HTML report,
//! and the terminal styling of severities.
use vstd::prelude::*;
use crate::text::{decimal, push_char, push_decimal};
use crate::types::{Finding, ScanResult, Severity, severity_label, severity_rank, count_severity, lemma_count_severity_counts};
use crate::scanner::opt_string_view;

verus! {

broadcast use vstd::string::group_string_axioms;

/// The rank that orders findings in reports (most severe first).
pub fn severity_order(sev: Severity) -> (r: u8)
    ensures
        r == severity_rank(sev),
{
    match sev {
        Severity::Critical => 0,
        Severity::High => 1,
        Severity::Medium => 2,
        Severity::Low => 3,
        Severity::Info => 4,
    }
}

/// Indices `i < n` of the findings of rank `r`, in order.
pub open spec fn indices_of_rank(fs: Seq<Finding>, r: u8, n: int) -> Seq<usize>
    decreases n,
{
    if n <= 0 {
        seq![]
    } else {
        let prev = indices_of_rank(fs, r, n - 1);
        if severity_rank(fs[n - 1].severity) == r {
            prev.push((n - 1) as usize)
        } else {
            prev
        }
    }
}

/// Indices of the findings of ranks below `r`, rank after rank.
pub open spec fn indices_below_rank(fs: Seq<Finding>, r: int) -> Seq<usize>
    decreases r,
{
    if r <= 0 {
        seq![]
    } else {
        indices_below_rank(fs, r - 1) + indices_of_rank(fs, (r - 1) as u8, fs.len() as int)
    }
}

/// The order in which reports list findings: a stable sort by severity,
/// most severe first, given as indices into `fs`.
pub open spec fn severity_sorted_indices(fs: Seq<Finding>) -> Seq<usize> {
    indices_below_rank(fs, 5)
}

/// The indices of `findings` in report order (stably sorted, most severe
/// first).
pub fn severity_sorted_order(findings: &Vec<Finding>) -> (r: Vec<usize>)
    ensures
        r@ == severity_sorted_indices(findings@),
{
    let mut out: Vec<usize> = Vec::new();
    let mut rank: u8 = 0;
    while rank < 5
        invariant
            rank <= 5,
            out@ == indices_below_rank(findings@, rank as int),
        decreases 5 - rank,
    {
        let ghost base = out@;
        let mut i: usize = 0;
        while i < findings.len()
            invariant
                i <= findings.len(),
                rank < 5,
                out@ == base + indices_of_rank(findings@, rank, i as int),
            decreases findings.len() - i,
        {
            if severity_order(findings[i].severity) == rank {
                out.push(i);
            }
            assert(out@ =~= base + indices_of_rank(findings@, rank, i + 1));
            i = i + 1;
        }
        rank = rank + 1;
    }
    out
}

proof fn lemma_indices_of_rank(fs: Seq<Finding>, r: u8, n: int)
    requires
        0 <= n <= fs.len(),
        fs.len() <= usize::MAX,
    ensures
        forall|j: int|
            0 <= j < indices_of_rank(fs, r, n).len() ==> {
                let i = #[trigger] indices_of_rank(fs, r, n)[j];
                &&& i < n
                &&& severity_rank(fs[i as int].severity) == r
            },
        forall|j1: int, j2: int|
            0 <= j1 < j2 < indices_of_rank(fs, r, n).len() ==> indices_of_rank(fs, r, n)[j1]
                < indices_of_rank(fs, r, n)[j2],
        forall|i: int|
            0 <= i < n && severity_rank(fs[i].severity) == r ==> indices_of_rank(fs, r, n).contains(
                i as usize,
            ),
        indices_of_rank(fs, r, n).len() <= n,
    decreases n,
{
    if n > 0 {
        lemma_indices_of_rank(fs, r, n - 1);
        let prev = indices_of_rank(fs, r, n - 1);
        if severity_rank(fs[n - 1].severity) == r {
            let cur = prev.push((n - 1) as usize);
            assert forall|j: int| 0 <= j < cur.len() implies {
                let i = #[trigger] cur[j];
                &&& i < n
                &&& severity_rank(fs[i as int].severity) == r
            } by {
                if j < prev.len() {
                    assert(cur[j] == prev[j]);
                }
            }
            assert forall|j1: int, j2: int| 0 <= j1 < j2 < cur.len() implies cur[j1] < cur[j2] by {
                assert(cur[j1] == prev[j1]);
                if j2 < prev.len() {
                    assert(cur[j2] == prev[j2]);
                }
            }
            assert forall|i: int|
                0 <= i < n && severity_rank(fs[i].severity) == r implies cur.contains(i as usize) by {
                if i < n - 1 {
                    let j = choose|j: int| 0 <= j < prev.len() && prev[j] == i as usize;
                    assert(cur[j] == i as usize);
                } else {
                    assert(cur[prev.len() as int] == i as usize);
                }
            }
        }
    }
}

proof fn lemma_rank_lengths(fs: Seq<Finding>, n: int)
    requires
        0 <= n <= fs.len(),
    ensures
        indices_of_rank(fs, 0, n).len() + indices_of_rank(fs, 1, n).len() + indices_of_rank(fs, 2, n).len()
            + indices_of_rank(fs, 3, n).len() + indices_of_rank(fs, 4, n).len() == n,
    decreases n,
{
    if n > 0 {
        lemma_rank_lengths(fs, n - 1);
    }
}

proof fn lemma_below_rank_len(fs: Seq<Finding>)
    ensures
        indices_below_rank(fs, 5).len() == indices_of_rank(fs, 0, fs.len() as int).len() + indices_of_rank(
            fs,
            1,
            fs.len() as int,
        ).len() + indices_of_rank(fs, 2, fs.len() as int).len() + indices_of_rank(fs, 3, fs.len() as int).len()
            + indices_of_rank(fs, 4, fs.len() as int).len(),
{
    reveal_with_fuel(indices_below_rank, 6);
}

proof fn lemma_sorted_indices_len(fs: Seq<Finding>)
    ensures
        severity_sorted_indices(fs).len() == fs.len(),
{
    lemma_below_rank_len(fs);
    lemma_rank_lengths(fs, fs.len() as int);
}

proof fn lemma_below_rank_shape(fs: Seq<Finding>, r: int)
    requires
        0 <= r <= 5,
        fs.len() <= usize::MAX,
    ensures
        forall|j: int|
            0 <= j < indices_below_rank(fs, r).len() ==> {
                let i = #[trigger] indices_below_rank(fs, r)[j];
                &&& i < fs.len()
                &&& severity_rank(fs[i as int].severity) < r
            },
    decreases r,
{
    if r > 0 {
        lemma_below_rank_shape(fs, r - 1);
        lemma_indices_of_rank(fs, (r - 1) as u8, fs.len() as int);
        let a = indices_below_rank(fs, r - 1);
        let b = indices_of_rank(fs, (r - 1) as u8, fs.len() as int);
        assert forall|j: int| 0 <= j < (a + b).len() implies {
            let i = #[trigger] (a + b)[j];
            &&& i < fs.len()
            &&& severity_rank(fs[i as int].severity) < r
        } by {
            if j < a.len() {
                assert((a + b)[j] == a[j]);
            } else {
                assert((a + b)[j] == b[j - a.len()]);
            }
        }
    }
}

proof fn lemma_sorted_indices_in_range(fs: Seq<Finding>)
    requires
        fs.len() <= usize::MAX,
    ensures
        forall|j: int|
            0 <= j < severity_sorted_indices(fs).len() ==> #[trigger] severity_sorted_indices(fs)[j] < fs.len(),
{
    lemma_below_rank_shape(fs, 5);
}

/// `a` comes before `b` in report order: more severe, or as severe and
/// earlier in the scan.
pub open spec fn reported_before(fs: Seq<Finding>, a: usize, b: usize) -> bool {
    ||| severity_rank(fs[a as int].severity) < severity_rank(fs[b as int].severity)
    ||| (severity_rank(fs[a as int].severity) == severity_rank(fs[b as int].severity) && a < b)
}

proof fn lemma_below_rank_sorted(fs: Seq<Finding>, r: int)
    requires
        0 <= r <= 5,
        fs.len() <= usize::MAX,
    ensures
        forall|j1: int, j2: int|
            0 <= j1 < j2 < indices_below_rank(fs, r).len() ==> reported_before(
                fs,
                #[trigger] indices_below_rank(fs, r)[j1],
                #[trigger] indices_below_rank(fs, r)[j2],
            ),
    decreases r,
{
    if r > 0 {
        lemma_below_rank_sorted(fs, r - 1);
        lemma_below_rank_shape(fs, r - 1);
        lemma_indices_of_rank(fs, (r - 1) as u8, fs.len() as int);
        let a = indices_below_rank(fs, r - 1);
        let b = indices_of_rank(fs, (r - 1) as u8, fs.len() as int);
        assert forall|j1: int, j2: int| 0 <= j1 < j2 < (a + b).len() implies reported_before(
            fs,
            #[trigger] (a + b)[j1],
            #[trigger] (a + b)[j2],
        ) by {
            if j2 < a.len() {
                assert((a + b)[j1] == a[j1]);
                assert((a + b)[j2] == a[j2]);
            } else if j1 < a.len() {
                assert((a + b)[j1] == a[j1]);
                assert((a + b)[j2] == b[j2 - a.len()]);
            } else {
                assert((a + b)[j1] == b[j1 - a.len()]);
                assert((a + b)[j2] == b[j2 - a.len()]);
            }
        }
    }
}

proof fn lemma_below_rank_complete(fs: Seq<Finding>, r: int, i: int)
    requires
        0 <= r <= 5,
        fs.len() <= usize::MAX,
        0 <= i < fs.len(),
        severity_rank(fs[i].severity) < r,
    ensures
        indices_below_rank(fs, r).contains(i as usize),
    decreases r,
{
    let a = indices_below_rank(fs, r - 1);
    let b = indices_of_rank(fs, (r - 1) as u8, fs.len() as int);
    if severity_rank(fs[i].severity) < r - 1 {
        lemma_below_rank_complete(fs, r - 1, i);
        let j = choose|j: int| 0 <= j < a.len() && a[j] == i as usize;
        assert((a + b)[j] == i as usize);
    } else {
        lemma_indices_of_rank(fs, (r - 1) as u8, fs.len() as int);
        let j = choose|j: int| 0 <= j < b.len() && b[j] == i as usize;
        assert((a + b)[a.len() + j] == i as usize);
    }
}

/// Report order is a stable sort by severity: it lists every finding
/// exactly once, more severe ones first, and findings of equal severity in
/// the order the scan produced them.
pub proof fn lemma_report_order_is_stable_sort(fs: Seq<Finding>)
    requires
        fs.len() <= usize::MAX,
    ensures
        severity_sorted_indices(fs).len() == fs.len(),
        forall|j: int|
            0 <= j < severity_sorted_indices(fs).len() ==> #[trigger] severity_sorted_indices(fs)[j] < fs.len(),
        forall|i: usize| i < fs.len() ==> #[trigger] severity_sorted_indices(fs).contains(i),
        forall|j1: int, j2: int|
            0 <= j1 < j2 < severity_sorted_indices(fs).len() ==> reported_before(
                fs,
                #[trigger] severity_sorted_indices(fs)[j1],
                #[trigger] severity_sorted_indices(fs)[j2],
            ),
{
    lemma_sorted_indices_len(fs);
    lemma_sorted_indices_in_range(fs);
    lemma_below_rank_sorted(fs, 5);
    assert forall|i: usize| i < fs.len() implies #[trigger] severity_sorted_indices(fs).contains(i) by {
        lemma_below_rank_complete(fs, 5, i as int);
    }
}

/// Escaped text holds no `<`, `>` or `"`, so it cannot open or close a tag
/// or an attribute value.
pub proof fn lemma_escape_html_safe(s: Seq<char>)
    ensures
        forall|i: int|
            0 <= i < escape_html(s).len() ==> #[trigger] escape_html(s)[i] != '<' && escape_html(s)[i] != '>'
                && escape_html(s)[i] != '"',
        escape_html(s).len() >= s.len(),
    decreases s.len(),
{
    reveal_strlit("&amp;");
    reveal_strlit("&lt;");
    reveal_strlit("&gt;");
    reveal_strlit("&quot;");
    if s.len() > 0 {
        lemma_escape_html_safe(s.drop_last());
        let a = escape_html(s.drop_last());
        let b = escape_char(s.last());
        assert forall|i: int| 0 <= i < (a + b).len() implies #[trigger] (a + b)[i] != '<' && (a + b)[i] != '>'
            && (a + b)[i] != '"' by {
            if i < a.len() {
                assert((a + b)[i] == a[i]);
            } else {
                assert((a + b)[i] == b[i - a.len()]);
            }
        }
    }
}

/// The HTML entity for a character that needs one, the character itself
/// otherwise.
pub open spec fn escape_char(c: char) -> Seq<char> {
    if c == '&' {
        "&amp;"@
    } else if c == '<' {
        "&lt;"@
    } else if c == '>' {
        "&gt;"@
    } else if c == '"' {
        "&quot;"@
    } else {
        seq![c]
    }
}

/// `s` with `&`, `<`, `>` and `"` written as HTML entities.
pub open spec fn escape_html(s: Seq<char>) -> Seq<char>
    decreases s.len(),
{
    if s.len() == 0 {
        seq![]
    } else {
        escape_html(s.drop_last()) + escape_char(s.last())
    }
}

/// Escapes `&`, `<`, `>` and `"` for use in HTML text.
pub fn html_escape(s: &str) -> (r: String)
    ensures
        r@ == escape_html(s@),
{
    let mut out = String::new();
    for c in it: s.chars()
        invariant
            it.seq() == s@,
            out@ == escape_html(s@.take(it.index() as int)),
    {
        let ghost i = it.index() as int;
        assert(s@.take(i + 1).drop_last() =~= s@.take(i));
        if c == '&' {
            out.append("&amp;");
        } else if c == '<' {
            out.append("&lt;");
        } else if c == '>' {
            out.append("&gt;");
        } else if c == '"' {
            out.append("&quot;");
        } else {
            push_char(&mut out, c);
        }
    }
    assert(s@.take(s@.len() as int) =~= s@);
    out
}

/// `s` with every occurrence of the non-empty `pat` replaced by `rep`,
/// matching from the left and resuming after each replacement, as
/// `str::replace` does.
pub open spec fn replace_all(s: Seq<char>, pat: Seq<char>, rep: Seq<char>) -> Seq<char>
    decreases s.len(),
{
    if s.len() == 0 || pat.len() == 0 {
        s
    } else if s.len() >= pat.len() && s.take(pat.len() as int) == pat {
        rep + replace_all(s.skip(pat.len() as int), pat, rep)
    } else {
        seq![s[0]] + replace_all(s.skip(1), pat, rep)
    }
}

/// Decoding of the four entities by a chain of replacements: `&quot;`,
/// then `&gt;`, then `&lt;`, and `&amp;` last.
pub open spec fn unescape_chain(s: Seq<char>) -> Seq<char> {
    let a = replace_all(s, "&quot;"@, seq!['"']);
    let b = replace_all(a, "&gt;"@, seq!['>']);
    let c = replace_all(b, "&lt;"@, seq!['<']);
    replace_all(c, "&amp;"@, seq!['&'])
}

/// The `k`-th escaped character, in the order `&`, `<`, `>`, `"`.
spec fn escaped_char(k: int) -> char {
    if k == 1 {
        '&'
    } else if k == 2 {
        '<'
    } else if k == 3 {
        '>'
    } else {
        '"'
    }
}

/// The entity written for the `k`-th escaped character.
spec fn entity(k: int) -> Seq<char> {
    if k == 1 {
        "&amp;"@
    } else if k == 2 {
        "&lt;"@
    } else if k == 3 {
        "&gt;"@
    } else {
        "&quot;"@
    }
}

/// `c` escaped as `escape_char` does, but only for the first `k` escaped
/// characters.
spec fn escape_char_upto(c: char, k: int) -> Seq<char> {
    if 1 <= k && c == '&' {
        entity(1)
    } else if 2 <= k && c == '<' {
        entity(2)
    } else if 3 <= k && c == '>' {
        entity(3)
    } else if 4 <= k && c == '"' {
        entity(4)
    } else {
        seq![c]
    }
}

/// `s` escaped for the first `k` escaped characters only.
spec fn escape_upto(s: Seq<char>, k: int) -> Seq<char>
    decreases s.len(),
{
    if s.len() == 0 {
        seq![]
    } else {
        escape_char_upto(s[0], k) + escape_upto(s.drop_first(), k)
    }
}

proof fn lemma_escape_html_front(s: Seq<char>)
    requires
        s.len() > 0,
    ensures
        escape_html(s) == escape_char(s[0]) + escape_html(s.drop_first()),
    decreases s.len(),
{
    if s.len() == 1 {
        assert(s.drop_last() =~= seq![]);
        assert(s.drop_first() =~= seq![]);
        assert(escape_char(s[0]) + escape_html(s.drop_first()) =~= escape_char(s[0]));
    } else {
        lemma_escape_html_front(s.drop_last());
        assert(s.drop_last().drop_first() =~= s.drop_first().drop_last());
        assert(s.drop_first().last() == s.last());
        assert(s.drop_last()[0] == s[0]);
    }
}

proof fn lemma_escape_upto_full(s: Seq<char>)
    ensures
        escape_html(s) == escape_upto(s, 4),
    decreases s.len(),
{
    if s.len() > 0 {
        lemma_escape_html_front(s);
        lemma_escape_upto_full(s.drop_first());
        assert(escape_char(s[0]) == escape_char_upto(s[0], 4));
    }
}

proof fn lemma_escape_upto_none(s: Seq<char>)
    ensures
        escape_upto(s, 0) == s,
    decreases s.len(),
{
    if s.len() > 0 {
        lemma_escape_upto_none(s.drop_first());
        assert(seq![s[0]] + s.drop_first() =~= s);
    }
}

/// A stretch without `&` passes through a replacement of a pattern that
/// starts with `&` unchanged.
proof fn lemma_replace_skips_plain(x: Seq<char>, r: Seq<char>, pat: Seq<char>, rep: Seq<char>)
    requires
        pat.len() > 0,
        pat[0] == '&',
        forall|i: int| 0 <= i < x.len() ==> x[i] != '&',
    ensures
        replace_all(x + r, pat, rep) == x + replace_all(r, pat, rep),
    decreases x.len(),
{
    let t = x + r;
    if x.len() == 0 {
        assert(t =~= r);
    } else {
        assert(t[0] == x[0]);
        if t.len() >= pat.len() {
            assert(t.take(pat.len() as int)[0] != pat[0]);
        }
        assert(t.skip(1) =~= x.skip(1) + r);
        lemma_replace_skips_plain(x.skip(1), r, pat, rep);
        assert(seq![x[0]] + (x.skip(1) + replace_all(r, pat, rep)) =~= x + replace_all(r, pat, rep));
    }
}

/// An entity other than the pattern passes through a replacement unchanged.
proof fn lemma_replace_skips_entity(e: Seq<char>, r: Seq<char>, pat: Seq<char>, rep: Seq<char>)
    requires
        e.len() >= 2,
        pat.len() >= 2,
        e[0] == '&',
        pat[0] == '&',
        e[1] != pat[1],
        forall|i: int| 1 <= i < e.len() ==> e[i] != '&',
    ensures
        replace_all(e + r, pat, rep) == e + replace_all(r, pat, rep),
{
    let t = e + r;
    if t.len() >= pat.len() {
        assert(t.take(pat.len() as int)[1] != pat[1]);
    }
    let x = e.skip(1);
    assert(t.skip(1) =~= x + r);
    lemma_replace_skips_plain(x, r, pat, rep);
    assert(seq![e[0]] + (x + replace_all(r, pat, rep)) =~= e + replace_all(r, pat, rep));
}

/// The pattern itself at the front is replaced.
proof fn lemma_replace_hits(r: Seq<char>, pat: Seq<char>, rep: Seq<char>)
    requires
        pat.len() > 0,
    ensures
        replace_all(pat + r, pat, rep) == rep + replace_all(r, pat, rep),
{
    let t = pat + r;
    assert(t.take(pat.len() as int) =~= pat);
    assert(t.skip(pat.len() as int) =~= r);
}

/// Replacing the `k`-th entity by its character, applied to one escaped
/// character followed by anything, lowers that character's escaping by
/// one level.
proof fn lemma_replace_char_step(c: char, r: Seq<char>, k: int)
    requires
        1 <= k <= 4,
    ensures
        replace_all(escape_char_upto(c, k) + r, entity(k), seq![escaped_char(k)])
            == escape_char_upto(c, k - 1) + replace_all(r, entity(k), seq![escaped_char(k)]),
{
    reveal_strlit("&amp;");
    reveal_strlit("&lt;");
    reveal_strlit("&gt;");
    reveal_strlit("&quot;");
    let pat = entity(k);
    let rep = seq![escaped_char(k)];
    let e = escape_char_upto(c, k);
    if c == escaped_char(k) {
        assert(e == pat);
        lemma_replace_hits(r, pat, rep);
        assert(escape_char_upto(c, k - 1) =~= rep);
    } else if e.len() > 1 {
        assert(e == escape_char_upto(c, k - 1));
        assert(e[1] != pat[1]);
        lemma_replace_skips_entity(e, r, pat, rep);
    } else {
        assert(e == seq![c]);
        assert(c != '&');
        assert(e == escape_char_upto(c, k - 1));
        lemma_replace_skips_plain(e, r, pat, rep);
    }
}

/// Replacing the `k`-th entity by its character in text escaped up to
/// level `k` gives the text escaped up to level `k - 1`.
proof fn lemma_replace_level_step(s: Seq<char>, k: int)
    requires
        1 <= k <= 4,
    ensures
        replace_all(escape_upto(s, k), entity(k), seq![escaped_char(k)]) == escape_upto(s, k - 1),
    decreases s.len(),
{
    let pat = entity(k);
    let rep = seq![escaped_char(k)];
    if s.len() == 0 {
        reveal_strlit("&amp;");
        reveal_strlit("&lt;");
        reveal_strlit("&gt;");
        reveal_strlit("&quot;");
        assert(pat.len() > 0);
    } else {
        lemma_replace_level_step(s.drop_first(), k);
        lemma_replace_char_step(s[0], escape_upto(s.drop_first(), k), k);
    }
}

/// Escaping loses nothing: decoding the entities by the chain of
/// replacements `&quot;`, `&gt;`, `&lt;`, `&amp;` (in this order) gives
/// the original text back.
pub proof fn lemma_escape_html_roundtrip(s: Seq<char>)
    ensures
        unescape_chain(escape_html(s)) == s,
{
    lemma_escape_upto_full(s);
    lemma_replace_level_step(s, 4);
    lemma_replace_level_step(s, 3);
    lemma_replace_level_step(s, 2);
    lemma_replace_level_step(s, 1);
    lemma_escape_upto_none(s);
    assert(seq![escaped_char(4)] =~= seq!['"']);
    assert(seq![escaped_char(3)] =~= seq!['>']);
    assert(seq![escaped_char(2)] =~= seq!['<']);
    assert(seq![escaped_char(1)] =~= seq!['&']);
}

/// Different texts escape to different texts.
pub proof fn lemma_escape_html_injective(a: Seq<char>, b: Seq<char>)
    requires
        escape_html(a) == escape_html(b),
    ensures
        a == b,
{
    lemma_escape_html_roundtrip(a);
    lemma_escape_html_roundtrip(b);
}

/// The fixed start of the HTML report: document head, style sheet and
/// heading.
pub const HTML_HEAD: &'static str = "<!DOCTYPE html>\n<html lang=\"zh-CN\">\n<head>\n<meta charset=\"utf-8\">\n<title>SecProbe Security Audit Report</title>\n<style>\n* { margin: 0; padding: 0; box-sizing: border-box; }\nbody { font-family: -apple-system, BlinkMacSystemFont, 'Segoe UI', sans-serif; background: #0f172a; color: #e2e8f0; padding: 2rem; }\n.container { max-width: 1000px; margin: 0 auto; }\nh1 { font-size: 1.8rem; margin-bottom: 0.5rem; color: #38bdf8; }\nh2 { font-size: 1.2rem; margin: 1.5rem 0 0.8rem; color: #94a3b8; border-bottom: 1px solid #334155; padding-bottom: 0.4rem; }\n.meta { color: #64748b; font-size: 0.9rem; margin-bottom: 1.5rem; }\n.stats { display: flex; gap: 1rem; margin: 1rem 0; flex-wrap: wrap; }\n.stat { background: #1e293b; border-radius: 8px; padding: 1rem 1.5rem; min-width: 120px; text-align: center; }\n.stat .num { font-size: 2rem; font-weight: 700; }\n.stat .label { font-size: 0.8rem; color: #94a3b8; }\n.critical .num { color: #ef4444; } .high .num { color: #f59e0b; }\n.medium .num { color: #3b82f6; } .low .num { color: #6b7280; }\n.finding { background: #1e293b; border-radius: 8px; padding: 1.2rem; margin: 0.8rem 0; border-left: 4px solid; }\n.finding.sev-critical { border-color: #ef4444; } .finding.sev-high { border-color: #f59e0b; }\n.finding.sev-medium { border-color: #3b82f6; } .finding.sev-low { border-color: #6b7280; }\n.finding .title { font-weight: 600; font-size: 1rem; margin-bottom: 0.3rem; }\n.finding .loc { font-size: 0.85rem; color: #64748b; }\n.badge { display: inline-block; font-size: 0.75rem; padding: 2px 8px; border-radius: 4px; font-weight: 600; }\n.badge-critical { background: #ef4444; color: white; } .badge-high { background: #f59e0b; color: #1e293b; }\n.badge-medium { background: #3b82f6; color: white; } .badge-low { background: #6b7280; color: white; }\npre { background: #0f172a; padding: 0.8rem; border-radius: 4px; overflow-x: auto; font-size: 0.85rem; margin: 0.5rem 0; }\n.fix { background: #064e3b; padding: 0.8rem; border-radius: 4px; margin-top: 0.5rem; font-size: 0.9rem; }\n</style>\n</head>\n<body>\n<div class=\"container\">\n<h1>SecProbe Security Report</h1>\n";

/// The CSS class of a finding's card.
pub open spec fn severity_card_class(s: Severity) -> Seq<char> {
    match s {
        Severity::Critical => "sev-critical"@,
        Severity::High => "sev-high"@,
        Severity::Medium => "sev-medium"@,
        _ => "sev-low"@,
    }
}

/// The CSS class of a finding's severity badge.
pub open spec fn severity_badge_class(s: Severity) -> Seq<char> {
    match s {
        Severity::Critical => "badge-critical"@,
        Severity::High => "badge-high"@,
        Severity::Medium => "badge-medium"@,
        _ => "badge-low"@,
    }
}

fn card_class(s: Severity) -> (r: &'static str)
    ensures
        r@ == severity_card_class(s),
{
    match s {
        Severity::Critical => "sev-critical",
        Severity::High => "sev-high",
        Severity::Medium => "sev-medium",
        _ => "sev-low",
    }
}

fn badge_class(s: Severity) -> (r: &'static str)
    ensures
        r@ == severity_badge_class(s),
{
    match s {
        Severity::Critical => "badge-critical",
        Severity::High => "badge-high",
        Severity::Medium => "badge-medium",
        _ => "badge-low",
    }
}

/// The line giving CWE and OWASP category, present when both are known.
pub open spec fn html_classification(f: Finding) -> Seq<char> {
    match (opt_string_view(f.cwe_id), opt_string_view(f.owasp_category)) {
        (Some(cwe), Some(owasp)) => "<div class=\"loc\">"@ + cwe + " | "@ + owasp + "</div>\n"@,
        _ => seq![],
    }
}

/// The block with the suggested code, present when there is one.
pub open spec fn html_fix_code(f: Finding) -> Seq<char> {
    match opt_string_view(f.fix_code) {
        Some(fix) => "<pre style=\"border-left:3px solid #10b981;\">"@ + escape_html(fix) + "</pre>\n"@,
        None => seq![],
    }
}

/// The heading of a finding's card: badge, title and rule id.
pub open spec fn html_title(f: Finding) -> Seq<char> {
    "<div class=\"title\"><span class=\"badge "@ + severity_badge_class(f.severity) + "\">"@
        + severity_label(f.severity) + "</span> "@ + escape_html(f.title@) + " <small>("@ + f.rule_id@
        + ")</small></div>\n"@
}

/// Where a finding is, its code snippet and the fix suggestion.
pub open spec fn html_body(f: Finding) -> Seq<char> {
    "<div class=\"loc\">"@ + f.file@ + ":"@ + decimal(f.line as nat) + "</div>\n"@
        + "<pre>"@ + escape_html(f.code_snippet@) + "</pre>\n"@
        + "<div class=\"fix\">Fix: "@ + escape_html(f.fix_suggestion@) + "</div>\n"@
}

/// The card of one finding in the HTML report.
pub open spec fn html_finding(f: Finding) -> Seq<char> {
    "<div class=\"finding "@ + severity_card_class(f.severity) + "\">\n"@
        + html_title(f)
        + html_classification(f)
        + html_body(f)
        + html_fix_code(f)
        + "</div>\n"@
}

/// The cards of the findings at the first `n` positions of `order`.
pub open spec fn html_findings(fs: Seq<Finding>, order: Seq<usize>, n: int) -> Seq<char>
    decreases n,
{
    if n <= 0 {
        seq![]
    } else {
        html_findings(fs, order, n - 1) + html_finding(fs[order[n - 1] as int])
    }
}

/// One counter tile of the summary.
pub open spec fn html_stat(class: Seq<char>, count: nat, label: Seq<char>) -> Seq<char> {
    "<div class=\"stat "@ + class + "\"><div class=\"num\">"@ + decimal(count)
        + "</div><div class=\"label\">"@ + label + "</div></div>\n"@
}

/// The whole HTML report of a scan.
pub open spec fn html_report(r: ScanResult) -> Seq<char> {
    let fs = r.findings@;
    HTML_HEAD@
        + "<div class=\"meta\">Project: "@ + r.project_path@ + " | Files: "@ + decimal(r.scanned_files as nat)
        + "/"@ + decimal(r.total_files as nat) + " | Duration: "@ + decimal(r.scan_duration_ms as nat)
        + "ms</div>\n"@
        + "<div class=\"stats\">\n"@
        + html_stat("critical"@, count_severity(fs, Severity::Critical), "Critical"@)
        + html_stat("high"@, count_severity(fs, Severity::High), "High"@)
        + html_stat("medium"@, count_severity(fs, Severity::Medium), "Medium"@)
        + html_stat("low"@, count_severity(fs, Severity::Low), "Low"@)
        + "</div>\n"@
        + "<h2>Findings</h2>\n"@
        + html_findings(fs, severity_sorted_indices(fs), fs.len() as int)
        + "</div>\n</body>\n</html>"@
}

/// The HTML report's stat tiles, in order Critical, High, Medium, Low, each
/// show the number of findings that have the severity the tile is labelled
/// with.
pub proof fn lemma_html_tiles_count_their_severity(r: ScanResult)
    ensures
        ({
            let fs = r.findings@;
            let nc = fs.filter(|f: Finding| f.severity == Severity::Critical).len();
            let nh = fs.filter(|f: Finding| f.severity == Severity::High).len();
            let nm = fs.filter(|f: Finding| f.severity == Severity::Medium).len();
            let nl = fs.filter(|f: Finding| f.severity == Severity::Low).len();
            exists|p: Seq<char>, q: Seq<char>|
                html_report(r) == #[trigger] (p + "<div class=\"stats\">\n"@
                    + "<div class=\"stat critical\"><div class=\"num\">"@
                    + decimal(nc)
                    + "</div><div class=\"label\">Critical</div></div>\n"@
                    + "<div class=\"stat high\"><div class=\"num\">"@
                    + decimal(nh)
                    + "</div><div class=\"label\">High</div></div>\n"@
                    + "<div class=\"stat medium\"><div class=\"num\">"@
                    + decimal(nm)
                    + "</div><div class=\"label\">Medium</div></div>\n"@
                    + "<div class=\"stat low\"><div class=\"num\">"@
                    + decimal(nl)
                    + "</div><div class=\"label\">Low</div></div>\n"@
                    + "</div>\n"@ + q)
        }),
{
    let fs = r.findings@;
    lemma_count_severity_counts(fs, Severity::Critical);
    lemma_count_severity_counts(fs, Severity::High);
    lemma_count_severity_counts(fs, Severity::Medium);
    lemma_count_severity_counts(fs, Severity::Low);
    reveal_strlit("<div class=\"stat ");
    reveal_strlit("\"><div class=\"num\">");
    reveal_strlit("</div><div class=\"label\">");
    reveal_strlit("</div></div>\n");
    reveal_strlit("critical");
    reveal_strlit("high");
    reveal_strlit("medium");
    reveal_strlit("low");
    reveal_strlit("Critical");
    reveal_strlit("High");
    reveal_strlit("Medium");
    reveal_strlit("Low");
    reveal_strlit("<div class=\"stat critical\"><div class=\"num\">");
    reveal_strlit("<div class=\"stat high\"><div class=\"num\">");
    reveal_strlit("<div class=\"stat medium\"><div class=\"num\">");
    reveal_strlit("<div class=\"stat low\"><div class=\"num\">");
    reveal_strlit("</div><div class=\"label\">Critical</div></div>\n");
    reveal_strlit("</div><div class=\"label\">High</div></div>\n");
    reveal_strlit("</div><div class=\"label\">Medium</div></div>\n");
    reveal_strlit("</div><div class=\"label\">Low</div></div>\n");
    let nc = count_severity(fs, Severity::Critical);
    let nh = count_severity(fs, Severity::High);
    let nm = count_severity(fs, Severity::Medium);
    let nl = count_severity(fs, Severity::Low);
    assert("<div class=\"stat "@ + "critical"@ + "\"><div class=\"num\">"@ =~= "<div class=\"stat critical\"><div class=\"num\">"@);
    assert("<div class=\"stat "@ + "high"@ + "\"><div class=\"num\">"@ =~= "<div class=\"stat high\"><div class=\"num\">"@);
    assert("<div class=\"stat "@ + "medium"@ + "\"><div class=\"num\">"@ =~= "<div class=\"stat medium\"><div class=\"num\">"@);
    assert("<div class=\"stat "@ + "low"@ + "\"><div class=\"num\">"@ =~= "<div class=\"stat low\"><div class=\"num\">"@);
    assert("</div><div class=\"label\">"@ + "Critical"@ + "</div></div>\n"@ =~= "</div><div class=\"label\">Critical</div></div>\n"@);
    assert("</div><div class=\"label\">"@ + "High"@ + "</div></div>\n"@ =~= "</div><div class=\"label\">High</div></div>\n"@);
    assert("</div><div class=\"label\">"@ + "Medium"@ + "</div></div>\n"@ =~= "</div><div class=\"label\">Medium</div></div>\n"@);
    assert("</div><div class=\"label\">"@ + "Low"@ + "</div></div>\n"@ =~= "</div><div class=\"label\">Low</div></div>\n"@);
    let p = HTML_HEAD@
        + "<div class=\"meta\">Project: "@ + r.project_path@ + " | Files: "@ + decimal(r.scanned_files as nat)
        + "/"@ + decimal(r.total_files as nat) + " | Duration: "@ + decimal(r.scan_duration_ms as nat)
        + "ms</div>\n"@;
    let q = "<h2>Findings</h2>\n"@
        + html_findings(fs, severity_sorted_indices(fs), fs.len() as int)
        + "</div>\n</body>\n</html>"@;
    assert(html_report(r) =~= p + "<div class=\"stats\">\n"@
        + "<div class=\"stat critical\"><div class=\"num\">"@ + decimal(nc)
        + "</div><div class=\"label\">Critical</div></div>\n"@
        + "<div class=\"stat high\"><div class=\"num\">"@ + decimal(nh)
        + "</div><div class=\"label\">High</div></div>\n"@
        + "<div class=\"stat medium\"><div class=\"num\">"@ + decimal(nm)
        + "</div><div class=\"label\">Medium</div></div>\n"@
        + "<div class=\"stat low\"><div class=\"num\">"@ + decimal(nl)
        + "</div><div class=\"label\">Low</div></div>\n"@
        + "</div>\n"@ + q);
}

fn push_html_stat(s: &mut String, class: &str, count: u32, label: &str)
    ensures
        final(s)@ == old(s)@ + html_stat(class@, count as nat, label@),
{
    let ghost start = s@;
    s.append("<div class=\"stat ");
    s.append(class);
    s.append("\"><div class=\"num\">");
    push_decimal(s, count as u64);
    s.append("</div><div class=\"label\">");
    s.append(label);
    s.append("</div></div>\n");
    assert(s@ =~= start + html_stat(class@, count as nat, label@));
}

fn push_html_title(s: &mut String, f: &Finding)
    ensures
        final(s)@ == old(s)@ + html_title(*f),
{
    let ghost start = s@;
    s.append("<div class=\"title\"><span class=\"badge ");
    s.append(badge_class(f.severity));
    s.append("\">");
    s.append(f.severity.label());
    s.append("</span> ");
    let title = html_escape(f.title.as_str());
    s.append(title.as_str());
    s.append(" <small>(");
    s.append(f.rule_id.as_str());
    s.append(")</small></div>\n");
    assert(s@ =~= start + html_title(*f));
}

fn push_html_classification(s: &mut String, f: &Finding)
    ensures
        final(s)@ == old(s)@ + html_classification(*f),
{
    let ghost start = s@;
    match (&f.cwe_id, &f.owasp_category) {
        (Some(cwe), Some(owasp)) => {
            s.append("<div class=\"loc\">");
            s.append(cwe.as_str());
            s.append(" | ");
            s.append(owasp.as_str());
            s.append("</div>\n");
        },
        _ => {},
    }
    assert(s@ =~= start + html_classification(*f));
}

fn push_html_body(s: &mut String, f: &Finding)
    ensures
        final(s)@ == old(s)@ + html_body(*f),
{
    let ghost start = s@;
    s.append("<div class=\"loc\">");
    s.append(f.file.as_str());
    s.append(":");
    push_decimal(s, f.line as u64);
    s.append("</div>\n");
    s.append("<pre>");
    let code = html_escape(f.code_snippet.as_str());
    s.append(code.as_str());
    s.append("</pre>\n");
    s.append("<div class=\"fix\">Fix: ");
    let fix = html_escape(f.fix_suggestion.as_str());
    s.append(fix.as_str());
    s.append("</div>\n");
    assert(s@ =~= start + html_body(*f));
}

fn push_html_fix_code(s: &mut String, f: &Finding)
    ensures
        final(s)@ == old(s)@ + html_fix_code(*f),
{
    let ghost start = s@;
    match &f.fix_code {
        Some(code) => {
            s.append("<pre style=\"border-left:3px solid #10b981;\">");
            let esc = html_escape(code.as_str());
            s.append(esc.as_str());
            s.append("</pre>\n");
        },
        None => {},
    }
    assert(s@ =~= start + html_fix_code(*f));
}

fn push_html_finding(s: &mut String, f: &Finding)
    ensures
        final(s)@ == old(s)@ + html_finding(*f),
{
    let ghost start = s@;
    s.append("<div class=\"finding ");
    s.append(card_class(f.severity));
    s.append("\">\n");
    push_html_title(s, f);
    push_html_classification(s, f);
    push_html_body(s, f);
    push_html_fix_code(s, f);
    s.append("</div>\n");
    assert(s@ =~= start + html_finding(*f));
}

/// The HTML report of a scan: summary tiles, then one card per finding,
/// most severe first.
pub fn export_html(result: &ScanResult) -> (r: String)
    requires
        result.findings.len() <= u32::MAX,
    ensures
        r@ == html_report(*result),
{
    let summary = result.summary();
    let mut html = String::new();
    html.append(HTML_HEAD);
    html.append("<div class=\"meta\">Project: ");
    html.append(result.project_path.as_str());
    html.append(" | Files: ");
    push_decimal(&mut html, result.scanned_files as u64);
    html.append("/");
    push_decimal(&mut html, result.total_files as u64);
    html.append(" | Duration: ");
    push_decimal(&mut html, result.scan_duration_ms);
    html.append("ms</div>\n");
    html.append("<div class=\"stats\">\n");
    push_html_stat(&mut html, "critical", summary.critical, "Critical");
    push_html_stat(&mut html, "high", summary.high, "High");
    push_html_stat(&mut html, "medium", summary.medium, "Medium");
    push_html_stat(&mut html, "low", summary.low, "Low");
    html.append("</div>\n");
    html.append("<h2>Findings</h2>\n");
    let ghost before_cards = html@;
    let order = severity_sorted_order(&result.findings);
    proof {
        lemma_sorted_indices_in_range(result.findings@);
    }
    let mut k: usize = 0;
    while k < order.len()
        invariant
            k <= order.len(),
            order@ == severity_sorted_indices(result.findings@),
            forall|j: int| 0 <= j < order.len() ==> order@[j] < result.findings.len(),
            html@ == before_cards + html_findings(result.findings@, order@, k as int),
        decreases order.len() - k,
    {
        push_html_finding(&mut html, &result.findings[order[k]]);
        k = k + 1;
    }
    proof {
        lemma_sorted_indices_len(result.findings@);
    }
    html.append("</div>\n</body>\n</html>");
    assert(html@ =~= html_report(*result));
    html
}

} // verus!
