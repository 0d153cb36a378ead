//! Character-level text utilities shared by the scanner and the reports.
use vstd::prelude::*;

verus! {

broadcast use vstd::string::group_string_axioms;

/// Appends one character to a string (`String::push`).
#[verifier::external_body]
pub fn push_char(s: &mut String, c: char)
    ensures
        final(s)@ == old(s)@.push(c),
{
    s.push(c);
}

/// The characters of `s`, in order.
pub fn chars_of(s: &str) -> (v: Vec<char>)
    ensures
        v@ == s@,
{
    let mut v: Vec<char> = Vec::new();
    for c in it: s.chars()
        invariant
            v@ == it.seq().take(it.index() as int),
    {
        v.push(c);
    }
    v
}

/// Whether two strings hold the same characters.
pub fn str_eq(a: &str, b: &str) -> (r: bool)
    ensures
        r == (a@ == b@),
{
    let va = chars_of(a);
    let vb = chars_of(b);
    if va.len() != vb.len() {
        return false;
    }
    let mut i: usize = 0;
    while i < va.len()
        invariant
            va@ == a@,
            vb@ == b@,
            va.len() == vb.len(),
            i <= va.len(),
            forall|j: int| 0 <= j < i ==> va@[j] == vb@[j],
        decreases va.len() - i,
    {
        if va[i] != vb[i] {
            return false;
        }
        i = i + 1;
    }
    assert(a@ =~= b@);
    true
}

/// The decimal digit `d` as a character.
pub open spec fn digit_char(d: nat) -> char {
    if d == 0 { '0' }
    else if d == 1 { '1' }
    else if d == 2 { '2' }
    else if d == 3 { '3' }
    else if d == 4 { '4' }
    else if d == 5 { '5' }
    else if d == 6 { '6' }
    else if d == 7 { '7' }
    else if d == 8 { '8' }
    else { '9' }
}

/// The decimal notation of `n`, most significant digit first, without
/// leading zeros (`0` is written as a single `'0'`).
pub open spec fn decimal(n: nat) -> Seq<char>
    decreases n,
{
    if n < 10 {
        seq![digit_char(n)]
    } else {
        decimal(n / 10).push(digit_char(n % 10))
    }
}

/// `s` preceded by as many copies of `fill` as it takes to reach `width`
/// characters (unchanged when it is already that long).
pub open spec fn pad_left(s: Seq<char>, width: nat, fill: char) -> Seq<char> {
    if s.len() < width {
        Seq::new((width - s.len()) as nat, |i: int| fill) + s
    } else {
        s
    }
}

fn digit_to_char(d: u64) -> (c: char)
    requires
        d < 10,
    ensures
        c == digit_char(d as nat),
{
    if d == 0 { '0' }
    else if d == 1 { '1' }
    else if d == 2 { '2' }
    else if d == 3 { '3' }
    else if d == 4 { '4' }
    else if d == 5 { '5' }
    else if d == 6 { '6' }
    else if d == 7 { '7' }
    else if d == 8 { '8' }
    else { '9' }
}

/// Appends the decimal notation of `n`.
pub fn push_decimal(s: &mut String, n: u64)
    ensures
        final(s)@ == old(s)@ + decimal(n as nat),
    decreases n,
{
    if n < 10 {
        push_char(s, digit_to_char(n));
    } else {
        push_decimal(s, n / 10);
        push_char(s, digit_to_char(n % 10));
    }
}

/// Appends `n` in decimal, right-aligned in a field of `width` characters
/// filled on the left with `fill` (as `format!("{:4}")` or `format!("{:04}")`).
pub fn push_padded_decimal(s: &mut String, n: u64, width: usize, fill: char)
    ensures
        final(s)@ == old(s)@ + pad_left(decimal(n as nat), width as nat, fill),
{
    let mut digits = String::new();
    push_decimal(&mut digits, n);
    assert(digits@ =~= decimal(n as nat));
    let len = digits.as_str().unicode_len();
    let ghost start = s@;
    if len < width {
        let mut k: usize = 0;
        while k < width - len
            invariant
                k <= width - len,
                len < width,
                s@ == start + Seq::new(k as nat, |i: int| fill),
            decreases width - len - k,
        {
            push_char(s, fill);
            k = k + 1;
            assert(s@ =~= start + Seq::new(k as nat, |i: int| fill));
        }
    }
    s.append(digits.as_str());
    assert(s@ =~= start + pad_left(decimal(n as nat), width as nat, fill));
}


/// Number of characters before the first `'\n'` of `s` (all of `s` when it
/// holds none).
pub open spec fn line_len(s: Seq<char>) -> nat
    decreases s.len(),
{
    if s.len() == 0 {
        0
    } else if s[0] == '\n' {
        0
    } else {
        1 + line_len(s.drop_first())
    }
}

/// `l` without one trailing carriage return.
pub open spec fn strip_cr(l: Seq<char>) -> Seq<char> {
    if l.len() > 0 && l.last() == '\r' {
        l.drop_last()
    } else {
        l
    }
}

/// The lines of `s` as `str::lines` yields them: `s` is split at each
/// `'\n'`, a `'\r'` just before a `'\n'` is removed with it, and a final
/// line ending does not start another (empty) line.
pub open spec fn lines_of(s: Seq<char>) -> Seq<Seq<char>>
    decreases s.len(),
{
    if s.len() == 0 {
        seq![]
    } else {
        let n = line_len(s);
        if n >= s.len() {
            seq![s]
        } else {
            seq![strip_cr(s.take(n as int))] + lines_of(s.skip(n + 1int))
        }
    }
}

pub proof fn lemma_line_len(s: Seq<char>)
    ensures
        line_len(s) <= s.len(),
        forall|i: int| 0 <= i < line_len(s) ==> s[i] != '\n',
        line_len(s) < s.len() ==> s[line_len(s) as int] == '\n',
    decreases s.len(),
{
    if s.len() > 0 && s[0] != '\n' {
        lemma_line_len(s.drop_first());
        assert forall|i: int| 0 <= i < line_len(s) implies s[i] != '\n' by {
            if i > 0 {
                assert(s[i] == s.drop_first()[i - 1]);
            }
        }
    }
}

proof fn lemma_line_len_prefix(cur: Seq<char>, r: Seq<char>)
    requires
        forall|i: int| 0 <= i < cur.len() ==> cur[i] != '\n',
    ensures
        line_len(cur + r) == cur.len() + line_len(r),
    decreases cur.len(),
{
    if cur.len() > 0 {
        assert((cur + r)[0] == cur[0]);
        assert((cur + r).drop_first() =~= cur.drop_first() + r);
        lemma_line_len_prefix(cur.drop_first(), r);
    } else {
        assert(cur + r =~= r);
    }
}

proof fn lemma_lines_newline(cur: Seq<char>, rest: Seq<char>)
    requires
        forall|i: int| 0 <= i < cur.len() ==> cur[i] != '\n',
    ensures
        lines_of(cur + seq!['\n'] + rest) == seq![strip_cr(cur)] + lines_of(rest),
{
    let s = cur + seq!['\n'] + rest;
    assert(s =~= cur + (seq!['\n'] + rest));
    lemma_line_len_prefix(cur, seq!['\n'] + rest);
    assert((seq!['\n'] + rest)[0] == '\n');
    assert(line_len(s) == cur.len());
    assert(s.take(cur.len() as int) =~= cur);
    assert(s.skip(cur.len() + 1int) =~= rest);
}

proof fn lemma_lines_last(cur: Seq<char>)
    requires
        forall|i: int| 0 <= i < cur.len() ==> cur[i] != '\n',
        cur.len() > 0,
    ensures
        lines_of(cur) == seq![cur],
{
    lemma_line_len_prefix(cur, seq![]);
    assert(cur + seq![] =~= cur);
}

/// Views of a vector of strings.
pub open spec fn string_views(v: Seq<String>) -> Seq<Seq<char>> {
    v.map_values(|l: String| l@)
}

/// The lines of `content` (as `str::lines` splits them).
pub fn split_lines(content: &str) -> (lines: Vec<String>)
    ensures
        string_views(lines@) == lines_of(content@),
{
    let mut lines: Vec<String> = Vec::new();
    let mut cur = String::new();
    let mut pending_cr = false;
    assert(cur@ + content@.skip(0) =~= content@);
    assert(string_views(lines@) + lines_of(content@) =~= lines_of(content@));
    for c in it: content.chars()
        invariant
            it.seq() == content@,
            lines_of(content@) == string_views(lines@) + lines_of(
                (if pending_cr { cur@.push('\r') } else { cur@ }) + it.seq().skip(it.index() as int),
            ),
            forall|i: int| 0 <= i < cur@.len() ==> cur@[i] != '\n',
            !pending_cr ==> (cur@.len() == 0 || cur@.last() != '\r'),
    {
        let ghost idx = it.index() as int;
        let ghost curv = if pending_cr { cur@.push('\r') } else { cur@ };
        let ghost rest = it.seq().skip(idx + 1);
        let ghost before = string_views(lines@);
        assert(it.seq().skip(idx) =~= seq![c] + rest);
        if c == '\n' {
            assert(curv + it.seq().skip(idx) =~= curv + seq!['\n'] + rest);
            assert forall|i: int| 0 <= i < curv.len() implies curv[i] != '\n' by {
                if i < cur@.len() {
                    assert(curv[i] == cur@[i]);
                }
            }
            proof {
                lemma_lines_newline(curv, rest);
            }
            assert(strip_cr(curv) =~= cur@);
            let line = cur;
            lines.push(line);
            cur = String::new();
            pending_cr = false;
            assert(string_views(lines@) =~= before + seq![strip_cr(curv)]);
            assert(cur@ + rest =~= rest);
        } else if c == '\r' {
            if pending_cr {
                push_char(&mut cur, '\r');
            }
            pending_cr = true;
            assert(cur@.push('\r') + rest =~= curv + it.seq().skip(idx));
        } else {
            if pending_cr {
                push_char(&mut cur, '\r');
            }
            pending_cr = false;
            push_char(&mut cur, c);
            assert(cur@ + rest =~= curv + it.seq().skip(idx));
        }
    }
    let ghost before = string_views(lines@);
    if pending_cr {
        push_char(&mut cur, '\r');
    }
    assert(lines_of(content@) == before + lines_of(cur@)) by {
        assert(cur@ + content@.skip(content@.len() as int) =~= cur@);
    }
    if cur.as_str().unicode_len() > 0 {
        assert forall|i: int| 0 <= i < cur@.len() implies cur@[i] != '\n' by {}
        proof {
            lemma_lines_last(cur@);
        }
        lines.push(cur);
        assert(string_views(lines@) =~= before + lines_of(cur@));
    } else {
        assert(lines_of(cur@) =~= seq![]);
        assert(string_views(lines@) =~= before + lines_of(cur@));
    }
    lines
}

/// No line that `lines_of` yields holds a line feed.
pub proof fn lemma_lines_have_no_newline(s: Seq<char>)
    ensures
        forall|k: int, i: int|
            0 <= k < lines_of(s).len() && 0 <= i < lines_of(s)[k].len() ==> #[trigger] lines_of(s)[k][i]
                != '\n',
    decreases s.len(),
{
    if s.len() > 0 {
        lemma_line_len(s);
        let n = line_len(s);
        if n < s.len() {
            lemma_lines_have_no_newline(s.skip(n + 1int));
            let first = strip_cr(s.take(n as int));
            let rest = lines_of(s.skip(n + 1int));
            assert forall|k: int, i: int|
                0 <= k < lines_of(s).len() && 0 <= i < lines_of(s)[k].len() implies #[trigger] lines_of(s)[k][i]
                    != '\n' by {
                if k == 0 {
                    assert(lines_of(s)[0] == first);
                    assert(first[i] == s[i]);
                } else {
                    assert(lines_of(s)[k] == rest[k - 1]);
                }
            }
        }
    }
}

} // verus!
