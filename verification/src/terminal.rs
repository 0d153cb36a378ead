//! The terminal report as painted text: lines of segments, each with the
//! colour and emphasis it is printed in.
use vstd::prelude::*;
use crate::text::{decimal, lines_of, push_decimal, split_lines, string_views, chars_of};
use crate::types::{Finding, ScanResult, Severity, severity_label, language_label, count_severity, lemma_count_severity_counts};
use crate::scanner::opt_string_view;
use crate::report::{severity_sorted_indices, severity_sorted_order};

verus! {

broadcast use vstd::string::group_string_axioms;

/// Foreground colours of the terminal report.
#[derive(Debug, Clone, Copy, PartialEq, Eq, Structural)]
pub enum Color {
    Red,
    Yellow,
    Cyan,
    Green,
}

/// How a piece of text is painted: an optional colour, bold, dimmed.
#[derive(Debug, Clone, Copy, PartialEq, Eq, Structural)]
pub struct Paint {
    pub color: Option<Color>,
    pub bold: bool,
    pub dimmed: bool,
}

/// A piece of text with its paint.
pub struct Segment {
    pub text: String,
    pub paint: Paint,
}

pub open spec fn paint_of(color: Option<Color>, bold: bool, dimmed: bool) -> Paint {
    Paint { color, bold, dimmed }
}

pub open spec fn plain() -> Paint {
    paint_of(None, false, false)
}

pub open spec fn bold() -> Paint {
    paint_of(None, true, false)
}

pub open spec fn dimmed() -> Paint {
    paint_of(None, false, true)
}

/// Critical in bold red, High in bold yellow, Medium in cyan, Low and Info
/// dimmed.
pub open spec fn severity_paint(s: Severity) -> Paint {
    match s {
        Severity::Critical => paint_of(Some(Color::Red), true, false),
        Severity::High => paint_of(Some(Color::Yellow), true, false),
        Severity::Medium => paint_of(Some(Color::Cyan), false, false),
        Severity::Low => dimmed(),
        Severity::Info => dimmed(),
    }
}

/// The paint of a severity's label and counters.
pub fn severity_style(s: Severity) -> (r: Paint)
    ensures
        r == severity_paint(s),
{
    match s {
        Severity::Critical => Paint { color: Some(Color::Red), bold: true, dimmed: false },
        Severity::High => Paint { color: Some(Color::Yellow), bold: true, dimmed: false },
        Severity::Medium => Paint { color: Some(Color::Cyan), bold: false, dimmed: false },
        Severity::Low => Paint { color: None, bold: false, dimmed: true },
        Severity::Info => Paint { color: None, bold: false, dimmed: true },
    }
}

/// The view of a segment: its text and paint.
pub open spec fn segment_view(s: Segment) -> (Seq<char>, Paint) {
    (s.text@, s.paint)
}

/// The view of a painted line.
pub open spec fn line_view(l: Seq<Segment>) -> Seq<(Seq<char>, Paint)> {
    l.map_values(|s: Segment| segment_view(s))
}

/// The view of painted lines.
pub open spec fn report_view(ls: Seq<Vec<Segment>>) -> Seq<Seq<(Seq<char>, Paint)>> {
    ls.map_values(|l: Vec<Segment>| line_view(l@))
}

pub const DOUBLE_RULE: &'static str = "══════════════════════════════════════════════════════════";

/// `lang: count` for the first `n` languages, joined by `, `.
pub open spec fn language_list(ls: Seq<(crate::types::Language, usize)>, n: int) -> Seq<char>
    decreases n,
{
    if n <= 0 {
        seq![]
    } else if n == 1 {
        language_label(ls[0].0) + ": "@ + decimal(ls[0].1 as nat)
    } else {
        language_list(ls, n - 1) + ", "@ + language_label(ls[n - 1].0) + ": "@ + decimal(ls[n - 1].1 as nat)
    }
}

/// The report's opening lines: banner, project, files, duration and (when
/// any were seen) languages.
pub open spec fn header_lines(r: ScanResult) -> Seq<Seq<(Seq<char>, Paint)>> {
    seq![
        seq![],
        seq![(DOUBLE_RULE@, bold())],
        seq![("  SecProbe - AI Security Audit Tool"@, paint_of(Some(Color::Cyan), true, false))],
        seq![(DOUBLE_RULE@, bold())],
        seq![],
        seq![("Project:"@, bold()), ("  "@ + r.project_path@, plain())],
        seq![("Files:"@, bold()), ("  "@ + decimal(r.scanned_files as nat) + " / "@ + decimal(r.total_files as nat) + " scanned"@, plain())],
        seq![("Duration:"@, bold()), ("  "@ + decimal(r.scan_duration_ms as nat) + " ms"@, plain())],
    ] + if r.languages@.len() > 0 {
        seq![seq![("Languages:"@, bold()), (" "@ + language_list(r.languages@, r.languages@.len() as int), plain())]]
    } else {
        seq![]
    }
}

/// The severity counters line.
pub open spec fn severity_bar(fs: Seq<Finding>) -> Seq<(Seq<char>, Paint)> {
    seq![
        ("  "@, plain()),
        (decimal(count_severity(fs, Severity::Critical)), severity_paint(Severity::Critical)),
        (" Critical  "@, plain()),
        (decimal(count_severity(fs, Severity::High)), severity_paint(Severity::High)),
        (" High  "@, plain()),
        (decimal(count_severity(fs, Severity::Medium)), severity_paint(Severity::Medium)),
        (" Medium  "@, plain()),
        (decimal(count_severity(fs, Severity::Low)), severity_paint(Severity::Low)),
        (" Low  "@, plain()),
        (decimal(count_severity(fs, Severity::Info)), severity_paint(Severity::Info)),
        (" Info"@, plain()),
    ]
}

/// The texts of a line's segments.
pub open spec fn line_texts(l: Seq<(Seq<char>, Paint)>) -> Seq<Seq<char>> {
    l.map_values(|sg: (Seq<char>, Paint)| sg.0)
}

/// The terminal report holds the severity counter line, and each counter
/// on it is the number of findings of the severity named right after it:
/// `  <critical> Critical  <high> High  <medium> Medium  <low> Low  <info> Info`.
pub proof fn lemma_bar_counts_their_severity(r: ScanResult)
    ensures
        ({
            let fs = r.findings@;
            let nc = fs.filter(|f: Finding| f.severity == Severity::Critical).len();
            let nh = fs.filter(|f: Finding| f.severity == Severity::High).len();
            let nm = fs.filter(|f: Finding| f.severity == Severity::Medium).len();
            let nl = fs.filter(|f: Finding| f.severity == Severity::Low).len();
            let ni = fs.filter(|f: Finding| f.severity == Severity::Info).len();
            exists|k: int|
                0 <= k < terminal_report(r).len() && line_texts(#[trigger] terminal_report(r)[k]) == seq![
                    "  "@,
                    decimal(nc),
                    " Critical  "@,
                    decimal(nh),
                    " High  "@,
                    decimal(nm),
                    " Medium  "@,
                    decimal(nl),
                    " Low  "@,
                    decimal(ni),
                    " Info"@,
                ]
        }),
{
    let fs = r.findings@;
    lemma_count_severity_counts(fs, Severity::Critical);
    lemma_count_severity_counts(fs, Severity::High);
    lemma_count_severity_counts(fs, Severity::Medium);
    lemma_count_severity_counts(fs, Severity::Low);
    lemma_count_severity_counts(fs, Severity::Info);
    let k: int = header_lines(r).len() as int + 2;
    assert(terminal_report(r)[k] == severity_bar(fs));
    assert(line_texts(severity_bar(fs)) =~= seq![
        "  "@,
        decimal(count_severity(fs, Severity::Critical)),
        " Critical  "@,
        decimal(count_severity(fs, Severity::High)),
        " High  "@,
        decimal(count_severity(fs, Severity::Medium)),
        " Medium  "@,
        decimal(count_severity(fs, Severity::Low)),
        " Low  "@,
        decimal(count_severity(fs, Severity::Info)),
        " Info"@,
    ]);
}

/// When there are findings, the terminal report ends its listing with the
/// totals line, whose counters are the number of all findings and of the
/// findings of each severity named after each counter:
/// `  Total: <n> issues (<critical> critical, <high> high, <medium> medium, <low> low)`.
pub proof fn lemma_totals_count_their_severity(r: ScanResult)
    requires
        r.findings@.len() > 0,
    ensures
        ({
            let fs = r.findings@;
            let nc = fs.filter(|f: Finding| f.severity == Severity::Critical).len();
            let nh = fs.filter(|f: Finding| f.severity == Severity::High).len();
            let nm = fs.filter(|f: Finding| f.severity == Severity::Medium).len();
            let nl = fs.filter(|f: Finding| f.severity == Severity::Low).len();
            exists|k: int|
                0 <= k < terminal_report(r).len() && line_texts(#[trigger] terminal_report(r)[k]) == seq![
                    "  Total: "@,
                    decimal(fs.len()),
                    " issues ("@,
                    decimal(nc),
                    " critical, "@,
                    decimal(nh),
                    " high, "@,
                    decimal(nm),
                    " medium, "@,
                    decimal(nl),
                    " low)"@,
                ]
        }),
{
    let fs = r.findings@;
    lemma_count_severity_counts(fs, Severity::Critical);
    lemma_count_severity_counts(fs, Severity::High);
    lemma_count_severity_counts(fs, Severity::Medium);
    lemma_count_severity_counts(fs, Severity::Low);
    let head = header_lines(r) + seq![
        seq![],
        seq![("─── Summary ─────────────────────────────────────────────"@, dimmed())],
        severity_bar(fs),
    ];
    let body = seq![
        seq![],
        seq![("─── Findings ────────────────────────────────────────────"@, dimmed())],
    ] + findings_lines(fs, severity_sorted_indices(fs), fs.len() as int);
    let foot = footer_lines(fs);
    assert(terminal_report(r) =~= head + (body + foot));
    let k: int = head.len() as int + body.len() as int + 2;
    assert(terminal_report(r)[k] == foot[2]);
    assert(line_texts(foot[2]) =~= seq![
        "  Total: "@,
        decimal(fs.len()),
        " issues ("@,
        decimal(count_severity(fs, Severity::Critical)),
        " critical, "@,
        decimal(count_severity(fs, Severity::High)),
        " high, "@,
        decimal(count_severity(fs, Severity::Medium)),
        " medium, "@,
        decimal(count_severity(fs, Severity::Low)),
        " low)"@,
    ]);
}

/// A snippet line is painted red when it is the marked (hit) line.
pub open spec fn snippet_paint(l: Seq<char>) -> Paint {
    if l.len() > 0 && l[0] == '>' { paint_of(Some(Color::Red), false, false) } else { dimmed() }
}

/// Each line of `ls`, indented, painted as `p` says.
pub open spec fn indented_lines(ls: Seq<Seq<char>>, n: int, code: bool) -> Seq<Seq<(Seq<char>, Paint)>>
    decreases n,
{
    if n <= 0 {
        seq![]
    } else {
        indented_lines(ls, n - 1, code).push(
            seq![("    "@, plain()), (ls[n - 1], if code { snippet_paint(ls[n - 1]) } else { paint_of(Some(Color::Green), false, false) })],
        )
    }
}

/// The CWE and OWASP line of a finding (blank when it has neither).
pub open spec fn classification_text(f: Finding) -> Seq<char> {
    (match opt_string_view(f.cwe_id) {
        Some(c) => "  "@ + c,
        None => seq![],
    }) + (match opt_string_view(f.owasp_category) {
        Some(o) => " | "@ + o,
        None => seq![],
    })
}

/// The lines of finding `f`, shown as number `i` (1-based) of `n`.
pub open spec fn finding_lines(f: Finding, i: nat, n: nat) -> Seq<Seq<(Seq<char>, Paint)>> {
    let snippet = lines_of(f.code_snippet@);
    seq![
        seq![],
        seq![
            ("  "@, plain()),
            ("["@ + decimal(i) + "/"@ + decimal(n) + "]"@, dimmed()),
            (" "@, plain()),
            (severity_label(f.severity), severity_paint(f.severity)),
            (" "@, plain()),
            (f.title@, bold()),
            (" "@, plain()),
            ("("@ + f.rule_id@ + ")"@, dimmed()),
        ],
        seq![(classification_text(f), plain())],
        seq![("  "@, plain()), ("Location:"@, dimmed()), (" "@ + f.file@ + ":"@ + decimal(f.line as nat), plain())],
        seq![],
    ] + indented_lines(snippet, snippet.len() as int, true) + seq![
        seq![],
        seq![("  "@, plain()), ("Fix:"@, paint_of(Some(Color::Yellow), true, false)), (" "@ + f.fix_suggestion@, plain())],
    ] + match opt_string_view(f.fix_code) {
        Some(fix) => seq![
            seq![],
            seq![("  "@, plain()), ("  Recommended code:"@, paint_of(Some(Color::Green), false, false))],
        ] + indented_lines(lines_of(fix), lines_of(fix).len() as int, false),
        None => seq![],
    }
}

/// The lines of the findings at the first `k` positions of `order`.
pub open spec fn findings_lines(fs: Seq<Finding>, order: Seq<usize>, k: int) -> Seq<Seq<(Seq<char>, Paint)>>
    decreases k,
{
    if k <= 0 {
        seq![]
    } else {
        findings_lines(fs, order, k - 1) + finding_lines(fs[order[k - 1] as int], k as nat, order.len())
    }
}

/// The closing lines with the totals.
pub open spec fn footer_lines(fs: Seq<Finding>) -> Seq<Seq<(Seq<char>, Paint)>> {
    seq![
        seq![],
        seq![(DOUBLE_RULE@, bold())],
        seq![
            ("  Total: "@, plain()),
            (decimal(fs.len()), bold()),
            (" issues ("@, plain()),
            (decimal(count_severity(fs, Severity::Critical)), paint_of(Some(Color::Red), true, false)),
            (" critical, "@, plain()),
            (decimal(count_severity(fs, Severity::High)), paint_of(Some(Color::Yellow), true, false)),
            (" high, "@, plain()),
            (decimal(count_severity(fs, Severity::Medium)), paint_of(Some(Color::Cyan), false, false)),
            (" medium, "@, plain()),
            (decimal(count_severity(fs, Severity::Low)), dimmed()),
            (" low)"@, plain()),
        ],
        seq![(DOUBLE_RULE@, bold())],
        seq![],
    ]
}

/// The whole terminal report of a scan, line by line.
pub open spec fn terminal_report(r: ScanResult) -> Seq<Seq<(Seq<char>, Paint)>> {
    let fs = r.findings@;
    header_lines(r) + seq![
        seq![],
        seq![("─── Summary ─────────────────────────────────────────────"@, dimmed())],
        severity_bar(fs),
    ] + if fs.len() == 0 {
        seq![seq![], seq![("  No security issues found!"@, paint_of(Some(Color::Green), true, false))], seq![]]
    } else {
        seq![
            seq![],
            seq![("─── Findings ────────────────────────────────────────────"@, dimmed())],
        ] + findings_lines(fs, severity_sorted_indices(fs), fs.len() as int) + footer_lines(fs)
    }
}

fn plain_paint() -> (r: Paint)
    ensures
        r == plain(),
{
    Paint { color: None, bold: false, dimmed: false }
}

fn bold_paint() -> (r: Paint)
    ensures
        r == bold(),
{
    Paint { color: None, bold: true, dimmed: false }
}

fn dimmed_paint() -> (r: Paint)
    ensures
        r == dimmed(),
{
    Paint { color: None, bold: false, dimmed: true }
}

fn color_paint(c: Color, b: bool) -> (r: Paint)
    ensures
        r == paint_of(Some(c), b, false),
{
    Paint { color: Some(c), bold: b, dimmed: false }
}

fn seg(text: &str, paint: Paint) -> (r: Segment)
    ensures
        segment_view(r) == (text@, paint),
{
    Segment { text: text.to_string(), paint }
}

fn seg_owned(text: String, paint: Paint) -> (r: Segment)
    ensures
        segment_view(r) == (text@, paint),
{
    Segment { text, paint }
}

fn dec_string(n: u64) -> (r: String)
    ensures
        r@ == decimal(n as nat),
{
    let mut s = String::new();
    push_decimal(&mut s, n);
    assert(s@ =~= decimal(n as nat));
    s
}

fn push_line(out: &mut Vec<Vec<Segment>>, line: Vec<Segment>)
    ensures
        report_view(final(out)@) == report_view(old(out)@).push(line_view(line@)),
{
    let ghost before = out@;
    out.push(line);
    assert(report_view(out@) =~= report_view(before).push(line_view(line@)));
}

fn push_blank(out: &mut Vec<Vec<Segment>>)
    ensures
        report_view(final(out)@) == report_view(old(out)@).push(seq![]),
{
    let l: Vec<Segment> = Vec::new();
    assert(line_view(l@) =~= seq![]);
    push_line(out, l);
}

fn push_one(out: &mut Vec<Vec<Segment>>, text: &str, paint: Paint)
    ensures
        report_view(final(out)@) == report_view(old(out)@).push(seq![(text@, paint)]),
{
    let mut l: Vec<Segment> = Vec::new();
    l.push(seg(text, paint));
    assert(line_view(l@) =~= seq![(text@, paint)]);
    push_line(out, l);
}

fn push_two(out: &mut Vec<Vec<Segment>>, a: &str, pa: Paint, b: String, pb: Paint)
    ensures
        report_view(final(out)@) == report_view(old(out)@).push(seq![(a@, pa), (b@, pb)]),
{
    let ghost bv = b@;
    let mut l: Vec<Segment> = Vec::new();
    l.push(seg(a, pa));
    l.push(seg_owned(b, pb));
    assert(line_view(l@) =~= seq![(a@, pa), (bv, pb)]);
    push_line(out, l);
}

fn language_list_string(ls: &Vec<(crate::types::Language, usize)>) -> (r: String)
    ensures
        r@ == language_list(ls@, ls@.len() as int),
{
    let mut s = String::new();
    let mut i: usize = 0;
    while i < ls.len()
        invariant
            i <= ls.len(),
            s@ == language_list(ls@, i as int),
        decreases ls.len() - i,
    {
        let ghost before = s@;
        if i > 0 {
            s.append(", ");
        }
        s.append(ls[i].0.label());
        s.append(": ");
        push_decimal(&mut s, ls[i].1 as u64);
        i = i + 1;
        if i == 1 {
            assert(s@ =~= language_list(ls@, 1));
        } else {
            assert(s@ =~= before + ", "@ + language_label(ls@[i - 1].0) + ": "@ + decimal(ls@[i - 1].1 as nat));
        }
    }
    s
}

fn push_header(out: &mut Vec<Vec<Segment>>, r: &ScanResult)
    ensures
        report_view(final(out)@) == report_view(old(out)@) + header_lines(*r),
{
    let ghost start = report_view(out@);
    push_blank(out);
    push_one(out, DOUBLE_RULE, bold_paint());
    push_one(out, "  SecProbe - AI Security Audit Tool", color_paint(Color::Cyan, true));
    push_one(out, DOUBLE_RULE, bold_paint());
    push_blank(out);
    let mut project = "  ".to_string();
    project.append(r.project_path.as_str());
    push_two(out, "Project:", bold_paint(), project, plain_paint());
    let mut files = "  ".to_string();
    push_decimal(&mut files, r.scanned_files as u64);
    files.append(" / ");
    push_decimal(&mut files, r.total_files as u64);
    files.append(" scanned");
    push_two(out, "Files:", bold_paint(), files, plain_paint());
    let mut duration = "  ".to_string();
    push_decimal(&mut duration, r.scan_duration_ms);
    duration.append(" ms");
    push_two(out, "Duration:", bold_paint(), duration, plain_paint());
    if r.languages.len() > 0 {
        let mut langs = " ".to_string();
        let list = language_list_string(&r.languages);
        langs.append(list.as_str());
        push_two(out, "Languages:", bold_paint(), langs, plain_paint());
    }
    assert(report_view(out@) =~= start + header_lines(*r));
}

fn push_severity_bar(out: &mut Vec<Vec<Segment>>, r: &ScanResult, sm: &crate::types::ScanSummary)
    requires
        sm.critical == count_severity(r.findings@, Severity::Critical),
        sm.high == count_severity(r.findings@, Severity::High),
        sm.medium == count_severity(r.findings@, Severity::Medium),
        sm.low == count_severity(r.findings@, Severity::Low),
        sm.info == count_severity(r.findings@, Severity::Info),
    ensures
        report_view(final(out)@) == report_view(old(out)@).push(severity_bar(r.findings@)),
{
    let mut l: Vec<Segment> = Vec::new();
    l.push(seg("  ", plain_paint()));
    l.push(seg_owned(dec_string(sm.critical as u64), severity_style(Severity::Critical)));
    l.push(seg(" Critical  ", plain_paint()));
    l.push(seg_owned(dec_string(sm.high as u64), severity_style(Severity::High)));
    l.push(seg(" High  ", plain_paint()));
    l.push(seg_owned(dec_string(sm.medium as u64), severity_style(Severity::Medium)));
    l.push(seg(" Medium  ", plain_paint()));
    l.push(seg_owned(dec_string(sm.low as u64), severity_style(Severity::Low)));
    l.push(seg(" Low  ", plain_paint()));
    l.push(seg_owned(dec_string(sm.info as u64), severity_style(Severity::Info)));
    l.push(seg(" Info", plain_paint()));
    assert(line_view(l@) =~= severity_bar(r.findings@));
    push_line(out, l);
}

fn marks_hit(l: &str) -> (r: bool)
    ensures
        r == (l@.len() > 0 && l@[0] == '>'),
{
    let v = chars_of(l);
    v.len() > 0 && v[0] == '>'
}

fn push_indented(out: &mut Vec<Vec<Segment>>, lines: &Vec<String>, code: bool)
    ensures
        report_view(final(out)@) == report_view(old(out)@) + indented_lines(
            string_views(lines@),
            lines@.len() as int,
            code,
        ),
{
    let ghost start = report_view(out@);
    let ghost lv = string_views(lines@);
    let mut i: usize = 0;
    while i < lines.len()
        invariant
            i <= lines.len(),
            lv == string_views(lines@),
            report_view(out@) == start + indented_lines(lv, i as int, code),
        decreases lines.len() - i,
    {
        let text = lines[i].as_str();
        assert(text@ == lv[i as int]);
        let p = if code {
            if marks_hit(text) { color_paint(Color::Red, false) } else { dimmed_paint() }
        } else {
            color_paint(Color::Green, false)
        };
        let mut l: Vec<Segment> = Vec::new();
        l.push(seg("    ", plain_paint()));
        l.push(seg(text, p));
        push_line(out, l);
        i = i + 1;
        assert(line_view(l@) =~= seq![("    "@, plain()), (lv[i - 1], if code { snippet_paint(lv[i - 1]) } else { paint_of(Some(Color::Green), false, false) })]);
        assert(report_view(out@) =~= start + indented_lines(lv, i as int, code));
    }
}

fn push_finding_title(out: &mut Vec<Vec<Segment>>, f: &Finding, i: usize, n: usize)
    ensures
        report_view(final(out)@) == report_view(old(out)@).push(finding_lines(*f, i as nat, n as nat)[1]),
{
    let mut counter = "[".to_string();
    push_decimal(&mut counter, i as u64);
    counter.append("/");
    push_decimal(&mut counter, n as u64);
    counter.append("]");
    let mut rule = "(".to_string();
    rule.append(f.rule_id.as_str());
    rule.append(")");
    let ghost cv = counter@;
    let ghost rv = rule@;
    let mut l: Vec<Segment> = Vec::new();
    l.push(seg("  ", plain_paint()));
    l.push(seg_owned(counter, dimmed_paint()));
    l.push(seg(" ", plain_paint()));
    l.push(seg(f.severity.label(), severity_style(f.severity)));
    l.push(seg(" ", plain_paint()));
    l.push(seg(f.title.as_str(), bold_paint()));
    l.push(seg(" ", plain_paint()));
    l.push(seg_owned(rule, dimmed_paint()));
    assert(line_view(l@) =~= finding_lines(*f, i as nat, n as nat)[1]);
    push_line(out, l);
}

fn classification_string(f: &Finding) -> (r: String)
    ensures
        r@ == classification_text(*f),
{
    let mut s = String::new();
    match &f.cwe_id {
        Some(c) => {
            s.append("  ");
            s.append(c.as_str());
        },
        None => {},
    }
    let ghost mid = s@;
    match &f.owasp_category {
        Some(o) => {
            s.append(" | ");
            s.append(o.as_str());
        },
        None => {},
    }
    assert(s@ =~= classification_text(*f));
    s
}

fn push_finding(out: &mut Vec<Vec<Segment>>, f: &Finding, i: usize, n: usize)
    ensures
        report_view(final(out)@) == report_view(old(out)@) + finding_lines(*f, i as nat, n as nat),
{
    let ghost start = report_view(out@);
    let ghost fl = finding_lines(*f, i as nat, n as nat);
    push_blank(out);
    push_finding_title(out, f, i, n);
    let mut l: Vec<Segment> = Vec::new();
    l.push(seg_owned(classification_string(f), plain_paint()));
    assert(line_view(l@) =~= fl[2]);
    push_line(out, l);
    let mut loc = " ".to_string();
    loc.append(f.file.as_str());
    loc.append(":");
    push_decimal(&mut loc, f.line as u64);
    let ghost locv = loc@;
    let mut l2: Vec<Segment> = Vec::new();
    l2.push(seg("  ", plain_paint()));
    l2.push(seg("Location:", dimmed_paint()));
    l2.push(seg_owned(loc, plain_paint()));
    assert(line_view(l2@) =~= fl[3]);
    push_line(out, l2);
    push_blank(out);
    assert(fl[0] =~= seq![]);
    assert(fl[4] =~= seq![]);
    assert(report_view(out@) =~= start + fl.take(5));
    let snippet = split_lines(f.code_snippet.as_str());
    push_indented(out, &snippet, true);
    push_blank(out);
    let mut fix = " ".to_string();
    fix.append(f.fix_suggestion.as_str());
    let ghost fixv = fix@;
    let mut l3: Vec<Segment> = Vec::new();
    l3.push(seg("  ", plain_paint()));
    l3.push(seg("Fix:", color_paint(Color::Yellow, true)));
    l3.push(seg_owned(fix, plain_paint()));
    push_line(out, l3);
    let ghost mid = report_view(out@);
    match &f.fix_code {
        Some(code) => {
            push_blank(out);
            push_two(out, "  ", plain_paint(), "  Recommended code:".to_string(), color_paint(Color::Green, false));
            let code_lines = split_lines(code.as_str());
            push_indented(out, &code_lines, false);
        },
        None => {},
    }
    assert(line_view(l3@) =~= seq![("  "@, plain()), ("Fix:"@, paint_of(Some(Color::Yellow), true, false)), (" "@ + f.fix_suggestion@, plain())]);
    assert(report_view(out@) =~= start + fl);
}

fn push_footer(out: &mut Vec<Vec<Segment>>, r: &ScanResult, sm: &crate::types::ScanSummary)
    requires
        sm.critical == count_severity(r.findings@, Severity::Critical),
        sm.high == count_severity(r.findings@, Severity::High),
        sm.medium == count_severity(r.findings@, Severity::Medium),
        sm.low == count_severity(r.findings@, Severity::Low),
        sm.total == r.findings.len(),
    ensures
        report_view(final(out)@) == report_view(old(out)@) + footer_lines(r.findings@),
{
    let ghost start = report_view(out@);
    push_blank(out);
    push_one(out, DOUBLE_RULE, bold_paint());
    let mut l: Vec<Segment> = Vec::new();
    l.push(seg("  Total: ", plain_paint()));
    l.push(seg_owned(dec_string(sm.total as u64), bold_paint()));
    l.push(seg(" issues (", plain_paint()));
    l.push(seg_owned(dec_string(sm.critical as u64), color_paint(Color::Red, true)));
    l.push(seg(" critical, ", plain_paint()));
    l.push(seg_owned(dec_string(sm.high as u64), color_paint(Color::Yellow, true)));
    l.push(seg(" high, ", plain_paint()));
    l.push(seg_owned(dec_string(sm.medium as u64), color_paint(Color::Cyan, false)));
    l.push(seg(" medium, ", plain_paint()));
    l.push(seg_owned(dec_string(sm.low as u64), dimmed_paint()));
    l.push(seg(" low)", plain_paint()));
    assert(line_view(l@) =~= footer_lines(r.findings@)[2]);
    push_line(out, l);
    push_one(out, DOUBLE_RULE, bold_paint());
    push_blank(out);
    assert(report_view(out@) =~= start + footer_lines(r.findings@));
}

/// The terminal report of a scan as painted lines: banner and project
/// facts, the severity counters, then every finding (most severe first)
/// with its snippet and fix, and the totals.
pub fn terminal_report_lines(result: &ScanResult) -> (r: Vec<Vec<Segment>>)
    requires
        result.findings.len() <= u32::MAX,
    ensures
        report_view(r@) == terminal_report(*result),
{
    let summary = result.summary();
    let mut out: Vec<Vec<Segment>> = Vec::new();
    assert(report_view(out@) =~= seq![]);
    push_header(&mut out, result);
    push_blank(&mut out);
    push_one(&mut out, "─── Summary ─────────────────────────────────────────────", dimmed_paint());
    push_severity_bar(&mut out, result, &summary);
    let ghost after_bar = report_view(out@);
    let ghost fs = result.findings@;
    if result.findings.len() == 0 {
        push_blank(&mut out);
        push_one(&mut out, "  No security issues found!", color_paint(Color::Green, true));
        push_blank(&mut out);
        assert(report_view(out@) =~= terminal_report(*result));
        return out;
    }
    push_blank(&mut out);
    push_one(&mut out, "─── Findings ────────────────────────────────────────────", dimmed_paint());
    let ghost before_findings = report_view(out@);
    let order = severity_sorted_order(&result.findings);
    proof {
        crate::report::lemma_report_order_is_stable_sort(fs);
    }
    let n = order.len();
    let mut k: usize = 0;
    while k < n
        invariant
            k <= n,
            n == order.len(),
            order@ == severity_sorted_indices(fs),
            fs == result.findings@,
            forall|j: int| 0 <= j < order.len() ==> order@[j] < fs.len(),
            report_view(out@) == before_findings + findings_lines(fs, order@, k as int),
        decreases n - k,
    {
        push_finding(&mut out, &result.findings[order[k]], k + 1, n);
        k = k + 1;
    }
    push_footer(&mut out, result, &summary);
    assert(report_view(out@) =~= terminal_report(*result));
    out
}

} // verus!
