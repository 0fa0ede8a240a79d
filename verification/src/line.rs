//! The line model of the dump protocol.
//!
//! Every tree or token record is one `Line`: an indentation depth, a kind
//! label, an optional detail, and a byte span. A kind label beginning with
//! `?` marks a placeholder for an unsupported syntactic category; those are
//! counted, never dropped.

use vstd::prelude::*;
use crate::text::{escape_text, escape_chars, dec_seq, push_decimal};

verus! {

/// A half-open byte-offset range into the source text.
#[derive(Clone, Copy, PartialEq, Eq, Structural, Debug)]
pub struct Span {
    pub start: u32,
    pub end: u32,
}

/// A span is valid for a source of `len` bytes when it lies inside it.
pub open spec fn span_wf(s: Span, len: nat) -> bool {
    s.start <= s.end && s.end <= len
}

/// The mathematical content of one output line.
pub ghost struct GLine {
    pub depth: nat,
    pub kind: Seq<char>,
    pub detail: Seq<char>,
    pub start: u32,
    pub end: u32,
}

/// One output line of a tree or token dump.
pub struct Line {
    pub depth: usize,
    pub kind: Vec<char>,
    pub detail: Vec<char>,
    pub start: u32,
    pub end: u32,
}

impl View for Line {
    type V = GLine;

    open spec fn view(&self) -> GLine {
        GLine {
            depth: self.depth as nat,
            kind: self.kind@,
            detail: self.detail@,
            start: self.start,
            end: self.end,
        }
    }
}

/// The views of a sequence of lines.
pub open spec fn lview(s: Seq<Line>) -> Seq<GLine> {
    s.map_values(|l: Line| l@)
}

/// The line a node with the given fields produces.
pub open spec fn node_line(depth: nat, kind: Seq<char>, detail: Seq<char>, span: Span) -> Seq<GLine> {
    seq![GLine { depth, kind, detail, start: span.start, end: span.end }]
}

/// Appends one node line, as the dumpers do for every visited node.
pub fn push_line(out: &mut Vec<Line>, depth: usize, kind: Vec<char>, detail: Vec<char>, span: Span)
    ensures lview(final(out)@) == lview(old(out)@) + node_line(depth as nat, kind@, detail@, span),
{
    let line = Line { depth, kind, detail, start: span.start, end: span.end };
    out.push(line);
    assert(lview(out@) =~= lview(old(out)@) + node_line(depth as nat, kind@, detail@, span));
}

/// A placeholder line: its kind label starts with `?`.
pub open spec fn is_placeholder(l: GLine) -> bool {
    l.kind.len() > 0 && l.kind[0] == '?'
}

pub open spec fn placeholder_count_from(s: Seq<GLine>, i: int) -> nat
    decreases s.len() - i,
{
    if i < 0 || i >= s.len() {
        0
    } else {
        (if is_placeholder(s[i]) { 1nat } else { 0nat }) + placeholder_count_from(s, i + 1)
    }
}

/// How many placeholder (unsupported-node) lines a dump holds.
pub open spec fn placeholder_count(s: Seq<GLine>) -> nat {
    placeholder_count_from(s, 0)
}

proof fn lemma_placeholder_count_bound(s: Seq<GLine>, i: int)
    requires 0 <= i <= s.len(),
    ensures placeholder_count_from(s, i) <= s.len() - i,
    decreases s.len() - i,
{
    if i < s.len() {
        lemma_placeholder_count_bound(s, i + 1);
    }
}

/// The unsupported-node counter of a dump: the number of `?`-kind
/// placeholder lines it contains, exactly.
pub fn count_placeholders(lines: &Vec<Line>) -> (r: usize)
    ensures r == placeholder_count(lview(lines@)),
{
    let ghost gs = lview(lines@);
    let mut count: usize = 0;
    let mut i: usize = lines.len();
    proof { assert(gs.len() == lines@.len()); }
    while i > 0
        invariant
            i <= lines.len(),
            gs == lview(lines@),
            gs.len() == lines@.len(),
            count == placeholder_count_from(gs, i as int),
            count <= lines.len() - i,
        decreases i,
    {
        i = i - 1;
        proof { lemma_placeholder_count_bound(gs, i as int + 1); }
        let l = &lines[i];
        if l.kind.len() > 0 && l.kind[0] == '?' {
            proof { assert(is_placeholder(gs[i as int])); }
            count = count + 1;
        } else {
            proof { assert(!is_placeholder(gs[i as int])); }
        }
    }
    count
}

/// A run of `n` spaces.
pub open spec fn spaces(n: nat) -> Seq<char> {
    Seq::new(n, |i: int| ' ')
}

/// The rendered text of one line:
/// two spaces per depth, the kind, the escaped detail when non-empty,
/// then `start:end`, ending in a newline.
pub open spec fn render_line(l: GLine) -> Seq<char> {
    spaces(2 * l.depth) + l.kind
        + (if l.detail.len() > 0 { seq![' '] + escape_text(l.detail) } else { Seq::empty() })
        + seq![' '] + dec_seq(l.start as int) + seq![':'] + dec_seq(l.end as int) + seq!['\n']
}

pub open spec fn render_from(s: Seq<GLine>, i: int) -> Seq<char>
    decreases s.len() - i,
{
    if i < 0 || i >= s.len() {
        Seq::empty()
    } else {
        render_line(s[i]) + render_from(s, i + 1)
    }
}

/// The rendered text of a whole dump.
pub open spec fn render_all(s: Seq<GLine>) -> Seq<char> {
    render_from(s, 0)
}

fn push_indent(depth: usize, out: &mut Vec<char>)
    ensures final(out)@ == old(out)@ + spaces(2 * depth as nat),
    decreases depth,
{
    if depth == 0 {
        assert(out@ =~= old(out)@ + spaces(0));
    } else {
        out.push(' ');
        out.push(' ');
        push_indent(depth - 1, out);
        assert(out@ =~= old(out)@ + spaces(2 * depth as nat));
    }
}

fn push_all(src: &Vec<char>, out: &mut Vec<char>)
    ensures final(out)@ == old(out)@ + src@,
{
    let mut i: usize = 0;
    while i < src.len()
        invariant
            i <= src.len(),
            out@ == old(out)@ + src@.take(i as int),
        decreases src.len() - i,
    {
        out.push(src[i]);
        i = i + 1;
        assert(out@ =~= old(out)@ + src@.take(i as int));
    }
    assert(out@ =~= old(out)@ + src@);
}

fn render_one(l: &Line, out: &mut Vec<char>)
    ensures final(out)@ == old(out)@ + render_line(l@),
{
    push_indent(l.depth, out);
    push_all(&l.kind, out);
    if l.detail.len() > 0 {
        out.push(' ');
        let esc = escape_chars(&l.detail);
        push_all(&esc, out);
    }
    out.push(' ');
    push_decimal(l.start, out);
    out.push(':');
    push_decimal(l.end, out);
    out.push('\n');
    assert(out@ =~= old(out)@ + render_line(l@));
}

/// Renders a dump's lines, starting at index `i`, onto `out`.
fn render_onto(lines: &Vec<Line>, i: usize, out: &mut Vec<char>)
    ensures final(out)@ == old(out)@ + render_from(lview(lines@), i as int),
    decreases lines.len() - i,
{
    if i >= lines.len() {
        assert(out@ =~= old(out)@ + render_from(lview(lines@), i as int));
        return;
    }
    render_one(&lines[i], out);
    render_onto(lines, i + 1, out);
    assert(lview(lines@)[i as int] == lines@[i as int]@);
    assert(out@ =~= old(out)@ + render_from(lview(lines@), i as int));
}

/// The rendered text of a dump: one line per visited node.
pub fn render_lines(lines: &Vec<Line>) -> (r: Vec<char>)
    ensures r@ == render_all(lview(lines@)),
{
    let mut out: Vec<char> = Vec::new();
    render_onto(lines, 0, &mut out);
    out
}

} // verus!
