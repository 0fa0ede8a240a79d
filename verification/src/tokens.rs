//! The token dump: the raw token stream, one line per token, in stream
//! order, preceded by a header with the total token count.
//!
//! Tokens the front-end classifies as whitespace/comment placeholders are
//! filtered; the stream ends at (and includes) the first end-of-input token.

use vstd::prelude::*;
use crate::text::{dec_seq, push_decimal, push_decimal_usize, str_to_chars};
use crate::snippet::{snippet, snippet_text};
use crate::line::Span;

verus! {

/// Token text shown on a dump line is capped at this many source bytes.
pub const TOKEN_TEXT_CAP: usize = 80;

/// One raw token as the front-end reports it: its span, the display name of
/// its kind, and whether it is the end-of-input token or a trivia
/// (whitespace/comment) placeholder.
pub struct RawToken {
    pub start: u32,
    pub end: u32,
    pub kind: String,
    pub eof: bool,
    pub trivia: bool,
}

/// The tokens a dump keeps: trivia dropped, everything else in order,
/// ending at (and including) the first end-of-input token.
pub open spec fn kept_from(ts: Seq<RawToken>, i: int) -> Seq<RawToken>
    decreases ts.len() - i,
{
    if i < 0 || i >= ts.len() {
        Seq::empty()
    } else if ts[i].eof {
        seq![ts[i]]
    } else if ts[i].trivia {
        kept_from(ts, i + 1)
    } else {
        seq![ts[i]] + kept_from(ts, i + 1)
    }
}

/// The rendered text of one token line:
/// two spaces, the kind, `start:end`, then the bounded escaped token text.
pub open spec fn token_line_text(t: RawToken, src: Seq<u8>) -> Seq<char> {
    seq![' ', ' '] + t.kind@ + seq![' '] + dec_seq(t.start as int) + seq![':']
        + dec_seq(t.end as int) + seq![' ']
        + snippet_text(src, Span { start: t.start, end: t.end }, TOKEN_TEXT_CAP as nat)
        + seq!['\n']
}

pub open spec fn token_lines_from(ts: Seq<RawToken>, i: int, src: Seq<u8>) -> Seq<char>
    decreases ts.len() - i,
{
    if i < 0 || i >= ts.len() {
        Seq::empty()
    } else {
        token_line_text(ts[i], src) + token_lines_from(ts, i + 1, src)
    }
}

/// The whole token dump: header, count of kept tokens, one line each.
pub open spec fn token_dump_text(ts: Seq<RawToken>, src: Seq<u8>) -> Seq<char> {
    "=== TOKENS ===\ntoken_count: "@ + dec_seq(kept_from(ts, 0).len() as int) + seq!['\n']
        + token_lines_from(kept_from(ts, 0), 0, src)
}

fn copy_token(t: &RawToken) -> (r: RawToken)
    ensures r == *t,
{
    RawToken {
        start: t.start,
        end: t.end,
        kind: t.kind.clone(),
        eof: t.eof,
        trivia: t.trivia,
    }
}

fn keep_tokens(ts: &Vec<RawToken>, i: usize, out: &mut Vec<RawToken>)
    ensures final(out)@ == old(out)@ + kept_from(ts@, i as int),
    decreases ts@.len() - i,
{
    if i < ts.len() {
        let t = &ts[i];
        if t.eof {
            out.push(copy_token(t));
        } else {
            if !t.trivia {
                out.push(copy_token(t));
            }
            keep_tokens(ts, i + 1, out);
        }
    }
    assert(out@ =~= old(out)@ + kept_from(ts@, i as int));
}

fn push_token_lines(ts: &Vec<RawToken>, i: usize, src: &[u8], out: &mut Vec<char>)
    ensures final(out)@ == old(out)@ + token_lines_from(ts@, i as int, src@),
    decreases ts@.len() - i,
{
    if i < ts.len() {
        let t = &ts[i];
        out.push(' ');
        out.push(' ');
        let kindt = str_to_chars(t.kind.as_str());
        let mut j: usize = 0;
        while j < kindt.len()
            invariant
                j <= kindt@.len(),
                kindt@ == ts@[i as int].kind@,
                i < ts@.len(),
                out@ == old(out)@ + seq![' ', ' '] + kindt@.take(j as int),
            decreases kindt@.len() - j,
        {
            out.push(kindt[j]);
            j = j + 1;
            assert(out@ =~= old(out)@ + seq![' ', ' '] + kindt@.take(j as int));
        }
        assert(out@ =~= old(out)@ + seq![' ', ' '] + ts@[i as int].kind@);
        out.push(' ');
        push_decimal(t.start, out);
        out.push(':');
        push_decimal(t.end, out);
        out.push(' ');
        let sn = snippet(src, Span { start: t.start, end: t.end }, TOKEN_TEXT_CAP);
        let mut k: usize = 0;
        let ghost mid = out@;
        while k < sn.len()
            invariant
                k <= sn@.len(),
                out@ == mid + sn@.take(k as int),
            decreases sn@.len() - k,
        {
            out.push(sn[k]);
            k = k + 1;
            assert(out@ =~= mid + sn@.take(k as int));
        }
        out.push('\n');
        assert(out@ =~= old(out)@ + token_line_text(ts@[i as int], src@));
        push_token_lines(ts, i + 1, src, out);
    }
    assert(out@ =~= old(out)@ + token_lines_from(ts@, i as int, src@));
}

/// The token dump of a raw token stream over the given source bytes.
pub fn token_dump(ts: &Vec<RawToken>, src: &[u8]) -> (r: Vec<char>)
    ensures r@ == token_dump_text(ts@, src@),
{
    let mut kept: Vec<RawToken> = Vec::new();
    keep_tokens(ts, 0, &mut kept);
    let mut out: Vec<char> = str_to_chars("=== TOKENS ===\ntoken_count: ");
    push_decimal_usize(kept.len(), &mut out);
    out.push('\n');
    push_token_lines(&kept, 0, src, &mut out);
    assert(out@ =~= token_dump_text(ts@, src@));
    out
}


/// Token-dump determinism: the dump text is a function of the token stream
/// and the source bytes alone.
pub proof fn lemma_token_dump_deterministic(a: Seq<RawToken>, b: Seq<RawToken>, s1: Seq<u8>, s2: Seq<u8>)
    requires a == b, s1 == s2,
    ensures token_dump_text(a, s1) == token_dump_text(b, s2),
{
}

} // verus!
