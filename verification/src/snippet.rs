//! Span extraction: mapping a byte span to a bounded, escaped source snippet.
//!
//! The policy: clamp the end offset to the source length, return empty for an
//! empty or inverted range, truncate to a byte budget without ever splitting a
//! multi-byte character, then escape the result for single-line output.

use vstd::prelude::*;
use crate::line::Span;
use crate::text::{escape_text, escape_chars};

verus! {

/// A byte that may start a character: not a UTF-8 continuation byte.
pub open spec fn is_boundary_byte(b: u8) -> bool {
    b & 0xC0 != 0x80
}

/// The largest index at most `k` that lands on a character boundary of `s`.
pub open spec fn boundary_back(s: Seq<u8>, k: nat) -> nat
    decreases k,
{
    if k == 0 {
        0
    } else if k >= s.len() || is_boundary_byte(s[k as int]) {
        k
    } else {
        boundary_back(s, (k - 1) as nat)
    }
}

/// The clamped, bounded byte slice a span selects from the source:
/// the end is clamped to the source length, an empty or inverted range gives
/// nothing, and anything longer than `cap` bytes is cut back to a boundary.
pub open spec fn clamp_slice(src: Seq<u8>, span: Span, cap: nat) -> Seq<u8> {
    let e: nat = if span.end as nat <= src.len() { span.end as nat } else { src.len() };
    if e <= span.start as nat {
        Seq::empty()
    } else {
        let raw = src.subrange(span.start as int, e as int);
        if raw.len() <= cap {
            raw
        } else {
            raw.take(boundary_back(raw, cap) as int)
        }
    }
}

/// The characters a byte string decodes to.
pub uninterp spec fn decoded_chars(bytes: Seq<u8>) -> Seq<char>;

/// Relies on String::from_utf8_lossy and str::chars: the characters a byte
/// string decodes to are a function of the bytes alone, and no bytes decode
/// to no characters.
#[verifier::external_body]
fn decode_bytes(bytes: &Vec<u8>) -> (r: Vec<char>)
    ensures
        r@ == decoded_chars(bytes@),
        bytes@.len() == 0 ==> r@.len() == 0,
{
    String::from_utf8_lossy(bytes).chars().collect()
}

/// The bounded, escaped snippet a span selects from the source.
pub open spec fn snippet_text(src: Seq<u8>, span: Span, cap: nat) -> Seq<char> {
    escape_text(decoded_chars(clamp_slice(src, span, cap)))
}

fn boundary_back_exec(buf: &Vec<u8>, k: usize) -> (r: usize)
    ensures r == boundary_back(buf@, k as nat),
    decreases k,
{
    if k == 0 {
        0
    } else if k >= buf.len() || buf[k] & 0xC0 != 0x80 {
        k
    } else {
        boundary_back_exec(buf, k - 1)
    }
}

/// The snippet of `src` selected by `span`, at most `cap` bytes of it,
/// escaped for single-line output. An empty or inverted span — and any span
/// that selects no bytes — gives the empty snippet.
pub fn snippet(src: &[u8], span: Span, cap: usize) -> (r: Vec<char>)
    ensures
        r@ == snippet_text(src@, span, cap as nat),
        span.end <= span.start ==> r@.len() == 0,
        clamp_slice(src@, span, cap as nat).len() == 0 ==> r@.len() == 0,
{
    let len: usize = src.len();
    let s: usize = span.start as usize;
    let e: usize = if (span.end as usize) < len { span.end as usize } else { len };
    let mut buf: Vec<u8> = Vec::new();
    if s < e {
        let mut i: usize = s;
        while i < e
            invariant
                s <= i <= e <= src@.len(),
                buf@ == src@.subrange(s as int, i as int),
            decreases e - i,
        {
            buf.push(src[i]);
            i = i + 1;
            assert(buf@ =~= src@.subrange(s as int, i as int));
        }
        if buf.len() > cap {
            let b = boundary_back_exec(&buf, cap);
            let mut cut: Vec<u8> = Vec::new();
            let mut j: usize = 0;
            proof { lemma_boundary_back_le(buf@, cap as nat); }
            while j < b
                invariant
                    j <= b <= buf@.len(),
                    cut@ == buf@.take(b as int).take(j as int),
                decreases b - j,
            {
                cut.push(buf[j]);
                j = j + 1;
                assert(cut@ =~= buf@.take(b as int).take(j as int));
            }
            assert(cut@ =~= buf@.take(b as int));
            buf = cut;
        }
    }
    proof {
        assert(buf@ =~= clamp_slice(src@, span, cap as nat));
    }
    let chars = decode_bytes(&buf);
    let out = escape_chars(&chars);
    proof {
        if span.end <= span.start {
            assert(clamp_slice(src@, span, cap as nat) =~= Seq::<u8>::empty());
        }
        if clamp_slice(src@, span, cap as nat).len() == 0 {
            assert(chars@.len() == 0);
            assert(out@ =~= Seq::<char>::empty());
        }
    }
    out
}

proof fn lemma_boundary_back_le(s: Seq<u8>, k: nat)
    ensures boundary_back(s, k) <= k,
    decreases k,
{
    if k > 0 && k < s.len() && !is_boundary_byte(s[k as int]) {
        lemma_boundary_back_le(s, (k - 1) as nat);
    }
}

} // verus!
