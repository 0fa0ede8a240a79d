//! The scope dump: the resolved binding/reference graph, rendered in
//! binding-id order, with an `unresolved:` section listing every global name.
//!
//! Ordering is a correctness property here: two front-ends being diffed must
//! agree on it. Bindings are ordered by their id, unresolved names by their
//! first reference id, whatever order the front-end hands them over in; the
//! sort is verified, so the dump is a function of the extracted graph alone.
//!
//! `references_partitioned` checks resolution exclusivity: every reference id
//! appears in exactly one of a binding's reference list or the unresolved
//! section, never both, never neither.

use vstd::prelude::*;
use crate::text::{dec_seq, push_decimal, push_decimal_usize, str_to_chars, push_str, push_lit};

verus! {

/// One reference to a binding or global: its id, span, and flag text.
pub struct RefRec {
    pub id: u32,
    pub start: u32,
    pub end: u32,
    pub flags: String,
}

/// One binding: its id, name, owning scope, flag text, and resolved references.
pub struct BindingRec {
    pub id: u32,
    pub name: String,
    pub scope_id: u32,
    pub flags: String,
    pub refs: Vec<RefRec>,
}

/// One unresolved (global) name and its references.
pub struct UnresolvedRec {
    pub name: String,
    pub refs: Vec<RefRec>,
}

// ---------------------------------------------------------------------------
// Deterministic ordering: insertion sort on u32-keyed pairs.
// ---------------------------------------------------------------------------

pub open spec fn insert_pair<T>(x: (u32, T), s: Seq<(u32, T)>) -> Seq<(u32, T)>
    decreases s.len(),
{
    if s.len() == 0 {
        seq![x]
    } else if x.0 < s[0].0 {
        seq![x] + s
    } else {
        seq![s[0]] + insert_pair(x, s.drop_first())
    }
}

pub open spec fn sort_pairs<T>(s: Seq<(u32, T)>) -> Seq<(u32, T)>
    decreases s.len(),
{
    if s.len() == 0 {
        Seq::empty()
    } else {
        insert_pair(s[0], sort_pairs(s.drop_first()))
    }
}

pub open spec fn sorted_by_key<T>(s: Seq<(u32, T)>) -> bool {
    forall|p: int, q: int| 0 <= p < q < s.len() ==> (#[trigger] s[p]).0 <= (#[trigger] s[q]).0
}

pub proof fn lemma_insert_pair_sorted<T>(x: (u32, T), s: Seq<(u32, T)>)
    requires sorted_by_key(s),
    ensures
        sorted_by_key(insert_pair(x, s)),
        insert_pair(x, s).len() == s.len() + 1,
        forall|q: int| 0 <= q < insert_pair(x, s).len()
            ==> (#[trigger] insert_pair(x, s)[q]).0 >= x.0
                || exists|p: int| 0 <= p < s.len() && s[p] == insert_pair(x, s)[q],
    decreases s.len(),
{
    if s.len() == 0 {
    } else if x.0 < s[0].0 {
    } else {
        assert(sorted_by_key(s.drop_first()));
        lemma_insert_pair_sorted(x, s.drop_first());
        let r = insert_pair(x, s);
        let rt = insert_pair(x, s.drop_first());
        assert forall|p: int, q: int| 0 <= p < q < r.len()
            implies (#[trigger] r[p]).0 <= (#[trigger] r[q]).0 by {
            if p == 0 {
                assert(r[q] == rt[q - 1]);
                if rt[q - 1].0 >= x.0 {
                    assert(s[0].0 <= x.0);
                } else {
                    let w = choose|w: int|
                        0 <= w < s.drop_first().len() && s.drop_first()[w] == rt[q - 1];
                    assert(s[0].0 <= s.drop_first()[w].0);
                }
            } else {
                assert(r[p] == rt[p - 1] && r[q] == rt[q - 1]);
            }
        }
    }
}

/// The sort's output is in key order.
pub proof fn lemma_sort_pairs_sorted<T>(s: Seq<(u32, T)>)
    ensures sorted_by_key(sort_pairs(s)),
    decreases s.len(),
{
    if s.len() > 0 {
        lemma_sort_pairs_sorted(s.drop_first());
        lemma_insert_pair_sorted(s[0], sort_pairs(s.drop_first()));
    }
}

fn insert_pair_exec<T>(x: (u32, T), s: Vec<(u32, T)>) -> (r: Vec<(u32, T)>)
    ensures r@ == insert_pair(x, s@),
    decreases s@.len(),
{
    let ghost s0 = s@;
    if s.len() == 0 {
        let mut r: Vec<(u32, T)> = Vec::new();
        r.push(x);
        assert(r@ =~= insert_pair(x, s0));
        r
    } else if x.0 < s[0].0 {
        let mut r: Vec<(u32, T)> = Vec::new();
        r.push(x);
        let mut s = s;
        r.append(&mut s);
        assert(r@ =~= insert_pair(x, s0));
        r
    } else {
        let mut s = s;
        let h = s.remove(0);
        assert(s@ =~= s0.drop_first());
        let mut rest = insert_pair_exec(x, s);
        let mut r: Vec<(u32, T)> = Vec::new();
        r.push(h);
        r.append(&mut rest);
        assert(r@ =~= insert_pair(x, s0));
        r
    }
}

/// Sorts key/value pairs by key, exactly as the specification sort does.
fn sort_pairs_exec<T>(s: Vec<(u32, T)>) -> (r: Vec<(u32, T)>)
    ensures r@ == sort_pairs(s@),
    decreases s@.len(),
{
    let ghost s0 = s@;
    if s.len() == 0 {
        let r: Vec<(u32, T)> = Vec::new();
        assert(r@ =~= sort_pairs(s0));
        r
    } else {
        let mut s = s;
        let h = s.remove(0);
        assert(s@ =~= s0.drop_first());
        let rest = sort_pairs_exec(s);
        insert_pair_exec(h, rest)
    }
}

// ---------------------------------------------------------------------------
// The dump text.
// ---------------------------------------------------------------------------

/// The key an unresolved name is ordered by: its smallest reference id.
pub open spec fn min_ref_id_from(rs: Seq<RefRec>, i: int) -> u32
    decreases rs.len() - i,
{
    if i < 0 || i >= rs.len() {
        0xffff_ffffu32
    } else {
        let rest = min_ref_id_from(rs, i + 1);
        if rs[i].id < rest { rs[i].id } else { rest }
    }
}

fn min_ref_id(rs: &Vec<RefRec>) -> (r: u32)
    ensures r == min_ref_id_from(rs@, 0),
{
    let mut i: usize = rs.len();
    let mut m: u32 = 0xffff_ffff;
    while i > 0
        invariant
            i <= rs@.len(),
            m == min_ref_id_from(rs@, i as int),
        decreases i,
    {
        i = i - 1;
        if rs[i].id < m {
            m = rs[i].id;
        }
    }
    m
}

pub open spec fn ref_line(r: RefRec) -> Seq<char> {
    "    ref "@ + dec_seq(r.start as int) + seq![':'] + dec_seq(r.end as int) + seq![' ']
        + r.flags@ + seq!['\n']
}

pub open spec fn ref_lines_from(rs: Seq<RefRec>, i: int) -> Seq<char>
    decreases rs.len() - i,
{
    if i < 0 || i >= rs.len() {
        Seq::empty()
    } else {
        ref_line(rs[i]) + ref_lines_from(rs, i + 1)
    }
}

pub open spec fn binding_text(b: BindingRec) -> Seq<char> {
    "  "@ + dec_seq(b.id as int) + " \""@ + b.name@ + "\" scope="@
        + dec_seq(b.scope_id as int) + " flags="@ + b.flags@ + " refs="@
        + dec_seq(b.refs@.len() as int) + seq!['\n'] + ref_lines_from(b.refs@, 0)
}

pub open spec fn binding_pairs_text(bs: Seq<(u32, BindingRec)>, i: int) -> Seq<char>
    decreases bs.len() - i,
{
    if i < 0 || i >= bs.len() {
        Seq::empty()
    } else {
        binding_text(bs[i].1) + binding_pairs_text(bs, i + 1)
    }
}

pub open spec fn unresolved_text(u: UnresolvedRec) -> Seq<char> {
    "  \""@ + u.name@ + "\" refs="@ + dec_seq(u.refs@.len() as int) + seq!['\n']
        + ref_lines_from(u.refs@, 0)
}

pub open spec fn unresolved_pairs_text(us: Seq<(u32, UnresolvedRec)>, i: int) -> Seq<char>
    decreases us.len() - i,
{
    if i < 0 || i >= us.len() {
        Seq::empty()
    } else {
        unresolved_text(us[i].1) + unresolved_pairs_text(us, i + 1)
    }
}

pub open spec fn binding_key_pairs(bs: Seq<BindingRec>) -> Seq<(u32, BindingRec)> {
    bs.map_values(|b: BindingRec| (b.id, b))
}

pub open spec fn unresolved_key_pairs(us: Seq<UnresolvedRec>) -> Seq<(u32, UnresolvedRec)> {
    us.map_values(|u: UnresolvedRec| (min_ref_id_from(u.refs@, 0), u))
}

/// The whole scope dump: header with scope and binding counts, each binding
/// in binding-id order with its resolved references, then each unresolved
/// name in first-reference order with its references.
pub open spec fn scope_dump_text(
    scopes: int,
    symbols: int,
    bs: Seq<BindingRec>,
    us: Seq<UnresolvedRec>,
) -> Seq<char> {
    "=== SCOPE ANALYSIS ===\nscopes: "@ + dec_seq(scopes) + "\nbindings: "@ + dec_seq(symbols)
        + "\n\n"@ + binding_pairs_text(sort_pairs(binding_key_pairs(bs)), 0)
        + "\nunresolved:\n"@ + unresolved_pairs_text(sort_pairs(unresolved_key_pairs(us)), 0)
}

fn push_ref_lines(rs: &Vec<RefRec>, i: usize, out: &mut Vec<char>)
    ensures final(out)@ == old(out)@ + ref_lines_from(rs@, i as int),
    decreases rs@.len() - i,
{
    if i < rs.len() {
        push_lit("    ref ", out);
        push_decimal(rs[i].start, out);
        out.push(':');
        push_decimal(rs[i].end, out);
        out.push(' ');
        push_str(&rs[i].flags, out);
        out.push('\n');
        assert(out@ =~= old(out)@ + ref_line(rs@[i as int]));
        push_ref_lines(rs, i + 1, out);
    }
    assert(out@ =~= old(out)@ + ref_lines_from(rs@, i as int));
}

fn push_binding_pairs(bs: &Vec<(u32, BindingRec)>, i: usize, out: &mut Vec<char>)
    ensures final(out)@ == old(out)@ + binding_pairs_text(bs@, i as int),
    decreases bs@.len() - i,
{
    if i < bs.len() {
        let b = &bs[i].1;
        push_lit("  ", out);
        push_decimal(b.id, out);
        push_lit(" \"", out);
        push_str(&b.name, out);
        push_lit("\" scope=", out);
        push_decimal(b.scope_id, out);
        push_lit(" flags=", out);
        push_str(&b.flags, out);
        push_lit(" refs=", out);
        push_decimal_usize(b.refs.len(), out);
        out.push('\n');
        push_ref_lines(&b.refs, 0, out);
        assert(out@ =~= old(out)@ + binding_text(bs@[i as int].1));
        push_binding_pairs(bs, i + 1, out);
    }
    assert(out@ =~= old(out)@ + binding_pairs_text(bs@, i as int));
}

fn push_unresolved_pairs(us: &Vec<(u32, UnresolvedRec)>, i: usize, out: &mut Vec<char>)
    ensures final(out)@ == old(out)@ + unresolved_pairs_text(us@, i as int),
    decreases us@.len() - i,
{
    if i < us.len() {
        let u = &us[i].1;
        push_lit("  \"", out);
        push_str(&u.name, out);
        push_lit("\" refs=", out);
        push_decimal_usize(u.refs.len(), out);
        out.push('\n');
        push_ref_lines(&u.refs, 0, out);
        assert(out@ =~= old(out)@ + unresolved_text(us@[i as int].1));
        push_unresolved_pairs(us, i + 1, out);
    }
    assert(out@ =~= old(out)@ + unresolved_pairs_text(us@, i as int));
}

fn pair_bindings(bs: Vec<BindingRec>) -> (r: Vec<(u32, BindingRec)>)
    ensures r@ == binding_key_pairs(bs@),
{
    let ghost orig = bs@;
    let mut bs = bs;
    let mut r: Vec<(u32, BindingRec)> = Vec::new();
    while bs.len() > 0
        invariant
            r@.len() + bs@.len() == orig.len(),
            bs@ == orig.skip(r@.len() as int),
            r@ == binding_key_pairs(orig.take(r@.len() as int)),
        decreases bs@.len(),
    {
        let ghost n = r@.len() as int;
        let b = bs.remove(0);
        let k = b.id;
        r.push((k, b));
        proof {
            assert(bs@ =~= orig.skip(n + 1));
            assert(r@ =~= binding_key_pairs(orig.take(n + 1)));
        }
    }
    proof {
        assert(orig.take(orig.len() as int) =~= orig);
    }
    r
}

fn pair_unresolved(us: Vec<UnresolvedRec>) -> (r: Vec<(u32, UnresolvedRec)>)
    ensures r@ == unresolved_key_pairs(us@),
{
    let ghost orig = us@;
    let mut us = us;
    let mut r: Vec<(u32, UnresolvedRec)> = Vec::new();
    while us.len() > 0
        invariant
            r@.len() + us@.len() == orig.len(),
            us@ == orig.skip(r@.len() as int),
            r@ == unresolved_key_pairs(orig.take(r@.len() as int)),
        decreases us@.len(),
    {
        let ghost n = r@.len() as int;
        let u = us.remove(0);
        let k = min_ref_id(&u.refs);
        r.push((k, u));
        proof {
            assert(us@ =~= orig.skip(n + 1));
            assert(r@ =~= unresolved_key_pairs(orig.take(n + 1)));
        }
    }
    proof {
        assert(orig.take(orig.len() as int) =~= orig);
    }
    r
}

/// The scope dump of an extracted binding/reference graph.
pub fn scope_text(
    scopes: usize,
    symbols: usize,
    bindings: Vec<BindingRec>,
    unresolved: Vec<UnresolvedRec>,
) -> (r: Vec<char>)
    ensures r@ == scope_dump_text(scopes as int, symbols as int, bindings@, unresolved@),
{
    let ghost bs0 = bindings@;
    let ghost us0 = unresolved@;
    let mut out: Vec<char> = str_to_chars("=== SCOPE ANALYSIS ===\nscopes: ");
    push_decimal_usize(scopes, &mut out);
    push_lit("\nbindings: ", &mut out);
    push_decimal_usize(symbols, &mut out);
    push_lit("\n\n", &mut out);
    let bp = sort_pairs_exec(pair_bindings(bindings));
    push_binding_pairs(&bp, 0, &mut out);
    push_lit("\nunresolved:\n", &mut out);
    let up = sort_pairs_exec(pair_unresolved(unresolved));
    push_unresolved_pairs(&up, 0, &mut out);
    assert(out@ =~= scope_dump_text(scopes as int, symbols as int, bs0, us0));
    out
}

// ---------------------------------------------------------------------------
// Resolution exclusivity.
// ---------------------------------------------------------------------------

pub open spec fn ref_ids_of(rs: Seq<RefRec>, i: int) -> Seq<u32>
    decreases rs.len() - i,
{
    if i < 0 || i >= rs.len() {
        Seq::empty()
    } else {
        seq![rs[i].id] + ref_ids_of(rs, i + 1)
    }
}

pub open spec fn binding_ref_ids(bs: Seq<BindingRec>, i: int) -> Seq<u32>
    decreases bs.len() - i,
{
    if i < 0 || i >= bs.len() {
        Seq::empty()
    } else {
        ref_ids_of(bs[i].refs@, 0) + binding_ref_ids(bs, i + 1)
    }
}

pub open spec fn unresolved_ref_ids(us: Seq<UnresolvedRec>, i: int) -> Seq<u32>
    decreases us.len() - i,
{
    if i < 0 || i >= us.len() {
        Seq::empty()
    } else {
        ref_ids_of(us[i].refs@, 0) + unresolved_ref_ids(us, i + 1)
    }
}

/// All reference ids the graph mentions: each binding's resolved references,
/// then the unresolved section's references.
pub open spec fn all_ref_ids(bs: Seq<BindingRec>, us: Seq<UnresolvedRec>) -> Seq<u32> {
    binding_ref_ids(bs, 0) + unresolved_ref_ids(us, 0)
}

pub open spec fn distinct_ids(s: Seq<u32>) -> bool {
    forall|p: int, q: int| 0 <= p < q < s.len() ==> s[p] != s[q]
}

/// Resolution exclusivity: with `total` references in all, every reference id
/// appears in exactly one of a binding's reference list or the unresolved
/// section — never both, never neither.
pub open spec fn references_partitioned_spec(
    bs: Seq<BindingRec>,
    us: Seq<UnresolvedRec>,
    total: nat,
) -> bool {
    let ids = all_ref_ids(bs, us);
    ids.len() == total && (forall|k: int| 0 <= k < ids.len() ==> ids[k] < total)
        && distinct_ids(ids)
}

fn push_ref_ids(rs: &Vec<RefRec>, i: usize, out: &mut Vec<u32>)
    ensures final(out)@ == old(out)@ + ref_ids_of(rs@, i as int),
    decreases rs@.len() - i,
{
    if i < rs.len() {
        out.push(rs[i].id);
        push_ref_ids(rs, i + 1, out);
    }
    assert(out@ =~= old(out)@ + ref_ids_of(rs@, i as int));
}

fn push_binding_ids(bs: &Vec<BindingRec>, i: usize, out: &mut Vec<u32>)
    ensures final(out)@ == old(out)@ + binding_ref_ids(bs@, i as int),
    decreases bs@.len() - i,
{
    if i < bs.len() {
        push_ref_ids(&bs[i].refs, 0, out);
        push_binding_ids(bs, i + 1, out);
    }
    assert(out@ =~= old(out)@ + binding_ref_ids(bs@, i as int));
}

fn push_unresolved_ids(us: &Vec<UnresolvedRec>, i: usize, out: &mut Vec<u32>)
    ensures final(out)@ == old(out)@ + unresolved_ref_ids(us@, i as int),
    decreases us@.len() - i,
{
    if i < us.len() {
        push_ref_ids(&us[i].refs, 0, out);
        push_unresolved_ids(us, i + 1, out);
    }
    assert(out@ =~= old(out)@ + unresolved_ref_ids(us@, i as int));
}

/// Whether every reference id appears exactly once across the bindings'
/// reference lists and the unresolved section, and the ids are exactly
/// `0 .. total`.
pub fn references_partitioned(
    bs: &Vec<BindingRec>,
    us: &Vec<UnresolvedRec>,
    total: usize,
) -> (r: bool)
    ensures r == references_partitioned_spec(bs@, us@, total as nat),
{
    let mut ids: Vec<u32> = Vec::new();
    push_binding_ids(bs, 0, &mut ids);
    push_unresolved_ids(us, 0, &mut ids);
    assert(ids@ =~= all_ref_ids(bs@, us@));
    if ids.len() != total {
        return false;
    }
    let mut seen: Vec<bool> = Vec::new();
    let mut k: usize = 0;
    while k < total
        invariant
            k <= total,
            seen@.len() == k,
            forall|j: int| 0 <= j < k ==> !seen@[j],
        decreases total - k,
    {
        seen.push(false);
        k = k + 1;
    }
    let mut i: usize = 0;
    while i < ids.len()
        invariant
            i <= ids@.len(),
            seen@.len() == total,
            ids@.len() == total,
            ids@ == all_ref_ids(bs@, us@),
            forall|p: int| 0 <= p < i ==> ((#[trigger] ids@[p]) as int) < (total as int),
            forall|p: int, q: int| 0 <= p < q < i ==> ids@[p] != ids@[q],
            forall|j: int| 0 <= j < total ==> ((#[trigger] seen@[j])
                <==> exists|p: int| 0 <= p < i && (#[trigger] ids@[p]) as int == j),
        decreases ids@.len() - i,
    {
        let id = ids[i];
        if id as usize >= total {
            assert(ids@[i as int] as int >= total as int);
            assert(!references_partitioned_spec(bs@, us@, total as nat));
            return false;
        }
        if seen[id as usize] {
            proof {
                let p = choose|p: int| 0 <= p < i && (#[trigger] ids@[p]) as int == id as int;
                assert(ids@[p] == ids@[i as int]);
                assert(!distinct_ids(ids@));
            }
            return false;
        }
        seen.set(id as usize, true);
        proof {
            assert forall|j: int| 0 <= j < total implies ((#[trigger] seen@[j])
                <==> exists|p: int| 0 <= p < i + 1 && (#[trigger] ids@[p]) as int == j) by {
                if j == id as int {
                    assert(ids@[i as int] as int == j);
                } else {
                    if seen@[j] {
                        let p = choose|p: int| 0 <= p < i && (#[trigger] ids@[p]) as int == j;
                        assert(0 <= p < i + 1 && ids@[p] as int == j);
                    }
                    if exists|p: int| 0 <= p < i + 1 && (#[trigger] ids@[p]) as int == j {
                        let p = choose|p: int| 0 <= p < i + 1 && (#[trigger] ids@[p]) as int == j;
                        assert(p != i as int);
                    }
                }
            }
        }
        i = i + 1;
    }
    proof {
        assert(references_partitioned_spec(bs@, us@, total as nat));
    }
    true
}


/// Scope-dump determinism: the dump text is a function of the extracted
/// binding/reference graph alone, including its ordering.
pub proof fn lemma_scope_dump_deterministic(
    b1: Seq<BindingRec>, b2: Seq<BindingRec>,
    u1: Seq<UnresolvedRec>, u2: Seq<UnresolvedRec>,
    scopes: int, symbols: int,
)
    requires b1 == b2, u1 == u2,
    ensures scope_dump_text(scopes, symbols, b1, u1) == scope_dump_text(scopes, symbols, b2, u2),
{
}

} // verus!
