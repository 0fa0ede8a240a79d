//! Single-line escaping of arbitrary text, and decimal rendering of numbers.
//!
//! The escaper turns an arbitrary string into a single-line, printable
//! representation safe for line-oriented diffing: newline, carriage return,
//! tab, NUL and backslash get two-character escapes, any other control
//! character a fixed-width hex escape, and everything else passes through.

use vstd::prelude::*;

verus! {

/// A Unicode control character (general category Cc):
/// U+0000..U+001F and U+007F..U+009F.
pub open spec fn is_ctl_char(c: char) -> bool {
    (c as u32) < 0x20 || (0x7f <= (c as u32) && (c as u32) <= 0x9f)
}

pub open spec fn spec_hex_digit(n: int) -> char {
    if n == 0 { '0' } else if n == 1 { '1' } else if n == 2 { '2' }
    else if n == 3 { '3' } else if n == 4 { '4' } else if n == 5 { '5' }
    else if n == 6 { '6' } else if n == 7 { '7' } else if n == 8 { '8' }
    else if n == 9 { '9' } else if n == 10 { 'a' } else if n == 11 { 'b' }
    else if n == 12 { 'c' } else if n == 13 { 'd' } else if n == 14 { 'e' }
    else { 'f' }
}

fn hex_digit(n: u32) -> (r: char)
    requires n < 16,
    ensures r == spec_hex_digit(n as int),
{
    if n == 0 { '0' } else if n == 1 { '1' } else if n == 2 { '2' }
    else if n == 3 { '3' } else if n == 4 { '4' } else if n == 5 { '5' }
    else if n == 6 { '6' } else if n == 7 { '7' } else if n == 8 { '8' }
    else if n == 9 { '9' } else if n == 10 { 'a' } else if n == 11 { 'b' }
    else if n == 12 { 'c' } else if n == 13 { 'd' } else if n == 14 { 'e' }
    else { 'f' }
}

/// What one character contributes to the escaped form of a string.
pub open spec fn escape_char(c: char) -> Seq<char> {
    if c == '\n' { seq!['\\', 'n'] }
    else if c == '\r' { seq!['\\', 'r'] }
    else if c == '\t' { seq!['\\', 't'] }
    else if c == '\0' { seq!['\\', '0'] }
    else if c == '\\' { seq!['\\', '\\'] }
    else if is_ctl_char(c) {
        seq!['\\', 'u', '{', '0', '0',
             spec_hex_digit((c as u32) as int / 16),
             spec_hex_digit((c as u32) as int % 16),
             '}']
    } else {
        seq![c]
    }
}

pub open spec fn escape_from(s: Seq<char>, i: int) -> Seq<char>
    decreases s.len() - i,
{
    if i < 0 || i >= s.len() {
        Seq::empty()
    } else {
        escape_char(s[i]) + escape_from(s, i + 1)
    }
}

/// The escaped, single-line form of a string.
pub open spec fn escape_text(s: Seq<char>) -> Seq<char> {
    escape_from(s, 0)
}

/// Appends the escaped form of `input[i..]` to `out`.
fn escape_onto(input: &Vec<char>, i: usize, out: &mut Vec<char>)
    ensures final(out)@ == old(out)@ + escape_from(input@, i as int),
    decreases input.len() - i,
{
    if i >= input.len() {
        assert(out@ =~= old(out)@ + escape_from(input@, i as int));
        return;
    }
    let c = input[i];
    let ghost mid = out@ + escape_char(c);
    if c == '\n' {
        out.push('\\'); out.push('n');
    } else if c == '\r' {
        out.push('\\'); out.push('r');
    } else if c == '\t' {
        out.push('\\'); out.push('t');
    } else if c == '\0' {
        out.push('\\'); out.push('0');
    } else if c == '\\' {
        out.push('\\'); out.push('\\');
    } else {
        let u = c as u32;
        if u < 0x20 || (0x7f <= u && u <= 0x9f) {
            out.push('\\'); out.push('u'); out.push('{');
            out.push('0'); out.push('0');
            out.push(hex_digit(u / 16));
            out.push(hex_digit(u % 16));
            out.push('}');
        } else {
            out.push(c);
        }
    }
    assert(out@ =~= mid);
    escape_onto(input, i + 1, out);
    assert(out@ =~= old(out)@ + escape_from(input@, i as int));
}

/// Escape a string of characters so it fits on a single output line.
pub fn escape_chars(input: &Vec<char>) -> (r: Vec<char>)
    ensures r@ == escape_text(input@),
{
    let mut out: Vec<char> = Vec::new();
    escape_onto(input, 0, &mut out);
    out
}

/// The decimal digits of a non-negative number, most significant first.
pub open spec fn dec_seq(n: int) -> Seq<char>
    decreases n,
{
    if n < 10 {
        seq![spec_hex_digit(if n < 0 { 0 } else { n })]
    } else {
        dec_seq(n / 10) + seq![spec_hex_digit(n % 10)]
    }
}

/// Appends the decimal rendering of `n` to `out`.
pub fn push_decimal(n: u32, out: &mut Vec<char>)
    ensures final(out)@ == old(out)@ + dec_seq(n as int),
    decreases n,
{
    if n < 10 {
        out.push(hex_digit(n));
        assert(out@ =~= old(out)@ + dec_seq(n as int));
    } else {
        push_decimal(n / 10, out);
        out.push(hex_digit(n % 10));
        assert(out@ =~= old(out)@ + dec_seq(n as int));
    }
}

/// The characters of a string slice, as a vector.
pub fn str_to_chars(s: &str) -> (r: Vec<char>)
    ensures r@ == s@,
{
    let n = s.unicode_len();
    let mut out: Vec<char> = Vec::new();
    let mut i: usize = 0;
    while i < n
        invariant
            n == s@.len(),
            i <= n,
            out@ == s@.take(i as int),
        decreases n - i,
    {
        out.push(s.get_char(i));
        i = i + 1;
        assert(out@ =~= s@.take(i as int));
    }
    assert(out@ =~= s@);
    out
}

/// Every character of an escaped string is printable: the escaper's
/// output contains no raw control characters.
pub proof fn lemma_escape_char_printable(c: char)
    ensures forall|j: int| 0 <= j < escape_char(c).len()
        ==> !is_ctl_char(#[trigger] escape_char(c)[j]),
{
}

pub proof fn lemma_escape_from_printable(s: Seq<char>, i: int)
    ensures forall|j: int| 0 <= j < escape_from(s, i).len()
        ==> !is_ctl_char(#[trigger] escape_from(s, i)[j]),
    decreases s.len() - i,
{
    if i < 0 || i >= s.len() {
    } else {
        lemma_escape_char_printable(s[i]);
        lemma_escape_from_printable(s, i + 1);
        assert forall|j: int| 0 <= j < escape_from(s, i).len()
            implies !is_ctl_char(#[trigger] escape_from(s, i)[j]) by {
            let head = escape_char(s[i]);
            if j < head.len() {
                assert(escape_from(s, i)[j] == head[j]);
            } else {
                assert(escape_from(s, i)[j] == escape_from(s, i + 1)[j - head.len()]);
            }
        }
    }
}

/// The escaper's output contains no raw control characters.
pub proof fn lemma_escape_printable(s: Seq<char>)
    ensures forall|j: int| 0 <= j < escape_text(s).len()
        ==> !is_ctl_char(#[trigger] escape_text(s)[j]),
{
    lemma_escape_from_printable(s, 0);
}

pub proof fn lemma_escape_from_clean(s: Seq<char>, i: int)
    requires
        0 <= i <= s.len(),
        forall|j: int| i <= j < s.len() ==> !is_ctl_char(#[trigger] s[j]) && s[j] != '\\',
    ensures escape_from(s, i) == s.subrange(i, s.len() as int),
    decreases s.len() - i,
{
    if i >= s.len() {
        assert(escape_from(s, i) =~= s.subrange(i, s.len() as int));
    } else {
        lemma_escape_from_clean(s, i + 1);
        assert(escape_char(s[i]) =~= seq![s[i]]);
        assert(escape_from(s, i) =~= s.subrange(i, s.len() as int));
    }
}

/// Escaping a printable string without backslashes changes nothing,
/// so escaping is idempotent on such strings.
pub proof fn lemma_escape_idempotent_on_clean(s: Seq<char>)
    requires
        forall|j: int| 0 <= j < s.len() ==> !is_ctl_char(#[trigger] s[j]) && s[j] != '\\',
    ensures
        escape_text(s) == s,
        escape_text(escape_text(s)) == escape_text(s),
{
    lemma_escape_from_clean(s, 0);
    assert(s.subrange(0, s.len() as int) =~= s);
}


/// Appends the decimal rendering of a machine-sized count to `out`.
pub fn push_decimal_usize(n: usize, out: &mut Vec<char>)
    ensures final(out)@ == old(out)@ + dec_seq(n as int),
    decreases n,
{
    if n < 10 {
        out.push(hex_digit(n as u32));
        assert(out@ =~= old(out)@ + dec_seq(n as int));
    } else {
        push_decimal_usize(n / 10, out);
        out.push(hex_digit((n % 10) as u32));
        assert(out@ =~= old(out)@ + dec_seq(n as int));
    }
}

/// Relies on String's FromIterator over chars: collecting characters yields
/// the string holding exactly those characters.
#[verifier::external_body]
pub fn chars_to_string(v: &Vec<char>) -> (r: String)
    ensures r@ == v@,
{
    v.iter().collect()
}

/// Two character strings hold the same text.
pub fn chars_eq(a: &Vec<char>, b: &Vec<char>) -> (r: bool)
    ensures r == (a@ == b@),
{
    if a.len() != b.len() {
        assert(a@ != b@);
        return false;
    }
    let mut i: usize = 0;
    while i < a.len()
        invariant
            i <= a@.len(),
            a@.len() == b@.len(),
            forall|j: int| 0 <= j < i ==> a@[j] == b@[j],
        decreases a@.len() - i,
    {
        if a[i] != b[i] {
            return false;
        }
        i = i + 1;
    }
    proof { assert(a@ =~= b@); }
    true
}


/// Appends a string's characters to `out`.
pub fn push_str(s: &String, out: &mut Vec<char>)
    ensures final(out)@ == old(out)@ + s@,
{
    let cs = str_to_chars(s.as_str());
    let mut i: usize = 0;
    while i < cs.len()
        invariant
            i <= cs@.len(),
            cs@ == s@,
            out@ == old(out)@ + cs@.take(i as int),
        decreases cs@.len() - i,
    {
        out.push(cs[i]);
        i = i + 1;
        assert(out@ =~= old(out)@ + cs@.take(i as int));
    }
    assert(out@ =~= old(out)@ + s@);
}

/// Appends a string slice's characters to `out`.
pub fn push_lit(s: &str, out: &mut Vec<char>)
    ensures final(out)@ == old(out)@ + s@,
{
    let cs = str_to_chars(s);
    let mut i: usize = 0;
    while i < cs.len()
        invariant
            i <= cs@.len(),
            cs@ == s@,
            out@ == old(out)@ + cs@.take(i as int),
        decreases cs@.len() - i,
    {
        out.push(cs[i]);
        i = i + 1;
        assert(out@ =~= old(out)@ + cs@.take(i as int));
    }
    assert(out@ =~= old(out)@ + s@);
}

} // verus!
