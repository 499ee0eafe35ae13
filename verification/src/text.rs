//! Text as sequences of characters.
//!
//! Every contract in this crate speaks of a string through its view, a
//! `Seq<char>`.  This module holds the small vocabulary the other modules
//! share: conversion between `String` and `Vec<char>`, equality and prefix
//! tests, concatenation, the code-point order on names, decimal numerals and
//! lower-casing.

use vstd::prelude::*;
use vstd::std_specs::iter::IteratorSpec;

verus! {

/// `String::push` appends one character to the end of the string and leaves
/// the characters before it as they were.
pub assume_specification[ String::push ](s: &mut String, ch: char)
    ensures
        final(s)@ == old(s)@.push(ch),
;

/// What `str::to_lowercase` returns for the text `s`.
pub uninterp spec fn lowercase_of(s: Seq<char>) -> Seq<char>;

/// `str::to_lowercase`: the lower-case form of `s` under the Unicode case
/// mappings.  The result is a function of the characters of `s` alone (the
/// mapping knows no locale); the contract gives that function a name and says
/// nothing else of it.
#[verifier::external_body]
pub(crate) fn lowercase(s: &str) -> (out: String)
    ensures
        out@ == lowercase_of(s@),
{
    s.to_lowercase()
}

/// The views of a sequence of strings, in order.
pub open spec fn texts(lines: Seq<String>) -> Seq<Seq<char>> {
    Seq::new(lines.len(), |i: int| lines[i]@)
}

/// `n` copies of the character `c`.
pub open spec fn repeated(c: char, n: nat) -> Seq<char> {
    Seq::new(n, |i: int| c)
}

/// The strict lexicographic order on texts that compares characters by their
/// code points: `a` comes before `b` when `a` is a proper prefix of `b`, or
/// when at the first position where they differ `a` holds the smaller code
/// point.
pub open spec fn lex_lt(a: Seq<char>, b: Seq<char>) -> bool
    decreases a.len(),
{
    if b.len() == 0 {
        false
    } else if a.len() == 0 {
        true
    } else if a[0] != b[0] {
        (a[0] as int) < (b[0] as int)
    } else {
        lex_lt(a.skip(1), b.skip(1))
    }
}

/// The decimal digit `d` as a character.
pub open spec fn digit_char(d: nat) -> char
    recommends
        d < 10,
{
    (('0' as u8) + d) as char
}

/// The decimal numeral of `n`, without sign and without leading zeros.
pub open spec fn decimal(n: nat) -> Seq<char>
    decreases n,
{
    if n < 10 {
        seq![digit_char(n)]
    } else {
        decimal(n / 10).push(digit_char(n % 10))
    }
}

/// No text comes before itself, and of two texts at most one comes before
/// the other.
pub proof fn lemma_lex_lt_asymmetric(a: Seq<char>, b: Seq<char>)
    ensures
        !(lex_lt(a, b) && lex_lt(b, a)),
        !lex_lt(a, a),
    decreases a.len(),
{
    if a.len() > 0 {
        lemma_lex_lt_asymmetric(a.skip(1), a.skip(1));
        if b.len() > 0 && a[0] == b[0] {
            lemma_lex_lt_asymmetric(a.skip(1), b.skip(1));
        }
    }
}

/// What comes before a text that comes before a third comes before the
/// third.
pub proof fn lemma_lex_lt_transitive(a: Seq<char>, b: Seq<char>, c: Seq<char>)
    requires
        lex_lt(a, b),
        lex_lt(b, c),
    ensures
        lex_lt(a, c),
    decreases a.len(),
{
    if a.len() > 0 && a[0] == b[0] && b[0] == c[0] {
        lemma_lex_lt_transitive(a.skip(1), b.skip(1), c.skip(1));
    }
}

/// Of two different texts one comes before the other.
pub proof fn lemma_lex_lt_total(a: Seq<char>, b: Seq<char>)
    ensures
        a == b || lex_lt(a, b) || lex_lt(b, a),
    decreases a.len(),
{
    if a.len() == 0 || b.len() == 0 {
    } else if a[0] == b[0] {
        lemma_lex_lt_total(a.skip(1), b.skip(1));
        if a.skip(1) == b.skip(1) {
            assert(b =~= seq![b[0]] + b.skip(1));
        }
    }
}

/// The views of a sequence with one more string are the views of the
/// sequence with one more view.
pub proof fn lemma_texts_push(lines: Seq<String>, line: String)
    ensures
        texts(lines.push(line)) == texts(lines).push(line@),
{
}

/// Appends `line` to `lines`.
pub fn push_line(lines: &mut Vec<String>, line: String)
    ensures
        final(lines)@ == old(lines)@.push(line),
        texts(final(lines)@) == texts(old(lines)@).push(line@),
{
    proof {
        lemma_texts_push(lines@, line);
    }
    lines.push(line);
}

/// The characters of `s`, in order.
pub fn to_chars(s: &str) -> (out: Vec<char>)
    ensures
        out@ == s@,
{
    let mut out: Vec<char> = Vec::new();
    for c in it: s.chars()
        invariant
            it.seq() == s@,
            out@ == s@.take(it.index()),
    {
        out.push(c);
    }
    out
}

/// The string made of the characters of `chars`, in order.
pub fn from_chars(chars: &Vec<char>) -> (out: String)
    ensures
        out@ == chars@,
{
    let mut out = String::new();
    let mut i: usize = 0;
    while i < chars.len()
        invariant
            i <= chars.len(),
            out@ == chars@.take(i as int),
        decreases chars.len() - i,
    {
        out.push(chars[i]);
        i += 1;
    }
    out
}

/// The string made of the characters `chars[from..to]`.
pub fn from_char_range(chars: &Vec<char>, from: usize, to: usize) -> (out: String)
    requires
        from <= to <= chars.len(),
    ensures
        out@ == chars@.subrange(from as int, to as int),
{
    let mut out = String::new();
    let mut i: usize = from;
    while i < to
        invariant
            from <= i <= to <= chars.len(),
            out@ == chars@.subrange(from as int, i as int),
        decreases to - i,
    {
        out.push(chars[i]);
        i += 1;
    }
    out
}

/// Whether two strings hold the same characters.
pub fn same_text(a: &str, b: &str) -> (same: bool)
    ensures
        same == (a@ == b@),
{
    let mut x = a.chars();
    let mut y = b.chars();
    loop
        invariant
            x.obeys_prophetic_iter_laws(),
            y.obeys_prophetic_iter_laws(),
            x.decrease() is Some,
            (a@ == b@) == (x.remaining() == y.remaining()),
        decreases x.decrease()->0,
    {
        let ghost xs = x.remaining();
        let ghost ys = y.remaining();
        let p = x.next();
        let q = y.next();
        match (p, q) {
            (Some(c), Some(d)) => {
                if c != d {
                    return false;
                }
                assert(xs == seq![c] + xs.skip(1));
                assert(ys == seq![d] + ys.skip(1));
            },
            (None, None) => {
                assert(xs =~= ys);
                return true;
            },
            _ => {
                return false;
            },
        }
    }
}

/// A text that shares its first character with another is a prefix of it
/// exactly when that holds of what follows the first character in each.
pub proof fn lemma_prefix_step(p: Seq<char>, t: Seq<char>)
    requires
        p.len() > 0,
        t.len() > 0,
        p[0] == t[0],
    ensures
        p.is_prefix_of(t) == p.skip(1).is_prefix_of(t.skip(1)),
{
    let pr = p.skip(1);
    let tr = t.skip(1);
    if pr.is_prefix_of(tr) {
        assert forall|k: int| 0 <= k < p.len() implies p[k] == t.subrange(0, p.len() as int)[k] by {
            if k > 0 {
                assert(pr[k - 1] == tr.subrange(0, pr.len() as int)[k - 1]);
            }
        }
    }
}

/// A text that differs from another in its first character is no prefix of
/// it.
pub proof fn lemma_prefix_mismatch(p: Seq<char>, t: Seq<char>)
    requires
        p.len() > 0,
        t.len() > 0,
        p[0] != t[0],
    ensures
        !p.is_prefix_of(t),
{
}

/// Whether `text` begins with `prefix`.
pub fn has_prefix(text: &str, prefix: &str) -> (yes: bool)
    ensures
        yes == prefix@.is_prefix_of(text@),
{
    let mut t = text.chars();
    let mut p = prefix.chars();
    loop
        invariant
            t.obeys_prophetic_iter_laws(),
            p.obeys_prophetic_iter_laws(),
            p.decrease() is Some,
            prefix@.is_prefix_of(text@) == p.remaining().is_prefix_of(t.remaining()),
        decreases p.decrease()->0,
    {
        let ghost ts = t.remaining();
        let ghost ps = p.remaining();
        let d = match p.next() {
            Some(d) => d,
            None => {
                return true;
            },
        };
        let c = match t.next() {
            Some(c) => c,
            None => {
                return false;
            },
        };
        if c != d {
            proof {
                lemma_prefix_mismatch(ps, ts);
            }
            return false;
        }
        proof {
            lemma_prefix_step(ps, ts);
        }
    }
}

/// Whether `a` comes strictly before `b` in the code-point order.
pub fn text_lt(a: &str, b: &str) -> (before: bool)
    ensures
        before == lex_lt(a@, b@),
{
    let mut x = a.chars();
    let mut y = b.chars();
    loop
        invariant
            x.obeys_prophetic_iter_laws(),
            y.obeys_prophetic_iter_laws(),
            x.decrease() is Some,
            lex_lt(a@, b@) == lex_lt(x.remaining(), y.remaining()),
        decreases x.decrease()->0,
    {
        let q = match y.next() {
            Some(q) => q,
            None => {
                return false;
            },
        };
        let p = match x.next() {
            Some(p) => p,
            None => {
                return true;
            },
        };
        if p != q {
            return p < q;
        }
    }
}

/// `a` followed by `b`.
pub fn followed_by(a: &str, b: &str) -> (out: String)
    ensures
        out@ == a@ + b@,
{
    let mut out = String::from_str(a);
    out.append(b);
    out
}

/// The text of `n` copies of `c`.
pub fn repeat_char(c: char, n: usize) -> (out: String)
    ensures
        out@ == repeated(c, n as nat),
{
    let mut out = String::new();
    let mut i: usize = 0;
    while i < n
        invariant
            i <= n,
            out@ == repeated(c, i as nat),
        decreases n - i,
    {
        out.push(c);
        i += 1;
    }
    out
}

/// The decimal numeral of `n`.
pub fn decimal_string(n: u128) -> (out: String)
    ensures
        out@ == decimal(n as nat),
{
    let mut digits: Vec<char> = Vec::new();
    let mut rest: u128 = n;
    // `digits` holds the low digits already taken off `rest`, lowest first.
    while rest >= 10
        invariant
            decimal(n as nat) == decimal(rest as nat) + digits@.reverse(),
        decreases rest,
    {
        let d: u8 = (rest % 10) as u8;
        let ch: char = (48u8 + d) as char;
        digits.push(ch);
        rest = rest / 10;
    }
    let lead: char = (48u8 + (rest as u8)) as char;
    let mut out = String::new();
    out.push(lead);
    let mut i: usize = digits.len();
    while i > 0
        invariant
            i <= digits.len(),
            out@ == seq![lead] + digits@.reverse().take(digits.len() - i),
        decreases i,
    {
        i -= 1;
        out.push(digits[i]);
    }
    out
}

} // verus!
