//! Text helpers over `Seq<char>` views: conversion between strings and
//! character vectors, comparison, trimming, searching and replacing.

use vstd::prelude::*;

verus! {

/// Whether `c` has the Unicode `White_Space` property, as `char::is_whitespace`
/// reports it.
pub uninterp spec fn char_is_whitespace(c: char) -> bool;

/// The Unicode lowercase form of a text, as `str::to_lowercase` computes it.
pub uninterp spec fn lowercase_of(s: Seq<char>) -> Seq<char>;

/// Calls `char::is_whitespace`. The contract only names the answer.
#[verifier::external_body]
pub(crate) fn is_whitespace(c: char) -> (r: bool)
    ensures
        r == char_is_whitespace(c),
{
    c.is_whitespace()
}

/// Calls `str::to_lowercase`. The contract only names the result.
#[verifier::external_body]
pub(crate) fn lowercase(s: &str) -> (r: String)
    ensures
        r@ == lowercase_of(s@),
{
    s.to_lowercase()
}

/// Calls `String::push`: the character is appended at the end and nothing else
/// changes.
#[verifier::external_body]
pub(crate) fn push_char(s: &mut String, c: char)
    ensures
        final(s)@ == old(s)@.push(c),
{
    s.push(c)
}

/// `s` begins with `p`.
pub open spec fn has_prefix(s: Seq<char>, p: Seq<char>) -> bool {
    p.len() <= s.len() && s.subrange(0, p.len() as int) == p
}

/// `s` ends with `p`.
pub open spec fn has_suffix(s: Seq<char>, p: Seq<char>) -> bool {
    p.len() <= s.len() && s.subrange(s.len() - p.len(), s.len() as int) == p
}

/// `p` occurs in `s` at position `at`.
pub open spec fn occurs_at(s: Seq<char>, p: Seq<char>, at: int) -> bool {
    0 <= at && at + p.len() <= s.len() && s.subrange(at, at + p.len()) == p
}

/// `p` occurs somewhere in `s`.
pub open spec fn has_infix(s: Seq<char>, p: Seq<char>) -> bool {
    exists|at: int| occurs_at(s, p, at)
}

/// The text of an optional string.
pub open spec fn opt_text(o: Option<String>) -> Option<Seq<char>> {
    match o {
        Some(s) => Some(s@),
        None => None,
    }
}

/// The texts of a sequence of strings.
pub open spec fn texts(v: Seq<String>) -> Seq<Seq<char>> {
    Seq::new(v.len(), |i: int| v[i]@)
}

/// The characters of a string, in order.
pub fn chars_of(s: &str) -> (v: Vec<char>)
    ensures
        v@ == s@,
{
    let mut v: Vec<char> = Vec::new();
    for c in it: s.chars()
        invariant
            v@ == it.seq().take(it.index() as int),
            it.seq() == s@,
    {
        v.push(c);
    }
    v
}

/// The string made of `v[from..to]`.
pub(crate) fn text_of_range(v: &Vec<char>, from: usize, to: usize) -> (s: String)
    requires
        from <= to <= v.len(),
    ensures
        s@ == v@.subrange(from as int, to as int),
{
    let mut s = String::new();
    let mut i: usize = from;
    while i < to
        invariant
            from <= i <= to <= v.len(),
            s@ == v@.subrange(from as int, i as int),
        decreases to - i,
    {
        push_char(&mut s, v[i]);
        i += 1;
    }
    s
}

/// The string made of the characters of `v`.
pub fn text_of(v: &Vec<char>) -> (s: String)
    ensures
        s@ == v@,
{
    let s = text_of_range(v, 0, v.len());
    assert(v@.subrange(0, v.len() as int) == v@);
    s
}

/// Whether two texts hold the same characters.
pub fn same_text(a: &str, b: &str) -> (r: bool)
    ensures
        r == (a@ == b@),
{
    let x = a.to_owned();
    let y = b.to_owned();
    x == y
}

/// `a` followed by `b`.
pub fn concat(a: &str, b: &str) -> (r: String)
    ensures
        r@ == a@ + b@,
{
    let mut r = a.to_owned();
    r.append(b);
    r
}

/// Whether `v[at..]` begins with `p`.
pub(crate) fn matches_at(v: &Vec<char>, p: &Vec<char>, at: usize) -> (r: bool)
    requires
        at <= v.len(),
    ensures
        r == occurs_at(v@, p@, at as int),
{
    if p.len() > v.len() - at {
        return false;
    }
    let mut k: usize = 0;
    while k < p.len()
        invariant
            at + p.len() <= v.len(),
            k <= p.len(),
            v@.subrange(at as int, at + k) == p@.subrange(0, k as int),
        decreases p.len() - k,
    {
        if v[at + k] != p[k] {
            proof {
                let w = v@.subrange(at as int, at + p.len());
                assert(w[k as int] == v@[at + k]);
            }
            return false;
        }
        proof {
            assert(v@.subrange(at as int, at + k + 1) == v@.subrange(at as int, at + k).push(
                v@[at + k],
            ));
            assert(p@.subrange(0, k + 1) == p@.subrange(0, k as int).push(p@[k as int]));
        }
        k += 1;
    }
    assert(p@.subrange(0, p.len() as int) == p@);
    true
}

/// Whether `s` begins with `p`.
pub fn starts_with(s: &str, p: &str) -> (r: bool)
    ensures
        r == has_prefix(s@, p@),
{
    let v = chars_of(s);
    let q = chars_of(p);
    matches_at(&v, &q, 0)
}

/// Whether `s` ends with `p`.
pub fn ends_with(s: &str, p: &str) -> (r: bool)
    ensures
        r == has_suffix(s@, p@),
{
    let v = chars_of(s);
    let q = chars_of(p);
    if q.len() > v.len() {
        return false;
    }
    matches_at(&v, &q, v.len() - q.len())
}

/// Whether `p` occurs in `s`.
pub fn contains(s: &str, p: &str) -> (r: bool)
    ensures
        r == has_infix(s@, p@),
{
    let v = chars_of(s);
    let q = chars_of(p);
    if q.len() > v.len() {
        assert(forall|at: int| !occurs_at(v@, q@, at));
        return false;
    }
    let last: usize = v.len() - q.len();
    let mut at: usize = 0;
    while at < last
        invariant
            v@ == s@,
            q@ == p@,
            last == v.len() - q.len(),
            at <= last,
            forall|k: int| 0 <= k < at ==> !occurs_at(v@, q@, k),
        decreases last - at,
    {
        if matches_at(&v, &q, at) {
            return true;
        }
        at += 1;
    }
    let found = matches_at(&v, &q, last);
    assert(!found ==> forall|k: int| !occurs_at(v@, q@, k));
    found
}


/// `s` without its leading whitespace.
pub open spec fn trim_start_of(s: Seq<char>) -> Seq<char>
    decreases s.len(),
{
    if s.len() > 0 && char_is_whitespace(s[0]) {
        trim_start_of(s.drop_first())
    } else {
        s
    }
}

/// `s` without its trailing whitespace.
pub open spec fn trim_end_of(s: Seq<char>) -> Seq<char>
    decreases s.len(),
{
    if s.len() > 0 && char_is_whitespace(s.last()) {
        trim_end_of(s.drop_last())
    } else {
        s
    }
}

/// `s` without leading and trailing whitespace.
pub open spec fn trimmed(s: Seq<char>) -> Seq<char> {
    trim_end_of(trim_start_of(s))
}

/// `s` holds nothing but whitespace.
pub open spec fn is_blank_text(s: Seq<char>) -> bool {
    trimmed(s).len() == 0
}

/// `s` with every character equal to `c` taken out.
pub open spec fn without_char(s: Seq<char>, c: char) -> Seq<char>
    decreases s.len(),
{
    if s.len() == 0 {
        s
    } else if s.last() == c {
        without_char(s.drop_last(), c)
    } else {
        without_char(s.drop_last(), c).push(s.last())
    }
}

/// `s` with every occurrence of `pat` replaced by `to`, scanning from the left
/// and never looking again at what a match covered. An empty pattern matches
/// nothing.
pub open spec fn replaced(s: Seq<char>, pat: Seq<char>, to: Seq<char>) -> Seq<char>
    decreases s.len(),
{
    if pat.len() == 0 || s.len() < pat.len() {
        s
    } else if has_prefix(s, pat) {
        to + replaced(s.subrange(pat.len() as int, s.len() as int), pat, to)
    } else {
        seq![s[0]] + replaced(s.drop_first(), pat, to)
    }
}

/// The character of a decimal digit.
pub open spec fn digit_char(d: nat) -> char {
    if d == 0 {
        '0'
    } else if d == 1 {
        '1'
    } else if d == 2 {
        '2'
    } else if d == 3 {
        '3'
    } else if d == 4 {
        '4'
    } else if d == 5 {
        '5'
    } else if d == 6 {
        '6'
    } else if d == 7 {
        '7'
    } else if d == 8 {
        '8'
    } else {
        '9'
    }
}

/// The decimal digits of `n`, most significant first, without leading zeros.
pub open spec fn digits_of(n: nat) -> Seq<char>
    decreases n,
{
    if n < 10 {
        seq![digit_char(n)]
    } else {
        digits_of(n / 10).push(digit_char(n % 10))
    }
}

/// The decimal form of `v`, with a minus sign in front of a negative number.
pub open spec fn decimal_of(v: int) -> Seq<char> {
    if v < 0 {
        seq!['-'] + digits_of((-v) as nat)
    } else {
        digits_of(v as nat)
    }
}

/// Trimming never lengthens a text, and a trimmed text neither begins nor ends
/// with whitespace.
pub proof fn lemma_trimmed_shape(s: Seq<char>)
    ensures
        trimmed(s).len() <= s.len(),
        trimmed(s).len() > 0 ==> !char_is_whitespace(trimmed(s)[0]) && !char_is_whitespace(
            trimmed(s).last(),
        ),
{
    lemma_trim_start_shape(s);
    lemma_trim_end_shape(trim_start_of(s));
}

proof fn lemma_trim_start_shape(s: Seq<char>)
    ensures
        trim_start_of(s).len() <= s.len(),
        trim_start_of(s).len() > 0 ==> !char_is_whitespace(trim_start_of(s)[0]),
        trim_start_of(s) == s.subrange(s.len() - trim_start_of(s).len(), s.len() as int),
    decreases s.len(),
{
    if s.len() > 0 && char_is_whitespace(s[0]) {
        let t = s.drop_first();
        lemma_trim_start_shape(t);
        let r = trim_start_of(t);
        assert(t.subrange(t.len() - r.len(), t.len() as int) == s.subrange(
            s.len() - r.len(),
            s.len() as int,
        ));
    } else {
        assert(s.subrange(0, s.len() as int) == s);
    }
}

proof fn lemma_trim_end_shape(s: Seq<char>)
    ensures
        trim_end_of(s).len() <= s.len(),
        trim_end_of(s) == s.subrange(0, trim_end_of(s).len() as int),
        trim_end_of(s).len() > 0 ==> !char_is_whitespace(trim_end_of(s).last()),
        trim_end_of(s).len() > 0 ==> trim_end_of(s)[0] == s[0],
    decreases s.len(),
{
    if s.len() > 0 && char_is_whitespace(s.last()) {
        let t = s.drop_last();
        lemma_trim_end_shape(t);
        let r = trim_end_of(t);
        assert(t.subrange(0, r.len() as int) == s.subrange(0, r.len() as int));
    } else {
        assert(s.subrange(0, s.len() as int) == s);
    }
}

/// `s` without leading and trailing whitespace.
pub fn trim(s: &str) -> (r: String)
    ensures
        r@ == trimmed(s@),
{
    let v = chars_of(s);
    let n: usize = v.len();
    let mut i: usize = 0;
    assert(v@.subrange(0, n as int) == v@);
    while i < n && is_whitespace(v[i])
        invariant
            n == v.len(),
            i <= n,
            trim_start_of(v@) == trim_start_of(v@.subrange(i as int, n as int)),
        decreases n - i,
    {
        proof {
            let w = v@.subrange(i as int, n as int);
            assert(w[0] == v@[i as int]);
            assert(w.drop_first() == v@.subrange(i + 1, n as int));
        }
        i += 1;
    }
    assert(trim_start_of(v@) == v@.subrange(i as int, n as int)) by {
        let w = v@.subrange(i as int, n as int);
        if i < n {
            assert(w[0] == v@[i as int]);
        }
    }
    let mut j: usize = n;
    while j > i && is_whitespace(v[j - 1])
        invariant
            n == v.len(),
            i <= j <= n,
            trimmed(v@) == trim_end_of(v@.subrange(i as int, j as int)),
        decreases j - i,
    {
        proof {
            let w = v@.subrange(i as int, j as int);
            assert(w.last() == v@[j - 1]);
            assert(w.drop_last() == v@.subrange(i as int, j - 1));
        }
        j -= 1;
    }
    assert(trimmed(v@) == v@.subrange(i as int, j as int)) by {
        let w = v@.subrange(i as int, j as int);
        if j > i {
            assert(w.last() == v@[j - 1]);
        }
    }
    text_of_range(&v, i, j)
}

/// Whether `s` holds nothing but whitespace.
pub fn is_blank(s: &str) -> (r: bool)
    ensures
        r == is_blank_text(s@),
{
    let t = trim(s);
    t.as_str().is_empty()
}

/// `s` with every character equal to `c` taken out.
pub fn remove_char(s: &str, c: char) -> (r: String)
    ensures
        r@ == without_char(s@, c),
{
    let v = chars_of(s);
    let mut r = String::new();
    let mut i: usize = 0;
    while i < v.len()
        invariant
            i <= v.len(),
            r@ == without_char(v@.take(i as int), c),
        decreases v.len() - i,
    {
        proof {
            let w = v@.take(i + 1);
            assert(w.drop_last() == v@.take(i as int));
            assert(w.last() == v@[i as int]);
        }
        if v[i] != c {
            push_char(&mut r, v[i]);
        }
        i += 1;
    }
    assert(v@.take(v.len() as int) == v@);
    r
}

/// `s` with every occurrence of `pat` replaced by `to`.
pub fn replace_all(s: &str, pat: &str, to: &str) -> (r: String)
    ensures
        r@ == replaced(s@, pat@, to@),
{
    let v = chars_of(s);
    let p = chars_of(pat);
    if p.len() == 0 || v.len() < p.len() {
        return s.to_owned();
    }
    let n: usize = v.len();
    let mut r = String::new();
    let mut i: usize = 0;
    assert(v@.subrange(0, n as int) == v@);
    assert(r@ + replaced(v@, p@, to@) == replaced(v@, p@, to@));
    while i < n && n - i >= p.len()
        invariant
            n == v.len(),
            i <= n,
            p@ == pat@,
            p.len() > 0,
            replaced(v@, p@, to@) == r@ + replaced(v@.subrange(i as int, n as int), p@, to@),
        decreases n - i,
    {
        let ghost rest = v@.subrange(i as int, n as int);
        let hit = matches_at(&v, &p, i);
        proof {
            assert(rest.subrange(0, p.len() as int) == v@.subrange(i as int, i + p.len()));
            assert(hit == has_prefix(rest, p@));
        }
        if hit {
            proof {
                assert(rest.subrange(p.len() as int, rest.len() as int) == v@.subrange(
                    i + p.len(),
                    n as int,
                ));
                assert(r@ + (to@ + replaced(v@.subrange(i + p.len(), n as int), p@, to@)) == (r@
                    + to@) + replaced(v@.subrange(i + p.len(), n as int), p@, to@));
            }
            r.append(to);
            i += p.len();
        } else {
            proof {
                assert(rest[0] == v@[i as int]);
                assert(rest.drop_first() == v@.subrange(i + 1, n as int));
                assert(r@ + (seq![v@[i as int]] + replaced(v@.subrange(i + 1, n as int), p@, to@))
                    == r@.push(v@[i as int]) + replaced(v@.subrange(i + 1, n as int), p@, to@));
            }
            push_char(&mut r, v[i]);
            i += 1;
        }
    }
    let tail = text_of_range(&v, i, n);
    r.append(tail.as_str());
    r
}

/// The character of the decimal digit `d`.
pub(crate) fn digit(d: u8) -> (c: char)
    requires
        d < 10,
    ensures
        c == digit_char(d as nat),
{
    match d {
        0 => '0',
        1 => '1',
        2 => '2',
        3 => '3',
        4 => '4',
        5 => '5',
        6 => '6',
        7 => '7',
        8 => '8',
        _ => '9',
    }
}

/// The decimal form of `v`.
pub fn decimal(v: i32) -> (r: String)
    ensures
        r@ == decimal_of(v as int),
{
    let wide: i64 = v as i64;
    let start: u64 = if wide < 0 {
        (-wide) as u64
    } else {
        wide as u64
    };
    let mut n: u64 = start;
    let mut low: Vec<char> = Vec::new();
    while n >= 10
        invariant
            digits_of(start as nat) == digits_of(n as nat) + low@.reverse(),
        decreases n,
    {
        let d: u8 = (n % 10) as u8;
        let c = digit(d);
        proof {
            assert(low@.push(c).reverse() == seq![c] + low@.reverse());
            assert(digits_of(n as nat) == digits_of((n / 10) as nat).push(c));
            assert(digits_of((n / 10) as nat).push(c) + low@.reverse() == digits_of(
                (n / 10) as nat,
            ) + (seq![c] + low@.reverse()));
        }
        low.push(c);
        n = n / 10;
    }
    let c = digit(n as u8);
    proof {
        assert(low@.push(c).reverse() == seq![c] + low@.reverse());
    }
    low.push(c);
    let mut r = String::new();
    if wide < 0 {
        push_char(&mut r, '-');
    }
    let ghost sign = r@;
    let mut k: usize = low.len();
    while k > 0
        invariant
            k <= low.len(),
            r@ == sign + low@.reverse().take(low.len() - k),
        decreases k,
    {
        k -= 1;
        proof {
            let rev = low@.reverse();
            assert(rev.take(low.len() - k) == rev.take(low.len() - k - 1).push(low@[k as int]));
            assert(sign + rev.take(low.len() - k - 1).push(low@[k as int]) == (sign + rev.take(
                low.len() - k - 1,
            )).push(low@[k as int]));
        }
        push_char(&mut r, low[k]);
    }
    assert(low@.reverse().take(low.len() as int) == low@.reverse());
    r
}

/// The pieces of `s` between the occurrences of `c`, in order. A text without
/// `c` is one piece; a `c` at either end gives an empty piece there.
pub open spec fn pieces_of(s: Seq<char>, c: char) -> Seq<Seq<char>>
    decreases s.len(),
{
    if s.len() == 0 {
        seq![Seq::<char>::empty()]
    } else if s.last() == c {
        pieces_of(s.drop_last(), c).push(Seq::<char>::empty())
    } else {
        let before = pieces_of(s.drop_last(), c);
        before.drop_last().push(before.last().push(s.last()))
    }
}

/// The pieces of `s` between the occurrences of `c`.
pub fn split_at_char(s: &str, c: char) -> (r: Vec<String>)
    ensures
        texts(r@) == pieces_of(s@, c),
{
    let v = chars_of(s);
    let mut done: Vec<String> = Vec::new();
    let mut current = String::new();
    let mut i: usize = 0;
    assert(texts(done@).push(current@) =~= pieces_of(v@.take(0), c));
    while i < v.len()
        invariant
            i <= v.len(),
            texts(done@).push(current@) == pieces_of(v@.take(i as int), c),
        decreases v.len() - i,
    {
        proof {
            let now = v@.take(i + 1);
            assert(now.drop_last() == v@.take(i as int));
            assert(now.last() == v@[i as int]);
            assert(texts(done@).push(current@).drop_last() =~= texts(done@));
        }
        if v[i] == c {
            let ghost before = done@;
            let ghost cur = current@;
            done.push(current);
            current = String::new();
            assert(texts(done@) =~= texts(before).push(cur));
        } else {
            push_char(&mut current, v[i]);
        }
        i += 1;
    }
    assert(v@.take(v.len() as int) == v@);
    let ghost before = done@;
    let ghost cur = current@;
    done.push(current);
    assert(texts(done@) =~= texts(before).push(cur));
    done
}

} // verus!
