//! Reading one cookie out of a `Cookie` header.
use vstd::prelude::*;

verus! {

/// The characters that `char::is_whitespace` accepts: the Unicode White_Space
/// property.
pub open spec fn is_white_space(c: char) -> bool {
    ('\t' <= c && c <= '\r') || c == ' ' || c == '\u{85}' || c == '\u{a0}' || c == '\u{1680}' || (
    '\u{2000}' <= c && c <= '\u{200a}') || c == '\u{2028}' || c == '\u{2029}' || c == '\u{202f}' || c
        == '\u{205f}' || c == '\u{3000}'
}

fn is_space(c: char) -> (r: bool)
    ensures
        r == is_white_space(c),
{
    ('\t' <= c && c <= '\r') || c == ' ' || c == '\u{85}' || c == '\u{a0}' || c == '\u{1680}' || (
    '\u{2000}' <= c && c <= '\u{200a}') || c == '\u{2028}' || c == '\u{2029}' || c == '\u{202f}' || c
        == '\u{205f}' || c == '\u{3000}'
}

/// Text without its leading white space.
pub open spec fn trim_start(s: Seq<char>) -> Seq<char>
    decreases s.len(),
{
    if s.len() > 0 && is_white_space(s[0]) {
        trim_start(s.skip(1))
    } else {
        s
    }
}

/// Text without its trailing white space.
pub open spec fn trim_end(s: Seq<char>) -> Seq<char>
    decreases s.len(),
{
    if s.len() > 0 && is_white_space(s.last()) {
        trim_end(s.drop_last())
    } else {
        s
    }
}

/// Text without white space at either end, as `str::trim` gives it.
pub open spec fn trimmed(s: Seq<char>) -> Seq<char> {
    trim_end(trim_start(s))
}

pub open spec fn starts_with(t: Seq<char>, p: Seq<char>) -> bool {
    t.len() >= p.len() && t.take(p.len() as int) == p
}

/// Text with every leading copy of a non-empty `p` removed, as
/// `str::trim_start_matches` gives it.
pub open spec fn strip_repeated(t: Seq<char>, p: Seq<char>) -> Seq<char>
    decreases t.len(),
{
    if p.len() > 0 && starts_with(t, p) {
        strip_repeated(t.skip(p.len() as int), p)
    } else {
        t
    }
}

/// Index of the first ';' at or after `i`, or the length.
pub open spec fn next_semicolon(s: Seq<char>, i: int) -> int
    decreases s.len() - i,
{
    if i >= s.len() {
        s.len() as int
    } else if s[i] == ';' {
        i
    } else {
        next_semicolon(s, i + 1)
    }
}

/// Scanning the ';'-separated parts of `s` from index `i`: the first part
/// that, trimmed, starts with `name` gives its text after `name`.
pub open spec fn cookie_from(s: Seq<char>, name: Seq<char>, i: int) -> Option<Seq<char>>
    decreases s.len() - i
    when 0 <= i <= s.len()
    via cookie_from_decreases
{
    let k = next_semicolon(s, i);
    let t = trimmed(s.subrange(i, k));
    if starts_with(t, name) {
        Some(strip_repeated(t, name))
    } else if k >= s.len() {
        None
    } else {
        cookie_from(s, name, k + 1)
    }
}

proof fn lemma_next_semicolon_bounds(s: Seq<char>, i: int)
    requires
        0 <= i <= s.len(),
    ensures
        i <= next_semicolon(s, i) <= s.len(),
        next_semicolon(s, i) < s.len() ==> s[next_semicolon(s, i)] == ';',
    decreases s.len() - i,
{
    if i < s.len() && s[i] != ';' {
        lemma_next_semicolon_bounds(s, i + 1);
    }
}

#[via_fn]
proof fn cookie_from_decreases(s: Seq<char>, name: Seq<char>, i: int) {
    lemma_next_semicolon_bounds(s, i);
}

fn chars_of(s: &str) -> (r: Vec<char>)
    ensures
        r@ == s@,
{
    let n = s.unicode_len();
    let mut v: Vec<char> = Vec::new();
    let mut i: usize = 0;
    while i < n
        invariant
            n == s@.len(),
            i <= n,
            v@ == s@.take(i as int),
        decreases n - i,
    {
        v.push(s.get_char(i));
        assert(s@.take(i + 1) =~= s@.take(i as int).push(s@[i as int]));
        i = i + 1;
    }
    assert(s@.take(n as int) =~= s@);
    v
}

fn find_semicolon(cs: &Vec<char>, i: usize) -> (r: usize)
    requires
        i <= cs@.len(),
    ensures
        r == next_semicolon(cs@, i as int),
{
    let mut j: usize = i;
    while j < cs.len() && cs[j] != ';'
        invariant
            i <= j <= cs@.len(),
            next_semicolon(cs@, i as int) == next_semicolon(cs@, j as int),
        decreases cs@.len() - j,
    {
        j = j + 1;
    }
    j
}

fn trim_range(cs: &Vec<char>, a: usize, b: usize) -> (r: (usize, usize))
    requires
        a <= b <= cs@.len(),
    ensures
        a <= r.0 <= r.1 <= b,
        trimmed(cs@.subrange(a as int, b as int)) == cs@.subrange(r.0 as int, r.1 as int),
{
    let mut x: usize = a;
    while x < b && is_space(cs[x])
        invariant
            a <= x <= b <= cs@.len(),
            trim_start(cs@.subrange(a as int, b as int)) == trim_start(cs@.subrange(x as int, b as int)),
        decreases b - x,
    {
        assert(cs@.subrange(x as int, b as int).skip(1) =~= cs@.subrange(x + 1, b as int));
        x = x + 1;
    }
    assert(trim_start(cs@.subrange(x as int, b as int)) == cs@.subrange(x as int, b as int));
    let mut y: usize = b;
    while y > x && is_space(cs[y - 1])
        invariant
            a <= x <= y <= b <= cs@.len(),
            trim_end(cs@.subrange(x as int, b as int)) == trim_end(cs@.subrange(x as int, y as int)),
        decreases y - x,
    {
        assert(cs@.subrange(x as int, y as int).drop_last() =~= cs@.subrange(x as int, y - 1));
        y = y - 1;
    }
    (x, y)
}

fn has_prefix_at(cs: &Vec<char>, a: usize, b: usize, p: &Vec<char>) -> (r: bool)
    requires
        a <= b <= cs@.len(),
    ensures
        r == starts_with(cs@.subrange(a as int, b as int), p@),
{
    if b - a < p.len() {
        return false;
    }
    let mut k: usize = 0;
    while k < p.len()
        invariant
            a <= b <= cs@.len(),
            b - a >= p@.len(),
            k <= p@.len(),
            forall|m: int| 0 <= m < k ==> cs@[a + m] == p@[m],
        decreases p@.len() - k,
    {
        if cs[a + k] != p[k] {
            assert(cs@.subrange(a as int, b as int).take(p@.len() as int)[k as int] != p@[k as int]);
            return false;
        }
        k = k + 1;
    }
    assert(cs@.subrange(a as int, b as int).take(p@.len() as int) =~= p@);
    true
}

/// The value of cookie `name` in a `Cookie` header: the first ';'-separated
/// part that, with white space trimmed, starts with `name`, and its text after
/// every leading copy of `name`.
pub fn read_cookie(header: &str, name: &str) -> (r: Option<String>)
    ensures
        match cookie_from(header@, name@, 0) {
            None => r is None,
            Some(v) => r matches Some(text) && text@ == v,
        },
{
    let cs = chars_of(header);
    let p = chars_of(name);
    let n = cs.len();
    let mut i: usize = 0;
    loop
        invariant
            cs@ == header@,
            p@ == name@,
            n == cs@.len(),
            i <= n,
            cookie_from(header@, name@, 0) == cookie_from(header@, name@, i as int),
        decreases n - i,
    {
        let k = find_semicolon(&cs, i);
        proof {
            lemma_next_semicolon_bounds(cs@, i as int);
        }
        let (a, b) = trim_range(&cs, i, k);
        if has_prefix_at(&cs, a, b, &p) {
            let mut x: usize = a;
            while p.len() > 0 && has_prefix_at(&cs, x, b, &p)
                invariant
                    a <= x <= b <= n == cs@.len(),
                    strip_repeated(cs@.subrange(a as int, b as int), p@) == strip_repeated(
                        cs@.subrange(x as int, b as int),
                        p@,
                    ),
                decreases b - x,
            {
                assert(cs@.subrange(x as int, b as int).skip(p@.len() as int) =~= cs@.subrange(
                    x + p@.len(),
                    b as int,
                ));
                x = x + p.len();
            }
            return Some(String::from_str(header.substring_char(x, b)));
        }
        if k >= n {
            return None;
        }
        i = k + 1;
    }
}

} // verus!
