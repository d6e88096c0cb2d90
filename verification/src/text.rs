//! Verified text utilities: space filling, field padding and decimal
//! formatting.
//!
//! Everything the banner prints is assembled from plain characters, so
//! these helpers carry exact contracts over `Seq<char>` views and the
//! rest of the crate states its output in terms of them.

use vstd::prelude::*;

verus! {

/// Relies on `String::push`: appends the given character to the end of
/// the string.
pub assume_specification[ String::push ](s: &mut String, ch: char)
    ensures
        final (s)@ == old(s)@.push(ch),
;

/// A run of `n` space characters.
pub open spec fn spec_spaces(n: nat) -> Seq<char> {
    Seq::new(n, |i: int| ' ')
}

/// `s` padded on the right with spaces up to width `w`; strings already
/// `w` or more characters wide are returned unchanged, never truncated.
pub open spec fn spec_pad(s: Seq<char>, w: nat) -> Seq<char> {
    if s.len() < w {
        s + spec_spaces((w - s.len()) as nat)
    } else {
        s
    }
}

/// Build a string of exactly `n` spaces.
pub fn spaces(n: usize) -> (r: String)
    ensures
        r@ == spec_spaces(n as nat),
{
    let mut r = String::new();
    let mut i: usize = 0;
    while i < n
        invariant
            i <= n,
            r@ == spec_spaces(i as nat),
        decreases n - i,
    {
        r.push(' ');
        i = i + 1;
        proof {
            assert(r@ =~= spec_spaces(i as nat));
        }
    }
    r
}

/// Pad `s` on the right with spaces to occupy `w` display columns.
pub fn pad_right(s: &str, w: usize) -> (r: String)
    ensures
        r@ == spec_pad(s@, w as nat),
{
    let len = s.unicode_len();
    let mut r = s.to_owned();
    let mut i: usize = len;
    while i < w
        invariant
            len == s@.len(),
            len <= i,
            w <= len ==> i == len,
            len < w ==> i <= w,
            r@ == spec_pad(s@, i as nat),
        decreases w - i,
    {
        r.push(' ');
        i = i + 1;
        proof {
            assert(r@ =~= spec_pad(s@, i as nat));
        }
    }
    r
}

/// `p` is a prefix of `s`.
pub open spec fn has_prefix(s: Seq<char>, p: Seq<char>) -> bool {
    p.len() <= s.len() && s.take(p.len() as int) == p
}

/// `p` is a suffix of `s`.
pub open spec fn has_suffix(s: Seq<char>, p: Seq<char>) -> bool {
    p.len() <= s.len() && s.skip(s.len() - p.len()) == p
}

/// Are the two strings the same sequence of characters?
pub fn str_eq(a: &str, b: &str) -> (r: bool)
    ensures
        r == (a@ == b@),
{
    let n = a.unicode_len();
    if n != b.unicode_len() {
        return false;
    }
    let r = str_starts_with(a, b);
    proof {
        if r {
            assert(a@.take(n as int) =~= a@);
        }
        if a@ == b@ {
            assert(a@.take(n as int) =~= b@);
        }
    }
    r
}

/// Does `s` start with the prefix `p`?
pub fn str_starts_with(s: &str, p: &str) -> (r: bool)
    ensures
        r == has_prefix(s@, p@),
{
    let n = s.unicode_len();
    let m = p.unicode_len();
    if n < m {
        return false;
    }
    let mut i: usize = 0;
    while i < m
        invariant
            m <= n,
            n == s@.len(),
            m == p@.len(),
            i <= m,
            forall|j: int| 0 <= j < i ==> s@[j] == p@[j],
        decreases m - i,
    {
        if s.get_char(i) != p.get_char(i) {
            proof {
                assert(s@.take(m as int)[i as int] != p@[i as int]);
            }
            return false;
        }
        i = i + 1;
    }
    proof {
        assert(s@.take(m as int) =~= p@);
    }
    true
}

/// Does `s` end with the suffix `p`?
pub fn str_ends_with(s: &str, p: &str) -> (r: bool)
    ensures
        r == has_suffix(s@, p@),
{
    let n = s.unicode_len();
    let m = p.unicode_len();
    if n < m {
        return false;
    }
    let base = n - m;
    let mut i: usize = 0;
    while i < m
        invariant
            base == n - m,
            m <= n,
            n == s@.len(),
            m == p@.len(),
            i <= m,
            forall|j: int| 0 <= j < i ==> s@[base + j] == p@[j],
        decreases m - i,
    {
        if s.get_char(base + i) != p.get_char(i) {
            proof {
                assert(s@.skip(base as int)[i as int] != p@[i as int]);
            }
            return false;
        }
        i = i + 1;
    }
    proof {
        assert(s@.skip(base as int) =~= p@);
    }
    true
}

/// The parts joined by the separator: `a`, `a sep b`, `a sep b sep c`, …
pub open spec fn spec_join(parts: Seq<Seq<char>>, sep: Seq<char>) -> Seq<char>
    decreases parts.len(),
{
    if parts.len() == 0 {
        Seq::empty()
    } else if parts.len() == 1 {
        parts[0]
    } else {
        parts[0] + sep + spec_join(parts.drop_first(), sep)
    }
}

/// Appending one more part extends the joined string by a separator
/// and that part (or is just the part, when there was nothing yet).
pub proof fn lemma_join_push(parts: Seq<Seq<char>>, sep: Seq<char>, x: Seq<char>)
    ensures
        parts.len() == 0 ==> spec_join(parts.push(x), sep) == x,
        parts.len() > 0 ==> spec_join(parts.push(x), sep) == spec_join(parts, sep) + sep + x,
    decreases parts.len(),
{
    if parts.len() == 0 {
        assert(spec_join(parts.push(x), sep) == parts.push(x)[0]);
        assert(parts.push(x)[0] == x);
    } else if parts.len() == 1 {
        let two = parts.push(x);
        assert(two.len() == 2);
        assert(two.drop_first() =~= seq![x]);
        assert(spec_join(two, sep) == two[0] + sep + spec_join(two.drop_first(), sep));
        assert(spec_join(seq![x], sep) == seq![x][0]);
        assert(two[0] == parts[0]);
        assert(spec_join(parts, sep) == parts[0]);
    } else {
        lemma_join_push(parts.drop_first(), sep, x);
        assert(parts.push(x).drop_first() =~= parts.drop_first().push(x));
        assert(spec_join(parts.push(x), sep) == parts[0] + sep + spec_join(
            parts.drop_first().push(x),
            sep,
        ));
        assert(parts[0] + sep + (spec_join(parts.drop_first(), sep) + sep + x) =~= (parts[0] + sep
            + spec_join(parts.drop_first(), sep)) + sep + x);
    }
}

/// Join the strings with the separator.
pub fn join_with(parts: &Vec<String>, sep: &str) -> (r: String)
    ensures
        r@ == spec_join(parts.deep_view(), sep@),
{
    let ghost deep = parts.deep_view();
    let mut r = String::new();
    let mut i: usize = 0;
    proof {
        assert(deep.take(0) =~= Seq::<Seq<char>>::empty());
    }
    while i < parts.len()
        invariant
            deep == parts.deep_view(),
            deep.len() == parts@.len(),
            forall|j: int| 0 <= j < deep.len() ==> deep[j] == parts@[j]@,
            i <= parts@.len(),
            r@ == spec_join(deep.take(i as int), sep@),
        decreases parts@.len() - i,
    {
        if i > 0 {
            r.append(sep);
        }
        r.append(parts[i].as_str());
        proof {
            lemma_join_push(deep.take(i as int), sep@, deep[i as int]);
            assert(deep.take(i as int).push(deep[i as int]) =~= deep.take(i + 1));
        }
        i = i + 1;
    }
    proof {
        assert(deep.take(deep.len() as int) =~= deep);
    }
    r
}

/// What `str::to_lowercase` returns for a given character sequence.
pub uninterp spec fn lower_of(s: Seq<char>) -> Seq<char>;

/// Relies on `str::to_lowercase`: the result depends on the input
/// characters alone (Unicode's locale-independent lowercase mapping).
#[verifier::external_body]
pub(crate) fn lowercase(s: &str) -> (r: String)
    ensures
        r@ == lower_of(s@),
{
    s.to_lowercase()
}

/// The character for one decimal digit.
pub open spec fn digit_char(d: nat) -> char {
    if d == 0 {
        '0'
    } else if d == 1 {
        '1'
    } else if d == 2 {
        '2'
    } else if d == 3 {
        '3'
    } else if d == 4 {
        '4'
    } else if d == 5 {
        '5'
    } else if d == 6 {
        '6'
    } else if d == 7 {
        '7'
    } else if d == 8 {
        '8'
    } else {
        '9'
    }
}

/// The usual decimal rendering of `n`, most significant digit first,
/// with no leading zeros (except for `n == 0` itself).
pub open spec fn spec_dec(n: nat) -> Seq<char>
    decreases n,
{
    if n < 10 {
        seq![digit_char(n)]
    } else {
        spec_dec(n / 10).push(digit_char(n % 10))
    }
}

fn digit_to_char(d: u64) -> (c: char)
    requires
        d < 10,
    ensures
        c == digit_char(d as nat),
{
    match d {
        0 => '0',
        1 => '1',
        2 => '2',
        3 => '3',
        4 => '4',
        5 => '5',
        6 => '6',
        7 => '7',
        8 => '8',
        _ => '9',
    }
}

/// The characters stripped from the end of loaded ASCII art text.
pub open spec fn is_trim_ws(c: char) -> bool {
    c == ' ' || c == '\t' || c == '\r' || c == '\n'
}

fn is_trim_ws_char(c: char) -> (r: bool)
    ensures
        r == is_trim_ws(c),
{
    c == ' ' || c == '\t' || c == '\r' || c == '\n'
}

/// `s` with every trailing whitespace character removed.
pub open spec fn spec_trim_end(s: Seq<char>) -> Seq<char>
    decreases s.len(),
{
    if s.len() > 0 && is_trim_ws(s.last()) {
        spec_trim_end(s.drop_last())
    } else {
        s
    }
}

/// Strip trailing whitespace (spaces, tabs, carriage returns, newlines).
pub fn trim_end_ws(s: &str) -> (r: &str)
    ensures
        r@ == spec_trim_end(s@),
{
    let mut e = s.unicode_len();
    proof {
        assert(s@.take(e as int) =~= s@);
    }
    while e > 0 && is_trim_ws_char(s.get_char(e - 1))
        invariant
            e <= s@.len(),
            spec_trim_end(s@) == spec_trim_end(s@.take(e as int)),
        decreases e,
    {
        proof {
            assert(s@.take(e as int).last() == s@[e - 1]);
            assert(s@.take(e as int).drop_last() =~= s@.take(e - 1));
        }
        e = e - 1;
    }
    proof {
        if e > 0 {
            assert(!is_trim_ws(s@.take(e as int).last()));
        }
        assert(spec_trim_end(s@.take(e as int)) == s@.take(e as int));
    }
    let r = s.substring_char(0, e);
    proof {
        assert(r@ =~= s@.take(e as int));
    }
    r
}

/// The position of the first occurrence of `c` in `s` at or after `i`,
/// or `s.len()` if there is none.
pub open spec fn find_from(s: Seq<char>, c: char, i: int) -> int
    decreases s.len() - i,
{
    if i < 0 || i >= s.len() {
        s.len() as int
    } else if s[i] == c {
        i
    } else {
        find_from(s, c, i + 1)
    }
}

/// What `find_from` returns: a position within bounds, holding `c` if
/// within the string, with no earlier occurrence.
pub proof fn lemma_find_from(s: Seq<char>, c: char, i: int)
    requires
        0 <= i <= s.len(),
    ensures
        i <= find_from(s, c, i) <= s.len(),
        find_from(s, c, i) < s.len() ==> s[find_from(s, c, i)] == c,
        forall|j: int| i <= j < find_from(s, c, i) ==> s[j] != c,
    decreases s.len() - i,
{
    if i < s.len() && s[i] != c {
        lemma_find_from(s, c, i + 1);
    }
}

/// The first index `k` with `s[k] == c` pins down `find_from`.
pub proof fn lemma_find_from_is(s: Seq<char>, c: char, k: int)
    requires
        0 <= k <= s.len(),
        forall|j: int| 0 <= j < k ==> s[j] != c,
        k < s.len() ==> s[k] == c,
    ensures
        find_from(s, c, 0) == k,
{
    lemma_find_from_is_rec(s, c, 0, k);
}

proof fn lemma_find_from_is_rec(s: Seq<char>, c: char, i: int, k: int)
    requires
        0 <= i <= k <= s.len(),
        forall|j: int| i <= j < k ==> s[j] != c,
        k < s.len() ==> s[k] == c,
    ensures
        find_from(s, c, i) == k,
    decreases k - i,
{
    if i < k {
        lemma_find_from_is_rec(s, c, i + 1, k);
    }
}

/// The position of the first `c` in `s`, or the length of `s` if `c`
/// does not occur.
pub fn find_char(s: &str, c: char) -> (r: usize)
    ensures
        r == find_from(s@, c, 0),
{
    let n = s.unicode_len();
    let mut i: usize = 0;
    while i < n
        invariant
            n == s@.len(),
            i <= n,
            forall|j: int| 0 <= j < i ==> s@[j] != c,
        decreases n - i,
    {
        if s.get_char(i) == c {
            proof {
                lemma_find_from_is(s@, c, i as int);
            }
            return i;
        }
        i = i + 1;
    }
    proof {
        lemma_find_from_is(s@, c, n as int);
    }
    n
}

/// One line as cut out of a larger text: a trailing carriage return
/// (from a Windows-style line ending) is dropped.
pub open spec fn strip_cr(l: Seq<char>) -> Seq<char> {
    if l.len() > 0 && l.last() == '\r' {
        l.drop_last()
    } else {
        l
    }
}

/// The lines of `s`, split at newline characters.  A final line without
/// a terminating newline still counts; a terminating newline on the
/// last line does not create an empty line after it.  Each line loses a
/// trailing carriage return.
pub open spec fn spec_lines(s: Seq<char>) -> Seq<Seq<char>>
    decreases s.len() via spec_lines_dec
{
    if s.len() == 0 {
        Seq::empty()
    } else {
        let n = find_from(s, '\n', 0);
        if n == s.len() {
            seq![strip_cr(s)]
        } else {
            seq![strip_cr(s.take(n))] + spec_lines(s.skip(n + 1))
        }
    }
}

#[via_fn]
proof fn spec_lines_dec(s: Seq<char>) {
    if s.len() > 0 {
        lemma_find_from(s, '\n', 0);
    }
}

/// Copy the line `s[start..end]`, dropping a trailing carriage return.
fn line_between(s: &str, start: usize, end: usize) -> (r: String)
    requires
        start <= end <= s@.len(),
    ensures
        r@ == strip_cr(s@.subrange(start as int, end as int)),
{
    if end > start && s.get_char(end - 1) == '\r' {
        let r = s.substring_char(start, end - 1);
        proof {
            assert(s@.subrange(start as int, end as int).last() == s@[end - 1]);
            assert(r@ =~= s@.subrange(start as int, end as int).drop_last());
        }
        r.to_owned()
    } else {
        let r = s.substring_char(start, end);
        proof {
            if end > start {
                assert(s@.subrange(start as int, end as int).last() == s@[end - 1]);
            }
        }
        r.to_owned()
    }
}

/// Split `s` into its lines, exactly as [`spec_lines`] describes.
pub fn split_lines(s: &str) -> (r: Vec<String>)
    ensures
        r.deep_view() == spec_lines(s@),
{
    let n = s.unicode_len();
    let mut r: Vec<String> = Vec::new();
    let mut start: usize = 0;
    let mut i: usize = 0;
    proof {
        assert(s@.skip(0) =~= s@);
        assert(r.deep_view() + spec_lines(s@) =~= spec_lines(s@));
    }
    while i < n
        invariant
            n == s@.len(),
            start <= i <= n,
            forall|j: int| start <= j < i ==> s@[j] != '\n',
            r.deep_view() + spec_lines(s@.skip(start as int)) == spec_lines(s@),
        decreases n - i,
    {
        if s.get_char(i) == '\n' {
            let line = line_between(s, start, i);
            proof {
                let rest = s@.skip(start as int);
                lemma_find_from_is(rest, '\n', i - start);
                assert(rest.take(i - start) =~= s@.subrange(start as int, i as int));
                assert(rest.skip(i - start + 1) =~= s@.skip(i + 1));
                assert(spec_lines(rest) == seq![strip_cr(rest.take(i - start))] + spec_lines(
                    s@.skip(i + 1),
                ));
            }
            let ghost old_deep = r.deep_view();
            r.push(line);
            proof {
                assert(r.deep_view() =~= old_deep.push(line@));
                assert(r.deep_view() + spec_lines(s@.skip(i + 1)) =~= spec_lines(s@));
            }
            start = i + 1;
        }
        i = i + 1;
    }
    if start < n {
        let line = line_between(s, start, n);
        proof {
            let rest = s@.skip(start as int);
            lemma_find_from_is(rest, '\n', n - start);
            assert(rest.take(n - start) =~= rest);
            assert(rest =~= s@.subrange(start as int, n as int));
            assert(spec_lines(rest) == seq![strip_cr(rest)]);
        }
        let ghost old_deep = r.deep_view();
        r.push(line);
        proof {
            assert(r.deep_view() =~= old_deep.push(line@));
            assert(r.deep_view() =~= spec_lines(s@));
        }
    } else {
        proof {
            assert(s@.skip(start as int) =~= Seq::<char>::empty());
            assert(r.deep_view() =~= spec_lines(s@));
        }
    }
    r
}

/// Format `n` in decimal.
pub fn u64_to_string(n: u64) -> (r: String)
    ensures
        r@ == spec_dec(n as nat),
    decreases n,
{
    if n < 10 {
        let c = digit_to_char(n);
        let mut r = String::new();
        r.push(c);
        proof {
            assert(r@ =~= seq![digit_char(n as nat)]);
        }
        r
    } else {
        let mut r = u64_to_string(n / 10);
        let c = digit_to_char(n % 10);
        r.push(c);
        r
    }
}

} // verus!
