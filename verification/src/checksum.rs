//! Reading a SHA-256 digest out of a published checksum listing, such as a
//! GitHub release's `.sha256` file: either `<digest>  <file name>` or the bare
//! digest, possibly among other lines.
use vstd::prelude::*;
use crate::chars::{
    is_whitespace, char_is_whitespace, is_hex_digit, char_is_hex_digit, is_lower_hex_digit,
    hex_digit_lower, char_hex_digit_lower, lemma_hex_digit_lower,
};
use crate::text::{chars_of, push_char, trim_start, lemma_trim_start_at, ascii_lower_char};

verus! {

/// The number of characters before the first `'\n'` of `s` (all of them if
/// there is none).
pub open spec fn line_len(s: Seq<char>) -> nat
    decreases s.len(),
{
    if s.len() == 0 || s[0] == '\n' {
        0
    } else {
        1 + line_len(s.drop_first())
    }
}

/// The lines of `s`: the pieces between `'\n'` characters, in order, as
/// `str::lines` yields them. (`lines` also strips a `'\r'` before each
/// `'\n'` and drops an empty piece after a final `'\n'`; both are whitespace
/// or empty and make no difference to the first word of a line.)
pub open spec fn lines(s: Seq<char>) -> Seq<Seq<char>>
    decreases s.len(),
{
    let n = line_len(s);
    if n < s.len() {
        seq![s.take(n as int)] + lines(s.skip((n + 1) as int))
    } else {
        seq![s]
    }
}

/// The longest prefix of `s` without whitespace.
pub open spec fn token(s: Seq<char>) -> Seq<char>
    decreases s.len(),
{
    if s.len() > 0 && !is_whitespace(s[0]) {
        seq![s[0]] + token(s.drop_first())
    } else {
        seq![]
    }
}

/// The first whitespace-separated word of a line (empty for a blank line),
/// which is what `line.trim().split_whitespace().next()` gives.
pub open spec fn first_word(line: Seq<char>) -> Seq<char> {
    token(trim_start(line))
}

/// A SHA-256 digest written out: exactly 64 hexadecimal digits, in either case.
pub open spec fn is_sha256_hex(w: Seq<char>) -> bool {
    w.len() == 64 && forall|i: int| 0 <= i < w.len() ==> is_hex_digit(#[trigger] w[i])
}

/// `w` with `A-F` lowered to `a-f`; on a string of hexadecimal digits this is
/// `str::to_lowercase`.
pub open spec fn hex_lowercase(w: Seq<char>) -> Seq<char> {
    w.map_values(|c: char| hex_digit_lower(c))
}

/// The lowercased first word of the first line whose first word is a
/// SHA-256 digest, if any line has one.
pub open spec fn find_digest(ls: Seq<Seq<char>>) -> Option<Seq<char>>
    decreases ls.len(),
{
    if ls.len() == 0 {
        None
    } else if is_sha256_hex(first_word(ls[0])) {
        Some(hex_lowercase(first_word(ls[0])))
    } else {
        find_digest(ls.drop_first())
    }
}

/// The digest that a checksum listing publishes.
pub open spec fn listed_sha256(text: Seq<char>) -> Option<Seq<char>> {
    find_digest(lines(text))
}

/// A line ends at the first `'\n'`.
proof fn lemma_line_len_at(s: Seq<char>, e: int)
    requires
        0 <= e <= s.len(),
        forall|k: int| 0 <= k < e ==> #[trigger] s[k] != '\n',
        e == s.len() || s[e] == '\n',
    ensures
        line_len(s) == e,
    decreases e,
{
    if e > 0 {
        let t = s.drop_first();
        assert forall|k: int| 0 <= k < e - 1 implies #[trigger] t[k] != '\n' by {
            assert(t[k] == s[k + 1]);
        }
        if e < s.len() {
            assert(t[e - 1] == s[e]);
        }
        lemma_line_len_at(t, e - 1);
    }
}

/// A token ends at the first whitespace character.
proof fn lemma_token_at(s: Seq<char>, m: int)
    requires
        0 <= m <= s.len(),
        forall|k: int| 0 <= k < m ==> !is_whitespace(#[trigger] s[k]),
        m == s.len() || is_whitespace(s[m]),
    ensures
        token(s) == s.take(m),
    decreases m,
{
    if m == 0 {
        assert(s.take(0) =~= Seq::<char>::empty());
    } else {
        let t = s.drop_first();
        assert forall|k: int| 0 <= k < m - 1 implies !is_whitespace(#[trigger] t[k]) by {
            assert(t[k] == s[k + 1]);
        }
        if m < s.len() {
            assert(t[m - 1] == s[m]);
        }
        lemma_token_at(t, m - 1);
        assert(seq![s[0]] + t.take(m - 1) =~= s.take(m));
    }
}

/// Where the line that starts at `pos` ends: the index of the next `'\n'`, or
/// the end of `cs`.
fn line_end(cs: &Vec<char>, pos: usize) -> (e: usize)
    requires
        pos <= cs@.len(),
    ensures
        pos <= e <= cs@.len(),
        line_len(cs@.skip(pos as int)) == e - pos,
        e < cs@.len() ==> cs@[e as int] == '\n',
{
    let n = cs.len();
    let mut e: usize = pos;
    while e < n && cs[e] != '\n'
        invariant
            pos <= e <= n,
            n == cs@.len(),
            forall|k: int| pos <= k < e ==> #[trigger] cs@[k] != '\n',
        decreases n - e,
    {
        e = e + 1;
    }
    proof {
        let x = cs@.skip(pos as int);
        assert forall|k: int| 0 <= k < e - pos implies #[trigger] x[k] != '\n' by {
            assert(x[k] == cs@[k + pos]);
        }
        if e < n {
            assert(x[e - pos] == cs@[e as int]);
        }
        lemma_line_len_at(x, e - pos);
    }
    e
}

/// Where the first word of the line `cs[pos..e]` starts and ends.
fn first_word_bounds(cs: &Vec<char>, pos: usize, e: usize) -> (r: (usize, usize))
    requires
        pos <= e <= cs@.len(),
    ensures
        pos <= r.0 <= r.1 <= e,
        first_word(cs@.subrange(pos as int, e as int)) == cs@.subrange(r.0 as int, r.1 as int),
{
    let mut a: usize = pos;
    while a < e && char_is_whitespace(cs[a])
        invariant
            pos <= a <= e <= cs@.len(),
            forall|k: int| pos <= k < a ==> is_whitespace(#[trigger] cs@[k]),
        decreases e - a,
    {
        a = a + 1;
    }
    let mut b: usize = a;
    while b < e && !char_is_whitespace(cs[b])
        invariant
            pos <= a <= b <= e <= cs@.len(),
            forall|k: int| a <= k < b ==> !is_whitespace(#[trigger] cs@[k]),
        decreases e - b,
    {
        b = b + 1;
    }
    proof {
        let line = cs@.subrange(pos as int, e as int);
        assert forall|k: int| 0 <= k < a - pos implies is_whitespace(#[trigger] line[k]) by {
            assert(line[k] == cs@[k + pos]);
        }
        if a < e {
            assert(line[a - pos] == cs@[a as int]);
        }
        lemma_trim_start_at(line, a - pos);
        let y = line.skip(a - pos);
        assert forall|k: int| 0 <= k < b - a implies !is_whitespace(#[trigger] y[k]) by {
            assert(y[k] == cs@[k + a]);
        }
        if b < e {
            assert(y[b - a] == cs@[b as int]);
        }
        lemma_token_at(y, b - a);
        assert(y.take(b - a) =~= cs@.subrange(a as int, b as int));
    }
    (a, b)
}

/// `cs[a..b]` lowercased, when it is a SHA-256 digest.
fn digest_at(cs: &Vec<char>, a: usize, b: usize) -> (r: Option<String>)
    requires
        a <= b <= cs@.len(),
    ensures
        match r {
            Some(h) => is_sha256_hex(cs@.subrange(a as int, b as int)) && h@ == hex_lowercase(
                cs@.subrange(a as int, b as int),
            ),
            None => !is_sha256_hex(cs@.subrange(a as int, b as int)),
        },
{
    let ghost word = cs@.subrange(a as int, b as int);
    if b - a != 64 {
        return None;
    }
    let mut i: usize = a;
    while i < b
        invariant
            a <= i <= b <= cs@.len(),
            word == cs@.subrange(a as int, b as int),
            forall|k: int| a <= k < i ==> is_hex_digit(#[trigger] cs@[k]),
        decreases b - i,
    {
        if !char_is_hex_digit(cs[i]) {
            assert(word[i - a] == cs@[i as int]);
            return None;
        }
        i = i + 1;
    }
    assert forall|k: int| 0 <= k < word.len() implies is_hex_digit(#[trigger] word[k]) by {
        assert(word[k] == cs@[k + a]);
    }
    let mut out = String::new();
    let mut j: usize = a;
    while j < b
        invariant
            a <= j <= b <= cs@.len(),
            out@ == hex_lowercase(cs@.subrange(a as int, j as int)),
        decreases b - j,
    {
        push_char(&mut out, char_hex_digit_lower(cs[j]));
        proof {
            assert(cs@.subrange(a as int, j + 1) =~= cs@.subrange(a as int, j as int).push(
                cs@[j as int],
            ));
            assert(hex_lowercase(cs@.subrange(a as int, j + 1)) =~= hex_lowercase(
                cs@.subrange(a as int, j as int),
            ).push(hex_digit_lower(cs@[j as int])));
        }
        j = j + 1;
    }
    Some(out)
}

/// The lines of a text that has a first line of `n` characters: that line,
/// then the lines after its `'\n'` (when there is one).
proof fn lemma_lines_split(x: Seq<char>, n: int)
    requires
        line_len(x) == n,
        0 <= n <= x.len(),
    ensures
        lines(x)[0] == x.take(n),
        n < x.len() ==> lines(x).drop_first() == lines(x.skip(n + 1)),
        n == x.len() ==> lines(x).drop_first().len() == 0,
{
    if n < x.len() {
        assert((seq![x.take(n)] + lines(x.skip(n + 1))).drop_first() =~= lines(x.skip(n + 1)));
    } else {
        assert(x.take(n) =~= x);
    }
}

/// Reads the SHA-256 digest from a checksum listing: the first line whose
/// first word is 64 hexadecimal digits gives the digest, lowercased; blank
/// lines and lines whose first word is anything else are passed over.
/// `None` when no line has such a word.
pub fn parse_sha256(text: &str) -> (r: Option<String>)
    ensures
        match r {
            Some(h) => listed_sha256(text@) == Some(h@),
            None => listed_sha256(text@) is None,
        },
{
    let cs = chars_of(text);
    let n = cs.len();
    let mut pos: usize = 0;
    assert(cs@.skip(0) =~= cs@);
    loop
        invariant
            cs@ == text@,
            n == cs@.len(),
            pos <= n,
            listed_sha256(text@) == find_digest(lines(cs@.skip(pos as int))),
        decreases n - pos,
    {
        let ghost x = cs@.skip(pos as int);
        let e = line_end(&cs, pos);
        let (a, b) = first_word_bounds(&cs, pos, e);
        proof {
            lemma_lines_split(x, e - pos);
            assert(x.take(e - pos) =~= cs@.subrange(pos as int, e as int));
            if e < n {
                assert(x.skip(e - pos + 1) =~= cs@.skip(e + 1));
            }
        }
        match digest_at(&cs, a, b) {
            Some(h) => {
                return Some(h);
            },
            None => {},
        }
        if e < n {
            pos = e + 1;
        } else {
            assert(find_digest(lines(x)) == find_digest(lines(x).drop_first()));
            assert(find_digest(lines(x).drop_first()) is None);
            return None;
        }
    }
}


/// The first line stops at its first `'\n'`, if there is one.
proof fn lemma_line_len(s: Seq<char>)
    ensures
        line_len(s) <= s.len(),
        forall|k: int| 0 <= k < line_len(s) ==> #[trigger] s[k] != '\n',
        line_len(s) < s.len() ==> s[line_len(s) as int] == '\n',
    decreases s.len(),
{
    if s.len() > 0 && s[0] != '\n' {
        let t = s.drop_first();
        lemma_line_len(t);
        assert forall|k: int| 0 <= k < line_len(s) implies #[trigger] s[k] != '\n' by {
            if k > 0 {
                assert(s[k] == t[k - 1]);
            }
        }
        if line_len(s) < s.len() {
            assert(s[line_len(s) as int] == t[line_len(t) as int]);
        }
    }
}

/// What `find_digest` finds is the lowercased first word of one of the lines.
proof fn lemma_find_digest_shape(ls: Seq<Seq<char>>)
    ensures
        find_digest(ls) matches Some(h) ==> h.len() == 64 && forall|i: int|
            0 <= i < h.len() ==> is_lower_hex_digit(#[trigger] h[i]),
    decreases ls.len(),
{
    if ls.len() > 0 {
        let w = first_word(ls[0]);
        if is_sha256_hex(w) {
            assert forall|i: int| 0 <= i < hex_lowercase(w).len() implies is_lower_hex_digit(
                #[trigger] hex_lowercase(w)[i],
            ) by {
                lemma_hex_digit_lower(w[i]);
            }
        } else {
            lemma_find_digest_shape(ls.drop_first());
        }
    }
}

/// Whatever listing it comes from, a published digest is 64 lowercase
/// hexadecimal digits.
pub proof fn lemma_listed_sha256_is_lowercase_digest(text: Seq<char>)
    ensures
        listed_sha256(text) matches Some(h) ==> h.len() == 64 && forall|i: int|
            0 <= i < h.len() ==> is_lower_hex_digit(#[trigger] h[i]),
{
    lemma_find_digest_shape(lines(text));
}

/// A listing that starts with a digest, followed by nothing or by whitespace
/// (as in `<digest>  updater.exe`), publishes that digest, lowercased.
pub proof fn lemma_listing_of_digest(digest: Seq<char>, rest: Seq<char>)
    requires
        is_sha256_hex(digest),
        rest.len() == 0 || is_whitespace(rest[0]),
    ensures
        listed_sha256(digest + rest) == Some(hex_lowercase(digest)),
{
    let x = digest + rest;
    lemma_line_len(x);
    let l = line_len(x) as int;
    if l < 64 {
        assert(x[l] == digest[l]);
        assert(false);
    }
    lemma_lines_split(x, l);
    let line = x.take(l);
    assert(!is_whitespace(line[0])) by {
        assert(line[0] == digest[0]);
    }
    lemma_trim_start_at(line, 0);
    assert(line.skip(0) =~= line);
    assert forall|k: int| 0 <= k < 64 implies !is_whitespace(#[trigger] line[k]) by {
        assert(line[k] == digest[k]);
    }
    if l > 64 {
        assert(line[64] == rest[0]);
    }
    lemma_token_at(line, 64);
    assert(line.take(64) =~= digest);
}

/// The ASCII uppercase of `c`: `a-z` become `A-Z`, anything else stays.
pub open spec fn ascii_upper_char(c: char) -> char {
    if 'a' <= c && c <= 'z' {
        ((c as u32) - 32) as char
    } else {
        c
    }
}

/// A character mapping that changes nothing a listing's reading depends on:
/// line breaks, whitespace and hexadecimal digits stay what they are, and a
/// hexadecimal digit keeps its lowercase form.
pub open spec fn preserves_listing(f: spec_fn(char) -> char) -> bool {
    forall|c: char|
        {
            &&& (#[trigger] f(c) == '\n') == (c == '\n')
            &&& is_whitespace(f(c)) == is_whitespace(c)
            &&& is_hex_digit(f(c)) == is_hex_digit(c)
            &&& is_hex_digit(c) ==> hex_digit_lower(f(c)) == hex_digit_lower(c)
        }
}

proof fn lemma_line_len_map(s: Seq<char>, f: spec_fn(char) -> char)
    requires
        preserves_listing(f),
    ensures
        line_len(s.map_values(f)) == line_len(s),
    decreases s.len(),
{
    if s.len() > 0 {
        assert(s.map_values(f).drop_first() =~= s.drop_first().map_values(f));
        assert(s.map_values(f)[0] == f(s[0]));
        lemma_line_len_map(s.drop_first(), f);
    }
}

proof fn lemma_lines_map(s: Seq<char>, f: spec_fn(char) -> char)
    requires
        preserves_listing(f),
    ensures
        lines(s.map_values(f)) == lines(s).map_values(|l: Seq<char>| l.map_values(f)),
    decreases s.len(),
{
    let m = s.map_values(f);
    lemma_line_len_map(s, f);
    let n = line_len(s) as int;
    if n < s.len() {
        assert(m.take(n) =~= s.take(n).map_values(f));
        assert(m.skip(n + 1) =~= s.skip(n + 1).map_values(f));
        lemma_lines_map(s.skip(n + 1), f);
        assert(lines(m) =~= lines(s).map_values(|l: Seq<char>| l.map_values(f)));
    } else {
        assert(lines(m) =~= lines(s).map_values(|l: Seq<char>| l.map_values(f)));
    }
}

proof fn lemma_trim_start_map(s: Seq<char>, f: spec_fn(char) -> char)
    requires
        preserves_listing(f),
    ensures
        trim_start(s.map_values(f)) == trim_start(s).map_values(f),
    decreases s.len(),
{
    if s.len() > 0 {
        assert(s.map_values(f).drop_first() =~= s.drop_first().map_values(f));
        assert(s.map_values(f)[0] == f(s[0]));
        lemma_trim_start_map(s.drop_first(), f);
    }
}

proof fn lemma_token_map(s: Seq<char>, f: spec_fn(char) -> char)
    requires
        preserves_listing(f),
    ensures
        token(s.map_values(f)) == token(s).map_values(f),
    decreases s.len(),
{
    if s.len() > 0 {
        assert(s.map_values(f).drop_first() =~= s.drop_first().map_values(f));
        assert(s.map_values(f)[0] == f(s[0]));
        lemma_token_map(s.drop_first(), f);
        if !is_whitespace(s[0]) {
            assert((seq![s[0]] + token(s.drop_first())).map_values(f) =~= seq![f(s[0])]
                + token(s.drop_first()).map_values(f));
        } else {
            assert(Seq::<char>::empty().map_values(f) =~= Seq::<char>::empty());
        }
    }
}

proof fn lemma_word_map(w: Seq<char>, f: spec_fn(char) -> char)
    requires
        preserves_listing(f),
    ensures
        is_sha256_hex(w.map_values(f)) == is_sha256_hex(w),
        is_sha256_hex(w) ==> hex_lowercase(w.map_values(f)) == hex_lowercase(w),
{
    let m = w.map_values(f);
    if is_sha256_hex(w) {
        assert forall|i: int| 0 <= i < m.len() implies is_hex_digit(#[trigger] m[i]) by {
            assert(m[i] == f(w[i]));
        }
        assert(hex_lowercase(m) =~= hex_lowercase(w)) by {
            assert forall|i: int| 0 <= i < m.len() implies hex_lowercase(m)[i] == hex_lowercase(
                w,
            )[i] by {
                assert(m[i] == f(w[i]));
                assert(is_hex_digit(w[i]));
            }
        }
    }
    if is_sha256_hex(m) {
        assert forall|i: int| 0 <= i < w.len() implies is_hex_digit(#[trigger] w[i]) by {
            assert(m[i] == f(w[i]));
            assert(is_hex_digit(f(w[i])));
        }
    }
}

proof fn lemma_find_digest_map(ls: Seq<Seq<char>>, f: spec_fn(char) -> char)
    requires
        preserves_listing(f),
    ensures
        find_digest(ls.map_values(|l: Seq<char>| l.map_values(f))) == find_digest(ls),
    decreases ls.len(),
{
    let ms = ls.map_values(|l: Seq<char>| l.map_values(f));
    if ls.len() > 0 {
        let l = ls[0];
        assert(ms[0] == l.map_values(f));
        lemma_trim_start_map(l, f);
        lemma_token_map(trim_start(l), f);
        assert(first_word(ms[0]) == first_word(l).map_values(f));
        lemma_word_map(first_word(l), f);
        assert(ms.drop_first() =~= ls.drop_first().map_values(|l: Seq<char>| l.map_values(f)));
        lemma_find_digest_map(ls.drop_first(), f);
    }
}

/// A character mapping that keeps line breaks, whitespace and hexadecimal
/// digits (up to their case) does not change the digest a listing publishes.
pub proof fn lemma_listed_sha256_map(text: Seq<char>, f: spec_fn(char) -> char)
    requires
        preserves_listing(f),
    ensures
        listed_sha256(text.map_values(f)) == listed_sha256(text),
{
    lemma_lines_map(text, f);
    lemma_find_digest_map(lines(text), f);
}

/// Changing the ASCII case of a listing (`str::to_ascii_uppercase` or
/// `str::to_ascii_lowercase`) does not change the digest it publishes.
pub proof fn lemma_listed_sha256_ignores_ascii_case(text: Seq<char>)
    ensures
        listed_sha256(text.map_values(|c: char| ascii_upper_char(c))) == listed_sha256(text),
        listed_sha256(text.map_values(|c: char| ascii_lower_char(c))) == listed_sha256(text),
{
    let up = |c: char| ascii_upper_char(c);
    let low = |c: char| ascii_lower_char(c);
    assert forall|c: char| #![trigger up(c)]
        {
            &&& (up(c) == '\n') == (c == '\n')
            &&& is_whitespace(up(c)) == is_whitespace(c)
            &&& is_hex_digit(up(c)) == is_hex_digit(c)
            &&& is_hex_digit(c) ==> hex_digit_lower(up(c)) == hex_digit_lower(c)
        } by {
        if 'a' <= c && c <= 'z' {
            assert('A' <= up(c) && up(c) <= 'Z');
            assert(('a' <= c && c <= 'f') == ('A' <= up(c) && up(c) <= 'F'));
        }
    }
    assert forall|c: char| #![trigger low(c)]
        {
            &&& (low(c) == '\n') == (c == '\n')
            &&& is_whitespace(low(c)) == is_whitespace(c)
            &&& is_hex_digit(low(c)) == is_hex_digit(c)
            &&& is_hex_digit(c) ==> hex_digit_lower(low(c)) == hex_digit_lower(c)
        } by {
        if 'A' <= c && c <= 'Z' {
            assert('a' <= low(c) && low(c) <= 'z');
            assert(('A' <= c && c <= 'F') == ('a' <= low(c) && low(c) <= 'f'));
        }
    }
    lemma_listed_sha256_map(text, up);
    lemma_listed_sha256_map(text, low);
}

} // verus!
