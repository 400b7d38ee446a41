//! Text primitives on character sequences: search, trimming, splitting,
//! joining and replacing, each specified over `Seq<char>` and implemented
//! over `Vec<char>` windows.
use vstd::prelude::*;

verus! {

// ---------------------------------------------------------------------------
// Characters
// ---------------------------------------------------------------------------

/// Whether `c` has the Unicode `White_Space` property (what `char::is_whitespace` tests).
pub open spec fn spec_is_whitespace(c: char) -> bool {
    ||| ('\u{9}' <= c && c <= '\u{d}')
    ||| c == ' '
    ||| c == '\u{85}'
    ||| c == '\u{a0}'
    ||| c == '\u{1680}'
    ||| ('\u{2000}' <= c && c <= '\u{200a}')
    ||| c == '\u{2028}'
    ||| c == '\u{2029}'
    ||| c == '\u{202f}'
    ||| c == '\u{205f}'
    ||| c == '\u{3000}'
}

pub fn is_whitespace(c: char) -> (b: bool)
    ensures
        b == spec_is_whitespace(c),
{
    ('\u{9}' <= c && c <= '\u{d}') || c == ' ' || c == '\u{85}' || c == '\u{a0}' || c == '\u{1680}'
        || ('\u{2000}' <= c && c <= '\u{200a}') || c == '\u{2028}' || c == '\u{2029}' || c
        == '\u{202f}' || c == '\u{205f}' || c == '\u{3000}'
}

/// Whether some character of `s` is whitespace.
pub open spec fn has_whitespace(s: Seq<char>) -> bool {
    exists|i: int| 0 <= i < s.len() && spec_is_whitespace(#[trigger] s[i])
}

/// The characters that a trim removes from the ends of a text.
#[derive(Clone, Copy)]
pub enum Strip {
    Whitespace,
    Char(char),
}

impl Strip {
    pub open spec fn has(self, c: char) -> bool {
        match self {
            Strip::Whitespace => spec_is_whitespace(c),
            Strip::Char(d) => c == d,
        }
    }

    pub fn holds(&self, c: char) -> (b: bool)
        ensures
            b == self.has(c),
    {
        match self {
            Strip::Whitespace => is_whitespace(c),
            Strip::Char(d) => c == *d,
        }
    }
}

// ---------------------------------------------------------------------------
// Specifications
// ---------------------------------------------------------------------------

/// `s` with every leading character of `set` removed.
pub open spec fn trim_start_by(s: Seq<char>, set: Strip) -> Seq<char>
    decreases s.len(),
{
    if s.len() > 0 && set.has(s[0]) {
        trim_start_by(s.drop_first(), set)
    } else {
        s
    }
}

/// `s` with every trailing character of `set` removed.
pub open spec fn trim_end_by(s: Seq<char>, set: Strip) -> Seq<char>
    decreases s.len(),
{
    if s.len() > 0 && set.has(s.last()) {
        trim_end_by(s.drop_last(), set)
    } else {
        s
    }
}

/// `s` with the characters of `set` removed from both ends.
pub open spec fn trim_by(s: Seq<char>, set: Strip) -> Seq<char> {
    trim_end_by(trim_start_by(s, set), set)
}

/// `s` with whitespace removed from both ends (`str::trim`).
pub open spec fn trim(s: Seq<char>) -> Seq<char> {
    trim_by(s, Strip::Whitespace)
}

/// Whether `p` occurs in `s` at position `i`.
pub open spec fn matches_at(s: Seq<char>, p: Seq<char>, i: int) -> bool {
    0 <= i && i + p.len() <= s.len() && s.subrange(i, i + p.len()) == p
}

/// The first position at or after `i` where `p` occurs in `s`.
pub open spec fn find_from(s: Seq<char>, p: Seq<char>, i: int) -> Option<int>
    decreases s.len() + 1 - i,
{
    if i < 0 || i + p.len() > s.len() {
        None
    } else if matches_at(s, p, i) {
        Some(i)
    } else {
        find_from(s, p, i + 1)
    }
}

/// The first position where `p` occurs in `s` (`str::find`).
pub open spec fn find(s: Seq<char>, p: Seq<char>) -> Option<int> {
    find_from(s, p, 0)
}

/// Whether `p` occurs in `s` (`str::contains`).
pub open spec fn contains(s: Seq<char>, p: Seq<char>) -> bool {
    find(s, p) is Some
}

/// Whether `s` begins with `p` (`str::starts_with`).
pub open spec fn starts_with(s: Seq<char>, p: Seq<char>) -> bool {
    p.len() <= s.len() && s.take(p.len() as int) == p
}

/// The last position, below `n`, of the character `c` in `s`.
pub open spec fn rfind_char_below(s: Seq<char>, c: char, n: int) -> Option<int>
    decreases n,
{
    if n <= 0 {
        None
    } else if s[n - 1] == c {
        Some(n - 1)
    } else {
        rfind_char_below(s, c, n - 1)
    }
}

/// The last position of the character `c` in `s` (`str::rfind`).
pub open spec fn rfind_char(s: Seq<char>, c: char) -> Option<int> {
    rfind_char_below(s, c, s.len() as int)
}

/// `s` with every occurrence of the non-empty `p`, taken from left to right
/// without overlap, replaced by `r` (`str::replace`).
pub open spec fn replace_all(s: Seq<char>, p: Seq<char>, r: Seq<char>) -> Seq<char>
    decreases s.len(),
{
    if p.len() == 0 {
        s
    } else {
        match find(s, p) {
            Some(i) => {
                proof {
                    lemma_find(s, p);
                }
                s.take(i) + r + replace_all(s.skip(i + p.len()), p, r)
            },
            None => s,
        }
    }
}

/// The pieces of `s` between the occurrences of `c` (`str::split` on a character).
pub open spec fn split_char(s: Seq<char>, c: char) -> Seq<Seq<char>>
    decreases s.len(),
{
    match find(s, seq![c]) {
        Some(i) => {
            proof {
                lemma_find(s, seq![c]);
            }
            seq![s.take(i)] + split_char(s.skip(i + 1), c)
        },
        None => seq![s],
    }
}

/// `l` without one trailing carriage return.
pub open spec fn strip_cr(l: Seq<char>) -> Seq<char> {
    if l.len() > 0 && l.last() == '\r' {
        l.drop_last()
    } else {
        l
    }
}

/// The lines of `s` (`str::lines`): split at `\n`, a `\r` before it dropped,
/// and no empty line after a final `\n`.
pub open spec fn lines(s: Seq<char>) -> Seq<Seq<char>>
    decreases s.len(),
{
    if s.len() == 0 {
        seq![]
    } else {
        match find(s, seq!['\n']) {
            Some(i) => {
                proof {
                    lemma_find(s, seq!['\n']);
                }
                seq![strip_cr(s.take(i))] + lines(s.skip(i + 1))
            },
            None => seq![s],
        }
    }
}

/// The parts joined with `sep` between each two (`[..].join(sep)`).
pub open spec fn join(parts: Seq<Seq<char>>, sep: Seq<char>) -> Seq<char>
    decreases parts.len(),
{
    if parts.len() == 0 {
        seq![]
    } else if parts.len() == 1 {
        parts[0]
    } else {
        join(parts.drop_last(), sep) + sep + parts.last()
    }
}

/// The first `n` characters of `s`, or all of them (`chars().take(n)`).
pub open spec fn take_chars(s: Seq<char>, n: nat) -> Seq<char> {
    if s.len() <= n {
        s
    } else {
        s.take(n as int)
    }
}

/// The views of a sequence of strings.
pub open spec fn views(v: Seq<String>) -> Seq<Seq<char>> {
    v.map_values(|s: String| s@)
}

// ---------------------------------------------------------------------------
// Lemmas
// ---------------------------------------------------------------------------

/// What a found position means: a match, and no match before it.
pub proof fn lemma_find_from(s: Seq<char>, p: Seq<char>, i: int)
    requires
        0 <= i,
    ensures
        find_from(s, p, i) matches Some(k) ==> {
            &&& i <= k
            &&& matches_at(s, p, k)
            &&& forall|j: int| i <= j < k ==> !matches_at(s, p, j)
        },
        find_from(s, p, i) is None ==> forall|j: int| i <= j ==> !matches_at(s, p, j),
    decreases s.len() + 1 - i,
{
    if i + p.len() > s.len() {
    } else if matches_at(s, p, i) {
    } else {
        lemma_find_from(s, p, i + 1);
    }
}

pub proof fn lemma_find(s: Seq<char>, p: Seq<char>)
    ensures
        find(s, p) matches Some(k) ==> {
            &&& 0 <= k
            &&& k + p.len() <= s.len()
            &&& s.subrange(k, k + p.len()) == p
            &&& forall|j: int| 0 <= j < k ==> !matches_at(s, p, j)
        },
        find(s, p) is None ==> forall|j: int| 0 <= j ==> !matches_at(s, p, j),
{
    lemma_find_from(s, p, 0);
}


// ---------------------------------------------------------------------------
// Building text
// ---------------------------------------------------------------------------

/// Appends one character to a `String` (`String::push`).
#[verifier::external_body]
fn push_char(s: &mut String, c: char)
    ensures
        final(s)@ == old(s)@.push(c),
{
    s.push(c);
}

/// The characters of `s`, in order.
pub fn chars_of(s: &str) -> (r: Vec<char>)
    ensures
        r@ == s@,
{
    let mut r: Vec<char> = Vec::new();
    for c in it: s.chars()
        invariant
            it.seq() == s@,
            r@ == it.seq().take(it.index() as int),
    {
        r.push(c);
    }
    r
}

/// A `String` holding the characters `v[lo..hi]`.
pub fn string_of(v: &Vec<char>, lo: usize, hi: usize) -> (r: String)
    requires
        lo <= hi <= v.len(),
    ensures
        r@ == v@.subrange(lo as int, hi as int),
{
    let mut r = String::new();
    let mut i = lo;
    while i < hi
        invariant
            lo <= i <= hi,
            hi <= v.len(),
            r@ == v@.subrange(lo as int, i as int),
        decreases hi - i,
    {
        push_char(&mut r, v[i]);
        assert(v@.subrange(lo as int, i + 1) =~= v@.subrange(lo as int, i as int).push(v@[i as int]));
        i += 1;
    }
    r
}

/// A `String` holding all of `v`.
pub fn string_from(v: &Vec<char>) -> (r: String)
    ensures
        r@ == v@,
{
    let r = string_of(v, 0, v.len());
    assert(v@.subrange(0, v@.len() as int) =~= v@);
    r
}

/// Appends `v[lo..hi]` to `out`.
pub fn push_range(out: &mut Vec<char>, v: &Vec<char>, lo: usize, hi: usize)
    requires
        lo <= hi <= v.len(),
    ensures
        final(out)@ == old(out)@ + v@.subrange(lo as int, hi as int),
{
    let mut i = lo;
    while i < hi
        invariant
            lo <= i <= hi,
            hi <= v.len(),
            out@ == old(out)@ + v@.subrange(lo as int, i as int),
        decreases hi - i,
    {
        out.push(v[i]);
        assert(v@.subrange(lo as int, i + 1) =~= v@.subrange(lo as int, i as int).push(v@[i as int]));
        i += 1;
    }
}

/// Appends all of `v` to `out`.
pub fn push_all(out: &mut Vec<char>, v: &Vec<char>)
    ensures
        final(out)@ == old(out)@ + v@,
{
    push_range(out, v, 0, v.len());
    assert(v@.subrange(0, v@.len() as int) =~= v@);
}

/// Appends the characters of `s` to `out`.
pub fn push_str(out: &mut Vec<char>, s: &str)
    ensures
        final(out)@ == old(out)@ + s@,
{
    let v = chars_of(s);
    push_all(out, &v);
}

/// Appends the parts, with `sep` between each two, to `out`.
pub fn push_joined(out: &mut Vec<char>, parts: &[String], sep: &str)
    ensures
        final(out)@ == old(out)@ + join(views(parts@), sep@),
{
    let ghost ps = views(parts@);
    let ghost start = out@;
    let n = parts.len();
    let mut i: usize = 0;
    while i < n
        invariant
            0 <= i <= n,
            n == parts@.len(),
            ps == views(parts@),
            out@ == start + join(ps.take(i as int), sep@),
        decreases n - i,
    {
        if i > 0 {
            push_str(out, sep);
        }
        push_str(out, parts[i].as_str());
        assert(ps.take(i + 1).drop_last() =~= ps.take(i as int));
        assert(ps.take(i + 1).last() == parts@[i as int]@);
        if i == 0 {
            assert(join(ps.take(1), sep@) == ps.take(1)[0]);
        }
        i += 1;
    }
    assert(ps.take(n as int) =~= ps);
}

// ---------------------------------------------------------------------------
// Searching and trimming windows of a character vector
// ---------------------------------------------------------------------------

/// The start of the window `lo..hi` of `v` once leading characters of `set` are skipped.
pub fn trim_start_at(v: &Vec<char>, lo: usize, hi: usize, set: Strip) -> (r: usize)
    requires
        lo <= hi <= v.len(),
    ensures
        lo <= r <= hi,
        v@.subrange(r as int, hi as int) == trim_start_by(v@.subrange(lo as int, hi as int), set),
{
    let mut i = lo;
    while i < hi && set.holds(v[i])
        invariant
            lo <= i <= hi,
            hi <= v.len(),
            trim_start_by(v@.subrange(lo as int, hi as int), set) == trim_start_by(
                v@.subrange(i as int, hi as int),
                set,
            ),
        decreases hi - i,
    {
        assert(v@.subrange(i as int, hi as int).drop_first() =~= v@.subrange(i + 1, hi as int));
        i += 1;
    }
    i
}

/// The end of the window `lo..hi` of `v` once trailing characters of `set` are dropped.
pub fn trim_end_at(v: &Vec<char>, lo: usize, hi: usize, set: Strip) -> (r: usize)
    requires
        lo <= hi <= v.len(),
    ensures
        lo <= r <= hi,
        v@.subrange(lo as int, r as int) == trim_end_by(v@.subrange(lo as int, hi as int), set),
{
    let mut j = hi;
    while j > lo && set.holds(v[j - 1])
        invariant
            lo <= j <= hi,
            hi <= v.len(),
            trim_end_by(v@.subrange(lo as int, hi as int), set) == trim_end_by(
                v@.subrange(lo as int, j as int),
                set,
            ),
        decreases j - lo,
    {
        assert(v@.subrange(lo as int, j as int).drop_last() =~= v@.subrange(lo as int, j - 1));
        j -= 1;
    }
    j
}

/// The window `lo..hi` of `v` with the characters of `set` removed from both ends.
pub fn trim_at(v: &Vec<char>, lo: usize, hi: usize, set: Strip) -> (r: (usize, usize))
    requires
        lo <= hi <= v.len(),
    ensures
        lo <= r.0 <= r.1 <= hi,
        v@.subrange(r.0 as int, r.1 as int) == trim_by(v@.subrange(lo as int, hi as int), set),
{
    let a = trim_start_at(v, lo, hi, set);
    let b = trim_end_at(v, a, hi, set);
    (a, b)
}

/// Whether `p` occurs in `v` at position `at`.
pub fn matches_window(v: &Vec<char>, at: usize, p: &Vec<char>) -> (b: bool)
    requires
        at <= v.len(),
    ensures
        b == (p.len() <= v.len() - at && v@.subrange(at as int, at + p.len()) == p@),
{
    if p.len() > v.len() - at {
        return false;
    }
    let mut j: usize = 0;
    while j < p.len()
        invariant
            0 <= j <= p.len(),
            p.len() <= v.len() - at,
            forall|k: int| 0 <= k < j ==> v@[at + k] == p@[k],
        decreases p.len() - j,
    {
        if v[at + j] != p[j] {
            assert(v@.subrange(at as int, at + p.len())[j as int] != p@[j as int]);
            return false;
        }
        j += 1;
    }
    assert(v@.subrange(at as int, at + p.len()) =~= p@);
    true
}

/// The first position of `p` in the window `lo..hi` of `v`, counted from `lo`.
pub fn find_at(v: &Vec<char>, lo: usize, hi: usize, p: &Vec<char>) -> (r: Option<usize>)
    requires
        lo <= hi <= v.len(),
    ensures
        match r {
            Some(k) => find(v@.subrange(lo as int, hi as int), p@) == Some(k as int),
            None => find(v@.subrange(lo as int, hi as int), p@) is None,
        },
{
    let ghost w = v@.subrange(lo as int, hi as int);
    let mut i = lo;
    while p.len() <= hi - i
        invariant
            lo <= i <= hi,
            hi <= v.len(),
            w == v@.subrange(lo as int, hi as int),
            find(w, p@) == find_from(w, p@, i - lo),
        decreases hi - i,
    {
        let m = matches_window(v, i, p);
        if p.len() == 0 {
            assert(v@.subrange(i as int, i as int) =~= p@);
        }
        assert(w.subrange(i - lo, i - lo + p.len()) =~= v@.subrange(i as int, i + p.len()));
        if m {
            return Some(i - lo);
        }
        i += 1;
    }
    None
}

/// The first position of the character `c` in the window `lo..hi` of `v`, counted from `lo`.
pub fn find_char_at(v: &Vec<char>, lo: usize, hi: usize, c: char) -> (r: Option<usize>)
    requires
        lo <= hi <= v.len(),
    ensures
        match r {
            Some(k) => find(v@.subrange(lo as int, hi as int), seq![c]) == Some(k as int),
            None => find(v@.subrange(lo as int, hi as int), seq![c]) is None,
        },
{
    let mut p: Vec<char> = Vec::new();
    p.push(c);
    assert(p@ =~= seq![c]);
    find_at(v, lo, hi, &p)
}

/// The last position of the character `c` in the window `lo..hi` of `v`, counted from `lo`.
pub fn rfind_char_at(v: &Vec<char>, lo: usize, hi: usize, c: char) -> (r: Option<usize>)
    requires
        lo <= hi <= v.len(),
    ensures
        match r {
            Some(k) => rfind_char(v@.subrange(lo as int, hi as int), c) == Some(k as int),
            None => rfind_char(v@.subrange(lo as int, hi as int), c) is None,
        },
{
    let ghost w = v@.subrange(lo as int, hi as int);
    let mut n = hi;
    while n > lo
        invariant
            lo <= n <= hi,
            hi <= v.len(),
            w == v@.subrange(lo as int, hi as int),
            rfind_char(w, c) == rfind_char_below(w, c, n - lo),
        decreases n - lo,
    {
        if v[n - 1] == c {
            return Some(n - 1 - lo);
        }
        n -= 1;
    }
    None
}

/// Whether the window `lo..hi` of `v` begins with `p`.
pub fn starts_with_at(v: &Vec<char>, lo: usize, hi: usize, p: &Vec<char>) -> (b: bool)
    requires
        lo <= hi <= v.len(),
    ensures
        b == starts_with(v@.subrange(lo as int, hi as int), p@),
{
    if p.len() > hi - lo {
        return false;
    }
    let b = matches_window(v, lo, p);
    assert(v@.subrange(lo as int, hi as int).take(p.len() as int) =~= v@.subrange(
        lo as int,
        lo + p.len(),
    ));
    b
}

/// Whether some character of the window `lo..hi` of `v` is whitespace.
pub fn has_whitespace_at(v: &Vec<char>, lo: usize, hi: usize) -> (b: bool)
    requires
        lo <= hi <= v.len(),
    ensures
        b == has_whitespace(v@.subrange(lo as int, hi as int)),
{
    let ghost w = v@.subrange(lo as int, hi as int);
    let mut i = lo;
    while i < hi
        invariant
            lo <= i <= hi,
            hi <= v.len(),
            w == v@.subrange(lo as int, hi as int),
            forall|k: int| 0 <= k < i - lo ==> !spec_is_whitespace(#[trigger] w[k]),
        decreases hi - i,
    {
        if is_whitespace(v[i]) {
            assert(spec_is_whitespace(w[i - lo]));
            return true;
        }
        i += 1;
    }
    false
}

/// `v` with every occurrence of the non-empty `p` replaced by `r`.
pub fn replace_chars(v: &Vec<char>, p: &Vec<char>, r: &Vec<char>) -> (out: Vec<char>)
    requires
        p.len() > 0,
    ensures
        out@ == replace_all(v@, p@, r@),
{
    let mut out: Vec<char> = Vec::new();
    let mut pos: usize = 0;
    let n = v.len();
    assert(v@.skip(0) =~= v@);
    loop
        invariant
            0 <= pos <= n,
            n == v.len(),
            p.len() > 0,
            out@ + replace_all(v@.skip(pos as int), p@, r@) == replace_all(v@, p@, r@),
        decreases n - pos,
    {
        let ghost rest = v@.skip(pos as int);
        assert(rest =~= v@.subrange(pos as int, n as int));
        match find_at(v, pos, n, p) {
            Some(k) => {
                proof {
                    lemma_find(rest, p@);
                }
                push_range(&mut out, v, pos, pos + k);
                push_all(&mut out, r);
                assert(rest.take(k as int) =~= v@.subrange(pos as int, pos + k));
                assert(rest.skip(k + p.len()) =~= v@.skip(pos + k + p.len()));
                pos = pos + k + p.len();
            },
            None => {
                push_range(&mut out, v, pos, n);
                return out;
            },
        }
    }
}


/// Whether `v` holds exactly the characters of `s`.
pub fn equals_str(v: &Vec<char>, s: &str) -> (b: bool)
    ensures
        b == (v@ == s@),
{
    let w = chars_of(s);
    if v.len() != w.len() {
        return false;
    }
    let b = matches_window(v, 0, &w);
    assert(v@.subrange(0, w.len() as int) =~= v@);
    b
}


/// Whether `p` occurs in `v`.
pub fn contains_str(v: &Vec<char>, p: &str) -> (b: bool)
    ensures
        b == contains(v@, p@),
{
    let w = chars_of(p);
    let r = find_at(v, 0, v.len(), &w);
    assert(v@.subrange(0, v@.len() as int) =~= v@);
    r.is_some()
}

/// Whether `v` begins with `p`.
pub fn starts_with_str(v: &Vec<char>, p: &str) -> (b: bool)
    ensures
        b == starts_with(v@, p@),
{
    let w = chars_of(p);
    let b = starts_with_at(v, 0, v.len(), &w);
    assert(v@.subrange(0, v@.len() as int) =~= v@);
    b
}


/// A text made of three parts contains its middle part.
pub proof fn lemma_contains_middle(a: Seq<char>, m: Seq<char>, b: Seq<char>)
    ensures
        contains(a + m + b, m),
{
    let s = a + m + b;
    assert(s.subrange(a.len() as int, (a.len() + m.len()) as int) =~= m);
    assert(matches_at(s, m, a.len() as int));
    lemma_find(s, m);
}

} // verus!
