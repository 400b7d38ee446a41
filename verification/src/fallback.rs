//! Salvaging the content, the suggestions and the repository request from a
//! model answer that is not valid JSON.
use vstd::prelude::*;
use crate::model::opt_view;
use crate::text::{
    Strip, chars_of, contains, equals_str, find, find_at, find_char_at, push_range, replace_all,
    replace_chars, split_char, starts_with, string_from, string_of, trim, trim_at, trim_by,
    trim_end_at, trim_end_by, trim_start_at, trim_start_by, views,
};

verus! {

pub const CONTENT_KEY: &'static str = "\"content\"";

pub const SUGGESTIONS_KEY: &'static str = "\"suggestions\"";

pub const RAG_KEY: &'static str = "\"fetch_repo_rag\"";

/// `s` with the escapes `\n` and `\"` written out.
pub open spec fn unescape(s: Seq<char>) -> Seq<char> {
    replace_all(replace_all(s, "\\n"@, "\n"@), "\\\""@, "\""@)
}

/// The value text after `"content"`: trimmed, without leading quotes, and
/// without trailing commas, then newlines, then quotes.
pub open spec fn strip_value(s: Seq<char>) -> Seq<char> {
    trim_end_by(
        trim_end_by(
            trim_end_by(trim_start_by(trim(s), Strip::Char('"')), Strip::Char(',')),
            Strip::Char('\n'),
        ),
        Strip::Char('"'),
    )
}

/// Where the content part of `s` ends: at `"suggestions"`, or at the end.
pub open spec fn content_end(s: Seq<char>) -> int {
    match find(s, SUGGESTIONS_KEY@) {
        Some(i) => i,
        None => s.len() as int,
    }
}

/// The salvaged content of `s`.
pub open spec fn fallback_content(s: Seq<char>) -> Seq<char> {
    let part = s.take(content_end(s));
    match find(part, CONTENT_KEY@) {
        Some(cs) => match find(part.skip(cs), seq![':']) {
            Some(ci) => unescape(strip_value(part.skip(cs + ci + 1))),
            None => s,
        },
        None => part,
    }
}

/// One suggestion as written between the commas, cleaned.
pub open spec fn clean_suggestion(piece: Seq<char>) -> Seq<char> {
    trim(trim_by(trim(piece), Strip::Char('"')))
}

/// The non-empty cleaned pieces, in order.
pub open spec fn kept_suggestions(pieces: Seq<Seq<char>>) -> Seq<Seq<char>>
    decreases pieces.len(),
{
    if pieces.len() == 0 {
        Seq::empty()
    } else {
        let c = clean_suggestion(pieces[0]);
        let rest = kept_suggestions(pieces.drop_first());
        if c.len() > 0 {
            seq![c] + rest
        } else {
            rest
        }
    }
}

/// The salvaged suggestions of `s`: the comma-separated items of the first
/// bracketed list after `"suggestions"`.
pub open spec fn fallback_suggestions(s: Seq<char>) -> Seq<Seq<char>> {
    match find(s, SUGGESTIONS_KEY@) {
        Some(ss) => match find(s.skip(ss), seq![']']) {
            Some(se) => match find(s.subrange(ss, ss + se), seq!['[']) {
                Some(ob) => kept_suggestions(split_char(s.subrange(ss + ob + 1, ss + se), ',')),
                None => Seq::empty(),
            },
            None => Seq::empty(),
        },
        None => Seq::empty(),
    }
}

/// The salvaged repository request of `s`: the quoted text after
/// `"fetch_repo_rag":`, unless it is empty or `null`.
pub open spec fn fallback_rag(s: Seq<char>) -> Option<Seq<char>> {
    match find(s, RAG_KEY@) {
        Some(rs) => {
            let part = s.skip(rs);
            match find(part, seq![':']) {
                Some(ci) => {
                    let after = trim(part.skip(ci + 1));
                    if starts_with(after, seq!['"']) {
                        match find(after.skip(1), seq!['"']) {
                            Some(eq) => {
                                let rag = after.subrange(1, 1 + eq);
                                if rag.len() > 0 && rag != "null"@ {
                                    Some(rag)
                                } else {
                                    None
                                }
                            },
                            None => None,
                        }
                    } else {
                        None
                    }
                },
                None => None,
            }
        },
        None => None,
    }
}

/// A new vector holding `v[lo..hi]`.
fn window(v: &Vec<char>, lo: usize, hi: usize) -> (r: Vec<char>)
    requires
        lo <= hi <= v.len(),
    ensures
        r@ == v@.subrange(lo as int, hi as int),
{
    let mut r: Vec<char> = Vec::new();
    push_range(&mut r, v, lo, hi);
    r
}

fn salvage_content(v: &Vec<char>) -> (r: String)
    ensures
        r@ == fallback_content(v@),
{
    let n = v.len();
    let sugg_key = chars_of(SUGGESTIONS_KEY);
    let content_key = chars_of(CONTENT_KEY);
    assert(v@.subrange(0, n as int) =~= v@);
    let end = match find_at(v, 0, n, &sugg_key) {
        Some(i) => i,
        None => n,
    };
    proof {
        crate::text::lemma_find(v@, SUGGESTIONS_KEY@);
    }
    let ghost part = v@.take(end as int);
    assert(part =~= v@.subrange(0, end as int));
    match find_at(v, 0, end, &content_key) {
        Some(cs) => {
            proof {
                crate::text::lemma_find(part, CONTENT_KEY@);
            }
            assert(part.skip(cs as int) =~= v@.subrange(cs as int, end as int));
            match find_char_at(v, cs, end, ':') {
                Some(ci) => {
                    proof {
                        crate::text::lemma_find(part.skip(cs as int), seq![':']);
                    }
                    let start = cs + ci + 1;
                    assert(part.skip(cs + ci + 1) =~= v@.subrange(start as int, end as int));
                    let (a, b) = trim_at(v, start, end, Strip::Whitespace);
                    let a2 = trim_start_at(v, a, b, Strip::Char('"'));
                    let b2 = trim_end_at(v, a2, b, Strip::Char(','));
                    let b3 = trim_end_at(v, a2, b2, Strip::Char('\n'));
                    let b4 = trim_end_at(v, a2, b3, Strip::Char('"'));
                    let value = window(v, a2, b4);
                    let nl_escape = chars_of("\\n");
                    let nl = chars_of("\n");
                    let quote_escape = chars_of("\\\"");
                    let quote = chars_of("\"");
                    proof {
                        reveal_strlit("\\n");
                        reveal_strlit("\\\"");
                    }
                    let once = replace_chars(&value, &nl_escape, &nl);
                    let twice = replace_chars(&once, &quote_escape, &quote);
                    string_from(&twice)
                },
                None => string_of(v, 0, n),
            }
        },
        None => string_of(v, 0, end),
    }
}

/// The cleaned piece `v[lo..hi]`, as a window.
fn clean_piece(v: &Vec<char>, lo: usize, hi: usize) -> (r: (usize, usize))
    requires
        lo <= hi <= v.len(),
    ensures
        lo <= r.0 <= r.1 <= hi,
        v@.subrange(r.0 as int, r.1 as int) == clean_suggestion(v@.subrange(lo as int, hi as int)),
{
    let (a, b) = trim_at(v, lo, hi, Strip::Whitespace);
    let (a2, b2) = trim_at(v, a, b, Strip::Char('"'));
    trim_at(v, a2, b2, Strip::Whitespace)
}

/// The kept suggestions of the comma-separated pieces of `v[lo..hi]`.
fn split_suggestions(v: &Vec<char>, lo: usize, hi: usize) -> (r: Vec<String>)
    requires
        lo <= hi <= v.len(),
    ensures
        views(r@) == kept_suggestions(split_char(v@.subrange(lo as int, hi as int), ',')),
{
    let ghost whole = kept_suggestions(split_char(v@.subrange(lo as int, hi as int), ','));
    let mut out: Vec<String> = Vec::new();
    let mut pos = lo;
    assert(views(out@) =~= Seq::<Seq<char>>::empty());
    loop
        invariant_except_break
            lo <= pos <= hi,
            hi <= v.len(),
            whole == kept_suggestions(split_char(v@.subrange(lo as int, hi as int), ',')),
            whole == views(out@) + kept_suggestions(
                split_char(v@.subrange(pos as int, hi as int), ','),
            ),
        ensures
            views(out@) == whole,
        decreases hi - pos,
    {
        let ghost w = v@.subrange(pos as int, hi as int);
        let ghost before = out@;
        match find_char_at(v, pos, hi, ',') {
            Some(k) => {
                proof {
                    crate::text::lemma_find(w, seq![',']);
                }
                let ghost pieces = split_char(w, ',');
                assert(pieces == seq![w.take(k as int)] + split_char(w.skip(k + 1), ','));
                assert(pieces.drop_first() =~= split_char(w.skip(k + 1), ','));
                assert(pieces[0] == w.take(k as int));
                assert(w.take(k as int) =~= v@.subrange(pos as int, pos + k));
                assert(w.skip(k + 1) =~= v@.subrange(pos + k + 1, hi as int));
                let (a, b) = clean_piece(v, pos, pos + k);
                if a < b {
                    let s = string_of(v, a, b);
                    out.push(s);
                    assert(views(out@) =~= views(before).push(s@));
                    assert(views(out@) + kept_suggestions(split_char(w.skip(k + 1), ','))
                        =~= views(before) + kept_suggestions(pieces));
                } else {
                    assert(kept_suggestions(pieces) == kept_suggestions(pieces.drop_first()));
                }
                pos = pos + k + 1;
            },
            None => {
                let ghost pieces = split_char(w, ',');
                assert(pieces == seq![w]);
                assert(pieces.drop_first() =~= Seq::<Seq<char>>::empty());
                assert(pieces[0] == w);
                assert(kept_suggestions(pieces.drop_first()) == Seq::<Seq<char>>::empty());
                let (a, b) = clean_piece(v, pos, hi);
                if a < b {
                    let s = string_of(v, a, b);
                    out.push(s);
                    assert(views(out@) =~= views(before).push(s@));
                    assert(views(out@) =~= views(before) + kept_suggestions(pieces));
                } else {
                    assert(views(out@) =~= views(before) + kept_suggestions(pieces));
                }
                break;
            },
        }
    }
    out
}

fn salvage_suggestions(v: &Vec<char>) -> (r: Vec<String>)
    ensures
        views(r@) == fallback_suggestions(v@),
{
    let n = v.len();
    let sugg_key = chars_of(SUGGESTIONS_KEY);
    assert(v@.subrange(0, n as int) =~= v@);
    match find_at(v, 0, n, &sugg_key) {
        Some(ss) => {
            proof {
                crate::text::lemma_find(v@, SUGGESTIONS_KEY@);
            }
            assert(v@.skip(ss as int) =~= v@.subrange(ss as int, n as int));
            match find_char_at(v, ss, n, ']') {
                Some(se) => {
                    proof {
                        crate::text::lemma_find(v@.skip(ss as int), seq![']']);
                    }
                    match find_char_at(v, ss, ss + se, '[') {
                        Some(ob) => {
                            proof {
                                crate::text::lemma_find(v@.subrange(ss as int, ss + se), seq!['[']);
                            }
                            split_suggestions(v, ss + ob + 1, ss + se)
                        },
                        None => {
                            let r: Vec<String> = Vec::new();
                            assert(views(r@) =~= Seq::<Seq<char>>::empty());
                            r
                        },
                    }
                },
                None => {
                    let r: Vec<String> = Vec::new();
                    assert(views(r@) =~= Seq::<Seq<char>>::empty());
                    r
                },
            }
        },
        None => {
            let r: Vec<String> = Vec::new();
            assert(views(r@) =~= Seq::<Seq<char>>::empty());
            r
        },
    }
}

fn salvage_rag(v: &Vec<char>) -> (r: Option<String>)
    ensures
        opt_view(r) == fallback_rag(v@),
{
    let n = v.len();
    let rag_key = chars_of(RAG_KEY);
    assert(v@.subrange(0, n as int) =~= v@);
    match find_at(v, 0, n, &rag_key) {
        Some(rs) => {
            proof {
                crate::text::lemma_find(v@, RAG_KEY@);
            }
            let ghost part = v@.skip(rs as int);
            assert(part =~= v@.subrange(rs as int, n as int));
            match find_char_at(v, rs, n, ':') {
                Some(ci) => {
                    proof {
                        crate::text::lemma_find(part, seq![':']);
                    }
                    assert(part.skip(ci + 1) =~= v@.subrange(rs + ci + 1, n as int));
                    let (a, b) = trim_at(v, rs + ci + 1, n, Strip::Whitespace);
                    let ghost after = v@.subrange(a as int, b as int);
                    if a < b && v[a] == '"' {
                        assert(after.take(1) =~= seq!['"']);
                        assert(after.skip(1) =~= v@.subrange(a + 1, b as int));
                        match find_char_at(v, a + 1, b, '"') {
                            Some(eq) => {
                                proof {
                                    crate::text::lemma_find(after.skip(1), seq!['"']);
                                }
                                assert(after.subrange(1, 1 + eq) =~= v@.subrange(
                                    a + 1,
                                    a + 1 + eq,
                                ));
                                let rag = window(v, a + 1, a + 1 + eq);
                                if rag.len() > 0 && !equals_str(&rag, "null") {
                                    Some(string_from(&rag))
                                } else {
                                    None
                                }
                            },
                            None => None,
                        }
                    } else {
                        if a < b {
                            assert(after.take(1)[0] != '"');
                        }
                        None
                    }
                },
                None => None,
            }
        },
        None => None,
    }
}

/// Salvages what it can from a model answer that does not parse as the
/// expected JSON: the content (or the raw text when there is no `"content"`
/// key), the suggestion list, and the repository to look up, if any.
pub fn fallback_parse_json(cleaned_json: &str) -> (r: (String, Vec<String>, Option<String>))
    ensures
        r.0@ == fallback_content(cleaned_json@),
        views(r.1@) == fallback_suggestions(cleaned_json@),
        opt_view(r.2) == fallback_rag(cleaned_json@),
{
    let v = chars_of(cleaned_json);
    (salvage_content(&v), salvage_suggestions(&v), salvage_rag(&v))
}

/// A salvaged repository request is never empty and never `null`.
pub proof fn salvaged_rag_names_a_repository(s: Seq<char>)
    ensures
        fallback_rag(s) matches Some(r) ==> r.len() > 0 && r != "null"@,
{
}

/// Every salvaged suggestion is non-empty.
pub proof fn salvaged_suggestions_are_non_empty(s: Seq<char>)
    ensures
        forall|i: int|
            0 <= i < fallback_suggestions(s).len() ==> #[trigger] fallback_suggestions(s)[i].len() > 0,
{
    match find(s, SUGGESTIONS_KEY@) {
        Some(ss) => match find(s.skip(ss), seq![']']) {
            Some(se) => match find(s.subrange(ss, ss + se), seq!['[']) {
                Some(ob) => lemma_kept_non_empty(split_char(s.subrange(ss + ob + 1, ss + se), ',')),
                None => {},
            },
            None => {},
        },
        None => {},
    }
}

proof fn lemma_kept_non_empty(pieces: Seq<Seq<char>>)
    ensures
        forall|i: int|
            0 <= i < kept_suggestions(pieces).len() ==> #[trigger] kept_suggestions(pieces)[i].len()
                > 0,
    decreases pieces.len(),
{
    if pieces.len() > 0 {
        lemma_kept_non_empty(pieces.drop_first());
        let c = clean_suggestion(pieces[0]);
        let rest = kept_suggestions(pieces.drop_first());
        if c.len() > 0 {
            assert forall|i: int| 0 <= i < (seq![c] + rest).len() implies #[trigger] (seq![c]
                + rest)[i].len() > 0 by {
                if i > 0 {
                    assert((seq![c] + rest)[i] == rest[i - 1]);
                }
            }
        }
    }
}


// ---------------------------------------------------------------------------
// Escapes in the salvaged content
// ---------------------------------------------------------------------------

/// Whether `x` nowhere has `a` directly followed by `b`.
pub open spec fn no_pair(x: Seq<char>, a: char, b: char) -> bool {
    forall|i: int| #![trigger x[i]] 0 <= i && i + 1 < x.len() ==> !(x[i] == a && x[i + 1] == b)
}

proof fn lemma_pair_contained(x: Seq<char>, a: char, b: char)
    ensures
        !contains(x, seq![a, b]) <==> no_pair(x, a, b),
{
    crate::text::lemma_find(x, seq![a, b]);
    if contains(x, seq![a, b]) {
        let k = find(x, seq![a, b])->0;
        assert(x.subrange(k, k + 2)[0] == x[k]);
        assert(x.subrange(k, k + 2)[1] == x[k + 1]);
    } else {
        assert forall|i: int| #![trigger x[i]] 0 <= i && i + 1 < x.len() implies !(x[i] == a && x[i
            + 1] == b) by {
            if x[i] == a && x[i + 1] == b {
                assert(x.subrange(i, i + 2) =~= seq![a, b]);
                assert(crate::text::matches_at(x, seq![a, b], i));
            }
        }
    }
}

proof fn lemma_pair_subrange(x: Seq<char>, a: char, b: char, lo: int, hi: int)
    requires
        no_pair(x, a, b),
        0 <= lo <= hi <= x.len(),
    ensures
        no_pair(x.subrange(lo, hi), a, b),
{
    let y = x.subrange(lo, hi);
    assert forall|i: int| #![trigger y[i]] 0 <= i && i + 1 < y.len() implies !(y[i] == a && y[i + 1]
        == b) by {
        assert(y[i] == x[lo + i]);
        assert(y[i + 1] == x[lo + i + 1]);
    }
}

proof fn lemma_pair_concat(u: Seq<char>, v: Seq<char>, a: char, b: char)
    requires
        no_pair(u, a, b),
        no_pair(v, a, b),
        !(u.len() > 0 && v.len() > 0 && u.last() == a && v[0] == b),
    ensures
        no_pair(u + v, a, b),
{
    let w = u + v;
    assert forall|i: int| #![trigger w[i]] 0 <= i && i + 1 < w.len() implies !(w[i] == a && w[i + 1]
        == b) by {
        if i + 1 < u.len() {
            assert(w[i] == u[i] && w[i + 1] == u[i + 1]);
        } else if i + 1 == u.len() {
            assert(w[i] == u.last() && w[i + 1] == v[0]);
        } else {
            assert(w[i] == v[i - u.len()] && w[i + 1] == v[i - u.len() + 1]);
        }
    }
}

proof fn lemma_pair_trim_start(x: Seq<char>, set: Strip, a: char, b: char)
    requires
        no_pair(x, a, b),
    ensures
        no_pair(trim_start_by(x, set), a, b),
    decreases x.len(),
{
    if x.len() > 0 && set.has(x[0]) {
        lemma_pair_subrange(x, a, b, 1, x.len() as int);
        assert(x.drop_first() =~= x.subrange(1, x.len() as int));
        lemma_pair_trim_start(x.drop_first(), set, a, b);
    }
}

proof fn lemma_pair_trim_end(x: Seq<char>, set: Strip, a: char, b: char)
    requires
        no_pair(x, a, b),
    ensures
        no_pair(trim_end_by(x, set), a, b),
    decreases x.len(),
{
    if x.len() > 0 && set.has(x.last()) {
        lemma_pair_subrange(x, a, b, 0, x.len() - 1);
        assert(x.drop_last() =~= x.subrange(0, x.len() - 1));
        lemma_pair_trim_end(x.drop_last(), set, a, b);
    }
}

/// Replacing the escape `\c` by a text without backslashes, in a text with
/// no doubled backslash, leaves no `\c` and no doubled backslash, and adds no
/// other backslash pair.
proof fn lemma_replace_escape(x: Seq<char>, c: char, r: Seq<char>, d: char)
    requires
        no_pair(x, '\\', '\\'),
        c != '\\',
        r.len() > 0,
        forall|k: int| 0 <= k < r.len() ==> r[k] != '\\',
    ensures
        no_pair(replace_all(x, seq!['\\', c], r), '\\', '\\'),
        no_pair(replace_all(x, seq!['\\', c], r), '\\', c),
        no_pair(x, '\\', d) ==> no_pair(replace_all(x, seq!['\\', c], r), '\\', d),
    decreases x.len(),
{
    let p = seq!['\\', c];
    crate::text::lemma_find(x, p);
    lemma_pair_contained(x, '\\', c);
    assert forall|e: char| no_pair(r, '\\', e) by {}
    match find(x, p) {
        None => {},
        Some(i) => {
            assert(x.subrange(i, i + 2)[0] == x[i]);
            let a = x.take(i);
            let rest = x.skip(i + 2);
            assert(a =~= x.subrange(0, i));
            assert(rest =~= x.subrange(i + 2, x.len() as int));
            lemma_pair_subrange(x, '\\', '\\', 0, i);
            lemma_pair_subrange(x, '\\', '\\', i + 2, x.len() as int);
            assert forall|j: int| #![trigger a[j]] 0 <= j && j + 1 < a.len() implies !(a[j] == '\\'
                && a[j + 1] == c) by {
                if a[j] == '\\' && a[j + 1] == c {
                    assert(x.subrange(j, j + 2) =~= p);
                    assert(crate::text::matches_at(x, p, j));
                }
            }
            if i > 0 {
                assert(a.last() == x[i - 1]);
            }
            lemma_replace_escape(rest, c, r, d);
            let tail = replace_all(rest, p, r);
            assert(replace_all(x, p, r) == a + r + tail);
            lemma_pair_concat(a, r, '\\', '\\');
            lemma_pair_concat(a + r, tail, '\\', '\\');
            lemma_pair_concat(a, r, '\\', c);
            lemma_pair_concat(a + r, tail, '\\', c);
            assert((a + r).last() == r.last());
            if no_pair(x, '\\', d) {
                lemma_pair_subrange(x, '\\', d, 0, i);
                lemma_pair_subrange(x, '\\', d, i + 2, x.len() as int);
                lemma_pair_concat(a, r, '\\', d);
                lemma_pair_concat(a + r, tail, '\\', d);
            }
        },
    }
}

/// The salvaged content has the value's escapes written out: when the answer
/// has a `"content"` key followed by a colon and no doubled backslash, the
/// content that comes out holds neither the escape `\"` nor the escape `\n`.
pub proof fn salvaged_content_writes_out_escapes(s: Seq<char>)
    requires
        !contains(s, seq!['\\', '\\']),
        find(s.take(content_end(s)), CONTENT_KEY@) matches Some(cs) && find(
            s.take(content_end(s)).skip(cs),
            seq![':'],
        ) is Some,
    ensures
        !contains(fallback_content(s), seq!['\\', '"']),
        !contains(fallback_content(s), seq!['\\', 'n']),
{
    crate::text::lemma_find(s, SUGGESTIONS_KEY@);
    let end = content_end(s);
    let part = s.take(end);
    let cs = find(part, CONTENT_KEY@)->0;
    crate::text::lemma_find(part, CONTENT_KEY@);
    crate::text::lemma_find(part.skip(cs), seq![':']);
    let ci = find(part.skip(cs), seq![':'])->0;
    let v = part.skip(cs + ci + 1);
    lemma_pair_contained(s, '\\', '\\');
    lemma_pair_subrange(s, '\\', '\\', 0, end);
    assert(part =~= s.subrange(0, end));
    lemma_pair_subrange(part, '\\', '\\', cs + ci + 1, part.len() as int);
    assert(v =~= part.subrange(cs + ci + 1, part.len() as int));
    lemma_pair_trim_start(v, Strip::Whitespace, '\\', '\\');
    lemma_pair_trim_end(trim_start_by(v, Strip::Whitespace), Strip::Whitespace, '\\', '\\');
    let t1 = trim(v);
    lemma_pair_trim_start(t1, Strip::Char('"'), '\\', '\\');
    let t2 = trim_start_by(t1, Strip::Char('"'));
    lemma_pair_trim_end(t2, Strip::Char(','), '\\', '\\');
    let t3 = trim_end_by(t2, Strip::Char(','));
    lemma_pair_trim_end(t3, Strip::Char('\n'), '\\', '\\');
    let t4 = trim_end_by(t3, Strip::Char('\n'));
    lemma_pair_trim_end(t4, Strip::Char('"'), '\\', '\\');
    let w = strip_value(v);
    assert(w == trim_end_by(t4, Strip::Char('"')));
    reveal_strlit("\\n");
    reveal_strlit("\n");
    reveal_strlit("\\\"");
    reveal_strlit("\"");
    assert("\\n"@ =~= seq!['\\', 'n']);
    assert("\n"@ =~= seq!['\n']);
    assert("\\\""@ =~= seq!['\\', '"']);
    assert("\""@ =~= seq!['"']);
    lemma_replace_escape(w, 'n', seq!['\n'], '"');
    let y1 = replace_all(w, "\\n"@, "\n"@);
    lemma_replace_escape(y1, '"', seq!['"'], 'n');
    let y2 = replace_all(y1, "\\\""@, "\""@);
    assert(fallback_content(s) == y2);
    lemma_pair_contained(y2, '\\', '"');
    lemma_pair_contained(y2, '\\', 'n');
}

} // verus!
