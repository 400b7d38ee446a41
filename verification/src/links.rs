//! Turning the mentor's markdown into HTML for the chat window: bare
//! bracketed URLs become links, and every link opens in a new tab.
use vstd::prelude::*;
use crate::text::{
    chars_of, find, find_at, find_char_at, has_whitespace, has_whitespace_at, push_range,
    replace_all, replace_chars, starts_with, string_from,
};

verus! {

/// The opening of a bracketed URL.
pub open spec fn url_open() -> Seq<char> {
    seq!['[', 'h', 't', 't', 'p']
}

/// What a bracketed URL opening at the start of `after` is written as, and
/// how many characters of `after` that consumes: a bare URL `[u]` that is not
/// followed by `(` and holds no whitespace becomes `[u](u)`; otherwise only
/// the opening is passed over.
pub open spec fn bracket_step(after: Seq<char>) -> (Seq<char>, int) {
    match find(after, seq![']']) {
        Some(e) => {
            let url = after.subrange(1, e);
            if !starts_with(after.skip(e + 1), seq!['(']) && !has_whitespace(url) {
                (seq!['['] + url + seq![']', '('] + url + seq![')'], e + 1)
            } else {
                (url_open(), 5)
            }
        },
        None => (url_open(), 5),
    }
}

/// `r` with every bare bracketed URL written as a markdown link, scanning
/// from left to right.
pub open spec fn fix_urls(r: Seq<char>) -> Seq<char>
    decreases r.len(),
{
    match find(r, url_open()) {
        None => r,
        Some(i) => {
            proof {
                crate::text::lemma_find(r, url_open());
                crate::text::lemma_find(r.skip(i), seq![']']);
            }
            let after = r.skip(i);
            let step = bracket_step(after);
            r.take(i) + step.0 + fix_urls(after.skip(step.1))
        },
    }
}

/// Writes what the bracketed URL opening at `start` becomes; returns where
/// the scan goes on.
fn fix_one(v: &Vec<char>, start: usize, out: &mut Vec<char>) -> (next: usize)
    requires
        start + 5 <= v.len(),
        v@.subrange(start as int, start + 5) == url_open(),
    ensures
        final(out)@ == old(out)@ + bracket_step(v@.skip(start as int)).0,
        next == start + bracket_step(v@.skip(start as int)).1,
        start < next <= v.len(),
{
    let n = v.len();
    let ghost after = v@.skip(start as int);
    assert(after =~= v@.subrange(start as int, n as int));
    assert(after[0] == '[');
    match find_char_at(v, start, n, ']') {
        Some(e) => {
            proof {
                crate::text::lemma_find(after, seq![']']);
            }
            if e == 0 {
                assert(after.subrange(0, 1)[0] == after[0]);
                assert(seq![']'][0] == ']');
            }
            assert(e >= 1);
            let end = start + e;
            let linked = end + 1 < n && v[end + 1] == '(';
            assert(after.skip(e + 1) =~= v@.skip(end + 1));
            if end + 1 < n {
                assert(after.skip(e + 1).take(1) =~= seq![v@[end + 1]]);
                if v[end + 1] != '(' {
                    assert(after.skip(e + 1).take(1)[0] != seq!['('][0]);
                }
            } else {
                assert(after.skip(e + 1).len() == 0);
            }
            assert(linked == starts_with(after.skip(e + 1), seq!['(']));
            assert(after.subrange(1, e as int) =~= v@.subrange(start + 1, end as int));
            if !linked && !has_whitespace_at(v, start + 1, end) {
                let ghost before = out@;
                out.push('[');
                push_range(out, v, start + 1, end);
                out.push(']');
                out.push('(');
                push_range(out, v, start + 1, end);
                out.push(')');
                let ghost url = after.subrange(1, e as int);
                assert(out@ =~= before + (seq!['['] + url + seq![']', '('] + url + seq![')']));
                return end + 1;
            }
        },
        None => {},
    }
    push_range(out, v, start, start + 5);
    start + 5
}

/// Writes each bare bracketed URL, such as `[https://x]`, as the markdown
/// link `[https://x](https://x)`; links and bracketed text with spaces stay.
pub fn fix_bracketed_urls(text: &str) -> (r: String)
    ensures
        r@ == fix_urls(text@),
{
    let v = chars_of(text);
    let n = v.len();
    let pat = chars_of("[http");
    proof {
        reveal_strlit("[http");
    }
    assert(pat@ =~= url_open());
    let mut out: Vec<char> = Vec::new();
    let mut pos: usize = 0;
    assert(v@.skip(0) =~= v@);
    loop
        invariant
            0 <= pos <= n,
            n == v.len(),
            v@ == text@,
            pat@ == url_open(),
            out@ + fix_urls(v@.skip(pos as int)) == fix_urls(v@),
        decreases n - pos,
    {
        let ghost r = v@.skip(pos as int);
        assert(r =~= v@.subrange(pos as int, n as int));
        match find_at(&v, pos, n, &pat) {
            None => {
                assert(fix_urls(r) == r);
                push_range(&mut out, &v, pos, n);
                assert(out@ == fix_urls(v@));
                return string_from(&out);
            },
            Some(i) => {
                proof {
                    crate::text::lemma_find(r, url_open());
                }
                let start = pos + i;
                assert(r.skip(i as int) =~= v@.skip(start as int));
                assert(r.take(i as int) =~= v@.subrange(pos as int, start as int));
                assert(v@.subrange(start as int, start + 5) =~= r.subrange(i as int, i + 5));
                let ghost before = out@;
                push_range(&mut out, &v, pos, start);
                let next = fix_one(&v, start, &mut out);
                let ghost step = bracket_step(v@.skip(start as int));
                assert(v@.skip(start as int).skip(step.1) =~= v@.skip(next as int));
                assert(out@ + fix_urls(v@.skip(next as int)) =~= before + fix_urls(r));
                pos = next;
            },
        }
    }
}

/// The HTML that pulldown-cmark renders for the CommonMark text `text`
/// with its default options.
pub uninterp spec fn markdown_html(text: Seq<char>) -> Seq<char>;

/// Renders CommonMark as HTML: `pulldown_cmark::Parser::new` over `text`,
/// written out by `pulldown_cmark::html::push_html` into an empty string.
/// Claimed: the result is a function of `text` alone, named `markdown_html`.
#[verifier::external_body]
fn render_markdown(text: &str) -> (html: String)
    ensures
        html@ == markdown_html(text@),
{
    let parser = pulldown_cmark::Parser::new(text);
    let mut html = String::new();
    pulldown_cmark::html::push_html(&mut html, parser);
    html
}

pub const PLAIN_LINK: &'static str = "<a href=";

pub const NEW_TAB_LINK: &'static str = "<a target=\"_blank\" rel=\"noopener noreferrer\" href=";

/// `html` with every link opening tag made to open in a new tab.
pub fn open_links_in_new_tab(html: &str) -> (r: String)
    ensures
        r@ == replace_all(html@, PLAIN_LINK@, NEW_TAB_LINK@),
{
    let v = chars_of(html);
    let from = chars_of(PLAIN_LINK);
    let to = chars_of(NEW_TAB_LINK);
    proof {
        reveal_strlit("<a href=");
    }
    let out = replace_chars(&v, &from, &to);
    string_from(&out)
}

/// Renders a mentor message as HTML: bare bracketed URLs become links, the
/// markdown is rendered, and every link opens in a new tab.
pub fn parse_markdown_to_safe_html(content: &str) -> (r: String)
    ensures
        r@ == replace_all(markdown_html(fix_urls(content@)), PLAIN_LINK@, NEW_TAB_LINK@),
{
    let fixed = fix_bracketed_urls(content);
    let html = render_markdown(fixed.as_str());
    open_links_in_new_tab(html.as_str())
}

/// A text with no bracketed URL opening is left as it is.
pub proof fn text_without_urls_is_unchanged(s: Seq<char>)
    requires
        find(s, url_open()) is None,
    ensures
        fix_urls(s) == s,
{
}

} // verus!
