//! The pagination/refill policy and the browsing helpers: turning catalog
//! pages into queue tracks, slugging genre labels for tag requests, and the
//! playlist dialog's line format.

use vstd::prelude::*;
use crate::libbc::shared_data::{browsing_unchanged, server_unchanged, SharedState};
use crate::libbc::strutil::{
    chars_to_string, push_chars, push_spaces, push_str_chars, spec_format_duration, spec_spaces,
    starts_with_str, str_chars,
};
use crate::models::bc_discover_index::{
    clone_elements, Element, ElementView, PostData, PostDataView,
};
use crate::models::bc_discover_json::{Results, ResultsView};
use crate::models::shared_data_models::{ResultsJson, ResultsJsonView, Track, TrackView};
use std::collections::VecDeque;

verus! {

/// Whether `c` is Unicode white space, as `str::trim` understands it.
pub open spec fn is_ws(c: char) -> bool {
    ||| c == ' '
    ||| c as u32 == 0x9
    ||| c as u32 == 0xA
    ||| c as u32 == 0xB
    ||| c as u32 == 0xC
    ||| c as u32 == 0xD
    ||| c as u32 == 0x85
    ||| c as u32 == 0xA0
    ||| c as u32 == 0x1680
    ||| (0x2000 <= c as u32 && c as u32 <= 0x200A)
    ||| c as u32 == 0x2028
    ||| c as u32 == 0x2029
    ||| c as u32 == 0x202F
    ||| c as u32 == 0x205F
    ||| c as u32 == 0x3000
}

/// `s` without leading white space.
pub open spec fn spec_trim_start(s: Seq<char>) -> Seq<char>
    decreases s.len(),
{
    if s.len() == 0 {
        s
    } else if is_ws(s[0]) {
        spec_trim_start(s.skip(1))
    } else {
        s
    }
}

/// `s` without trailing white space.
pub open spec fn spec_trim_end(s: Seq<char>) -> Seq<char>
    decreases s.len(),
{
    if s.len() == 0 {
        s
    } else if is_ws(s.last()) {
        spec_trim_end(s.drop_last())
    } else {
        s
    }
}

/// `s` without surrounding white space.
pub open spec fn spec_trim(s: Seq<char>) -> Seq<char> {
    spec_trim_end(spec_trim_start(s))
}

/// `s` cut off at the first query or fragment marker.
pub open spec fn spec_cut(s: Seq<char>) -> Seq<char>
    decreases s.len(),
{
    if s.len() == 0 {
        Seq::empty()
    } else if s[0] == '?' || s[0] == '#' {
        Seq::empty()
    } else {
        seq![s[0]] + spec_cut(s.skip(1))
    }
}

/// Whether slugging deletes `c` outright.
pub open spec fn is_deleted_char(c: char) -> bool {
    ||| c == '['
    ||| c == ']'
    ||| c == '@'
    ||| c == '!'
    ||| c == '$'
    ||| c == '\''
    ||| c == '('
    ||| c == ')'
    ||| c == '*'
    ||| c == '+'
    ||| c == ','
    ||| c == ':'
    ||| c == ';'
    ||| c == '='
}

/// Whether slugging turns `c` into a dash.
pub open spec fn is_dash_char(c: char) -> bool {
    c == '/' || c == ' ' || c == '_' || c == '~' || c == '&'
}

/// `s` with the deleted punctuation removed.
pub open spec fn spec_strip(s: Seq<char>) -> Seq<char>
    decreases s.len(),
{
    if s.len() == 0 {
        Seq::empty()
    } else {
        spec_strip(s.drop_last()) + (if is_deleted_char(s.last()) {
            Seq::empty()
        } else {
            seq![s.last()]
        })
    }
}

/// `s` with separators turned into dashes.
pub open spec fn spec_dashes(s: Seq<char>) -> Seq<char> {
    s.map_values(
        |c: char|
            if is_dash_char(c) {
                '-'
            } else {
                c
            },
    )
}

/// `s` with every run of dashes collapsed to one dash.
pub open spec fn spec_collapse(s: Seq<char>) -> Seq<char>
    decreases s.len(),
{
    if s.len() == 0 {
        Seq::empty()
    } else if s.len() >= 2 && s.last() == '-' && s[s.len() - 2] == '-' {
        spec_collapse(s.drop_last())
    } else {
        spec_collapse(s.drop_last()).push(s.last())
    }
}

/// The URL slug of a label: trimmed, cut at a query or fragment marker,
/// punctuation dropped, separators dashed, dash runs collapsed.
pub open spec fn spec_slug(s: Seq<char>) -> Seq<char> {
    spec_collapse(spec_dashes(spec_strip(spec_cut(spec_trim(s)))))
}

/// Holds when every character of `s` satisfies `p`.
pub open spec fn all_chars(s: Seq<char>, p: spec_fn(char) -> bool) -> bool {
    forall|i: int| 0 <= i < s.len() ==> p(#[trigger] s[i])
}

/// Trimming keeps only characters of the input.
proof fn lemma_trim_start_subset(s: Seq<char>, p: spec_fn(char) -> bool)
    requires
        all_chars(s, p),
    ensures
        all_chars(spec_trim_start(s), p),
    decreases s.len(),
{
    if s.len() > 0 && is_ws(s[0]) {
        assert(all_chars(s.skip(1), p));
        lemma_trim_start_subset(s.skip(1), p);
    }
}

/// Trimming keeps only characters of the input.
proof fn lemma_trim_end_subset(s: Seq<char>, p: spec_fn(char) -> bool)
    requires
        all_chars(s, p),
    ensures
        all_chars(spec_trim_end(s), p),
    decreases s.len(),
{
    if s.len() > 0 && is_ws(s.last()) {
        assert(all_chars(s.drop_last(), p));
        lemma_trim_end_subset(s.drop_last(), p);
    }
}

/// Nothing survives the cut from the first query or fragment marker on:
/// the cut's result has no such marker, and only characters of the input.
proof fn lemma_cut_chars(s: Seq<char>, p: spec_fn(char) -> bool)
    requires
        all_chars(s, p),
    ensures
        all_chars(spec_cut(s), p),
        all_chars(spec_cut(s), |c: char| c != '?' && c != '#'),
    decreases s.len(),
{
    if s.len() > 0 && !(s[0] == '?' || s[0] == '#') {
        assert(all_chars(s.skip(1), p));
        lemma_cut_chars(s.skip(1), p);
        assert forall|i: int| 0 <= i < spec_cut(s).len() implies p(#[trigger] spec_cut(s)[i])
            && spec_cut(s)[i] != '?' && spec_cut(s)[i] != '#' by {
            if i > 0 {
                assert(spec_cut(s)[i] == spec_cut(s.skip(1))[i - 1]);
            }
        }
    }
}

/// Stripping drops every deleted character and adds none of its own.
proof fn lemma_strip_chars(s: Seq<char>, p: spec_fn(char) -> bool)
    requires
        all_chars(s, p),
    ensures
        all_chars(spec_strip(s), p),
        all_chars(spec_strip(s), |c: char| !is_deleted_char(c)),
    decreases s.len(),
{
    if s.len() > 0 {
        assert(all_chars(s.drop_last(), p));
        lemma_strip_chars(s.drop_last(), p);
    }
}

/// Dashing leaves no separator behind: every character of the result is a
/// dash or an unchanged input character.
proof fn lemma_dashes_chars(s: Seq<char>, p: spec_fn(char) -> bool)
    requires
        all_chars(s, p),
        p('-'),
    ensures
        all_chars(spec_dashes(s), p),
        all_chars(spec_dashes(s), |c: char| !is_dash_char(c)),
{
    assert forall|i: int| 0 <= i < spec_dashes(s).len() implies p(#[trigger] spec_dashes(s)[i])
        && !is_dash_char(spec_dashes(s)[i]) by {
        assert(p(s[i]));
    }
}

/// Collapsing keeps only characters of the input.
proof fn lemma_collapse_subset(s: Seq<char>, p: spec_fn(char) -> bool)
    requires
        all_chars(s, p),
    ensures
        all_chars(spec_collapse(s), p),
    decreases s.len(),
{
    if s.len() > 0 {
        assert(all_chars(s.drop_last(), p));
        lemma_collapse_subset(s.drop_last(), p);
    }
}

/// A slug holds none of the characters slugging removes or replaces: no
/// bracketing punctuation, no separator, and no query or fragment marker.
pub proof fn lemma_slug_characters(s: Seq<char>)
    ensures
        all_chars(
            spec_slug(s),
            |c: char| !is_deleted_char(c) && !is_dash_char(c) && c != '?' && c != '#',
        ),
{
    let anything = |c: char| true;
    let no_stops = |c: char| c != '?' && c != '#';
    let t = spec_trim(s);
    let cut = spec_cut(t);
    lemma_trim_start_subset(s, anything);
    lemma_trim_end_subset(spec_trim_start(s), anything);
    lemma_cut_chars(t, anything);
    lemma_strip_chars(cut, no_stops);
    let stripped = spec_strip(cut);
    let cleaned = |c: char| !is_deleted_char(c) && c != '?' && c != '#';
    assert(all_chars(stripped, cleaned));
    lemma_dashes_chars(stripped, cleaned);
    let dashed = spec_dashes(stripped);
    let done = |c: char| !is_deleted_char(c) && !is_dash_char(c) && c != '?' && c != '#';
    assert(all_chars(dashed, done));
    lemma_collapse_subset(dashed, done);
}

/// Whether `c` is Unicode white space.
fn is_ws_exec(c: char) -> (r: bool)
    ensures
        r == is_ws(c),
{
    let u = c as u32;
    u == 0x20 || u == 0x9 || u == 0xA || u == 0xB || u == 0xC || u == 0xD || u == 0x85
        || u == 0xA0 || u == 0x1680 || (0x2000 <= u && u <= 0x200A) || u == 0x2028 || u == 0x2029
        || u == 0x202F || u == 0x205F || u == 0x3000
}

/// Trims surrounding white space from a character vector.
fn trim_chars(v: &Vec<char>) -> (r: Vec<char>)
    ensures
        r@ == spec_trim(v@),
{
    let mut start: usize = 0;
    proof {
        assert(v@.skip(0) =~= v@);
    }
    while start < v.len() && is_ws_exec(v[start])
        invariant
            start <= v@.len(),
            spec_trim_start(v@) == spec_trim_start(v@.skip(start as int)),
        decreases v@.len() - start,
    {
        proof {
            assert(v@.skip(start as int).skip(1) =~= v@.skip(start + 1));
        }
        start = start + 1;
    }
    proof {
        if start < v@.len() {
            assert(spec_trim_start(v@) == v@.skip(start as int));
        } else {
            assert(v@.skip(start as int).len() == 0);
            assert(spec_trim_start(v@) =~= v@.skip(start as int));
        }
    }
    let ghost t = spec_trim_start(v@);
    let mut end: usize = v.len();
    while end > start && is_ws_exec(v[end - 1])
        invariant
            start <= end <= v@.len(),
            t == v@.skip(start as int),
            spec_trim_end(t) == spec_trim_end(v@.subrange(start as int, end as int)),
        decreases end,
    {
        proof {
            let cur = v@.subrange(start as int, end as int);
            assert(cur.last() == v@[end - 1]);
            assert(cur.drop_last() =~= v@.subrange(start as int, end - 1));
        }
        end = end - 1;
    }
    proof {
        let cur = v@.subrange(start as int, end as int);
        if end > start {
            assert(spec_trim_end(cur) == cur);
        } else {
            assert(cur.len() == 0);
            assert(spec_trim_end(cur) =~= cur);
        }
    }
    let mut r: Vec<char> = Vec::new();
    let mut i: usize = start;
    while i < end
        invariant
            start <= i <= end <= v@.len(),
            r@ == v@.subrange(start as int, i as int),
        decreases end - i,
    {
        r.push(v[i]);
        i = i + 1;
        proof {
            assert(r@ =~= v@.subrange(start as int, i as int));
        }
    }
    proof {
        assert(spec_trim(v@) == v@.subrange(start as int, end as int));
        assert(r@ =~= v@.subrange(start as int, end as int));
    }
    r
}

/// Cuts a character vector at the first query or fragment marker.
fn cut_chars(v: &Vec<char>) -> (r: Vec<char>)
    ensures
        r@ == spec_cut(v@),
{
    let mut r: Vec<char> = Vec::new();
    let mut i: usize = 0;
    proof {
        assert(v@.skip(0) =~= v@);
    }
    while i < v.len()
        invariant
            i <= v@.len(),
            spec_cut(v@) == r@ + spec_cut(v@.skip(i as int)),
        decreases v@.len() - i,
    {
        proof {
            assert(v@.skip(i as int)[0] == v@[i as int]);
            assert(v@.skip(i as int).skip(1) =~= v@.skip(i + 1));
        }
        let c = v[i];
        if c == '?' || c == '#' {
            proof {
                assert(spec_cut(v@.skip(i as int)) =~= Seq::<char>::empty());
                assert(spec_cut(v@) =~= r@);
            }
            return r;
        }
        r.push(c);
        i = i + 1;
        proof {
            assert(spec_cut(v@) =~= r@ + spec_cut(v@.skip(i as int)));
        }
    }
    proof {
        assert(spec_cut(v@.skip(v@.len() as int)) =~= Seq::<char>::empty());
        assert(spec_cut(v@) =~= r@);
    }
    r
}

/// Drops the deleted punctuation from a character vector.
fn strip_chars(v: &Vec<char>) -> (r: Vec<char>)
    ensures
        r@ == spec_strip(v@),
{
    let mut r: Vec<char> = Vec::new();
    let mut i: usize = 0;
    while i < v.len()
        invariant
            i <= v@.len(),
            r@ == spec_strip(v@.take(i as int)),
        decreases v@.len() - i,
    {
        let c = v[i];
        proof {
            assert(v@.take(i + 1).drop_last() =~= v@.take(i as int));
            assert(v@.take(i + 1).last() == v@[i as int]);
        }
        let deleted = c == '[' || c == ']' || c == '@' || c == '!' || c == '$' || c == '\''
            || c == '(' || c == ')' || c == '*' || c == '+' || c == ',' || c == ':' || c == ';'
            || c == '=';
        if !deleted {
            r.push(c);
            proof {
                assert(r@ =~= spec_strip(v@.take(i + 1)));
            }
        } else {
            proof {
                assert(r@ =~= spec_strip(v@.take(i + 1)));
            }
        }
        i = i + 1;
    }
    proof {
        assert(v@.take(v@.len() as int) =~= v@);
    }
    r
}

/// Turns separators into dashes.
fn dash_chars(v: &Vec<char>) -> (r: Vec<char>)
    ensures
        r@ == spec_dashes(v@),
{
    let mut r: Vec<char> = Vec::new();
    let mut i: usize = 0;
    while i < v.len()
        invariant
            i <= v@.len(),
            r@.len() == i as int,
            forall|j: int| 0 <= j < i as int ==> r@[j] == spec_dashes(v@)[j],
        decreases v@.len() - i,
    {
        let c = v[i];
        if c == '/' || c == ' ' || c == '_' || c == '~' || c == '&' {
            r.push('-');
        } else {
            r.push(c);
        }
        i = i + 1;
    }
    proof {
        assert(r@ =~= spec_dashes(v@));
    }
    r
}

/// Collapses runs of dashes.
fn collapse_chars(v: &Vec<char>) -> (r: Vec<char>)
    ensures
        r@ == spec_collapse(v@),
{
    let mut r: Vec<char> = Vec::new();
    let mut i: usize = 0;
    while i < v.len()
        invariant
            i <= v@.len(),
            r@ == spec_collapse(v@.take(i as int)),
        decreases v@.len() - i,
    {
        let c = v[i];
        proof {
            assert(v@.take(i + 1).drop_last() =~= v@.take(i as int));
            assert(v@.take(i + 1).last() == v@[i as int]);
        }
        if c == '-' && i > 0 && v[i - 1] == '-' {
            proof {
                assert(v@.take(i + 1)[i as int - 1] == v@[i as int - 1]);
            }
        } else {
            r.push(c);
        }
        i = i + 1;
    }
    proof {
        assert(v@.take(v@.len() as int) =~= v@);
    }
    r
}

/// The URL slug of a genre or tag label, as the catalog's tag endpoints
/// expect it: surrounding white space trimmed, everything from the first
/// query or fragment marker cut off, bracketing punctuation dropped, spaces
/// and separators turned into dashes, and runs of dashes collapsed.
pub fn slug(s: &str) -> (r: String)
    ensures
        r@ == spec_slug(s@),
{
    let v = str_chars(s);
    let t = trim_chars(&v);
    let c = cut_chars(&t);
    let st = strip_chars(&c);
    let d = dash_chars(&st);
    let col = collapse_chars(&d);
    chars_to_string(&col)
}

/// Whether `c` occupies no display column (a combining character).
pub open spec fn is_zero_width(c: char) -> bool {
    let u = c as u32;
    ||| (0x300 <= u && u <= 0x36F)
    ||| (0x1AB0 <= u && u <= 0x1AFF)
    ||| (0x1DC0 <= u && u <= 0x1DFF)
    ||| (0x20D0 <= u && u <= 0x20FF)
    ||| (0x2DE0 <= u && u <= 0x2DFF)
    ||| (0x3099 <= u && u <= 0x309A)
    ||| u == 0x303F
    ||| (0x302A <= u && u <= 0x302F)
    ||| u == 0xE00
    ||| u == 0xE31
    ||| (0xE34 <= u && u <= 0xE3A)
    ||| (0xE47 <= u && u <= 0xE4E)
    ||| (0xFE20 <= u && u <= 0xFE2F)
    ||| u == 0xFEFF
}

/// Whether `c` occupies two display columns (a wide character).
pub open spec fn is_double_width(c: char) -> bool {
    let u = c as u32;
    ||| (0x9DC <= u && u <= 0x9DD)
    ||| u == 0x9DF
    ||| (0x958 <= u && u <= 0x95F)
    ||| (0x1100 <= u && u <= 0x115F)
    ||| (0x2329 <= u && u <= 0x232A)
    ||| u == 0x2ADC
    ||| (0x2E80 <= u && u <= 0xA4CF)
    ||| (0xAC00 <= u && u <= 0xD7A3)
    ||| u == 0xE5B
    ||| u == 0xEDC
    ||| u == 0xEDD
    ||| (0xF900 <= u && u <= 0xFA6B)
    ||| (0xFA6D <= u && u <= 0xFACE)
    ||| (0xFAD2 <= u && u <= 0xFAD4)
    ||| (0xFAD8 <= u && u <= 0xFAFF)
    ||| u == 0xFB1D
    ||| u == 0xFB1F
    ||| (0xFB2A <= u && u <= 0xFB2B)
    ||| (0xFB2E <= u && u <= 0xFB36)
    ||| (0xFB38 <= u && u <= 0xFB3C)
    ||| u == 0xFB3E
    ||| (0xFB40 <= u && u <= 0xFB41)
    ||| (0xFB43 <= u && u <= 0xFB44)
    ||| (0xFB46 <= u && u <= 0xFB4E)
    ||| (0xFE10 <= u && u <= 0xFE19)
    ||| (0xFE30 <= u && u <= 0xFE6F)
    ||| (0xFF00 <= u && u <= 0xFF60)
    ||| (0xFFE0 <= u && u <= 0xFFE6)
    ||| (0x10000 <= u && u <= 0xFFFFF)
}

/// Display columns of one character: zero for combining marks, two for wide
/// scripts, one otherwise.
pub open spec fn char_w(c: char) -> int {
    if is_zero_width(c) {
        0
    } else if is_double_width(c) {
        2
    } else {
        1
    }
}

/// Display columns of one character.
pub fn combine_char_width(i: char) -> (r: i8)
    ensures
        r as int == char_w(i),
{
    let u = i as u32;
    if (0x300 <= u && u <= 0x36F) || (0x1AB0 <= u && u <= 0x1AFF) || (0x1DC0 <= u && u <= 0x1DFF)
        || (0x20D0 <= u && u <= 0x20FF) || (0x2DE0 <= u && u <= 0x2DFF) || (0x3099 <= u && u
        <= 0x309A) || u == 0x303F || (0x302A <= u && u <= 0x302F) || u == 0xE00 || u == 0xE31 || (
    0xE34 <= u && u <= 0xE3A) || (0xE47 <= u && u <= 0xE4E) || (0xFE20 <= u && u <= 0xFE2F) || u
        == 0xFEFF {
        0
    } else if (0x9DC <= u && u <= 0x9DD) || u == 0x9DF || (0x958 <= u && u <= 0x95F) || (0x1100
        <= u && u <= 0x115F) || (0x2329 <= u && u <= 0x232A) || u == 0x2ADC || (0x2E80 <= u && u
        <= 0xA4CF) || (0xAC00 <= u && u <= 0xD7A3) || u == 0xE5B || u == 0xEDC || u == 0xEDD || (
    0xF900 <= u && u <= 0xFA6B) || (0xFA6D <= u && u <= 0xFACE) || (0xFAD2 <= u && u <= 0xFAD4)
        || (0xFAD8 <= u && u <= 0xFAFF) || u == 0xFB1D || u == 0xFB1F || (0xFB2A <= u && u
        <= 0xFB2B) || (0xFB2E <= u && u <= 0xFB36) || (0xFB38 <= u && u <= 0xFB3C) || u == 0xFB3E
        || (0xFB40 <= u && u <= 0xFB41) || (0xFB43 <= u && u <= 0xFB44) || (0xFB46 <= u && u
        <= 0xFB4E) || (0xFE10 <= u && u <= 0xFE19) || (0xFE30 <= u && u <= 0xFE6F) || (0xFF00 <= u
        && u <= 0xFF60) || (0xFFE0 <= u && u <= 0xFFE6) || (0x10000 <= u && u <= 0xFFFFF) {
        2
    } else {
        1
    }
}

/// Folds a title into at most thirty display columns. The result pairs the
/// padding width for the column after the title with the kept characters:
/// characters are taken while they fit in twenty-nine columns, a title that
/// overflows is ended with two dots (after an alignment space when a wide
/// character would have straddled the edge), and the width grows by one for
/// every zero-width character kept and shrinks by one for every wide one.
pub open spec fn cw_rec(s: Seq<char>, n: int, m: int) -> (int, Seq<char>)
    decreases s.len(),
{
    if s.len() == 0 {
        (30 - m, Seq::empty())
    } else {
        let a = char_w(s[0]);
        if n + a >= 29 {
            (
                30 - m,
                if n == 27 && a == 2 {
                    seq![' ', '.', '.']
                } else {
                    seq!['.', '.']
                },
            )
        } else {
            let r = cw_rec(s.skip(1), n + a, m + (a - 1));
            (r.0, seq![s[0]] + r.1)
        }
    }
}

/// Truncates a title to the playlist dialog's column budget, returning the
/// field width to pad it to and the characters to show.
pub fn char_width(s: &str) -> (r: (usize, String))
    requires
        s@.len() <= 0x10000000,
    ensures
        r.0 as int == cw_rec(s@, 0, 0).0,
        r.1@ == cw_rec(s@, 0, 0).1,
{
    let (w, cs) = char_width_chars(s);
    (w, chars_to_string(&cs))
}

/// Truncates a title to the playlist dialog's column budget, keeping the
/// characters to show as a vector.
fn char_width_chars(s: &str) -> (r: (usize, Vec<char>))
    requires
        s@.len() <= 0x10000000,
    ensures
        r.0 as int == cw_rec(s@, 0, 0).0,
        r.1@ == cw_rec(s@, 0, 0).1,
{
    let v = str_chars(s);
    let mut n: i64 = 0;
    let mut m: i64 = 0;
    let mut out: Vec<char> = Vec::new();
    let mut i: usize = 0;
    proof {
        assert(v@.skip(0) =~= v@);
    }
    loop
        invariant_except_break
            cw_rec(s@, 0, 0).0 == cw_rec(s@.skip(i as int), n as int, m as int).0,
            cw_rec(s@, 0, 0).1 == out@ + cw_rec(s@.skip(i as int), n as int, m as int).1,
        invariant
            v@ == s@,
            s@.len() <= 0x10000000,
            i <= v@.len(),
            0 <= n <= 28,
            -(i as int) <= m,
            2 * m <= n,
        ensures
            out@ == cw_rec(s@, 0, 0).1,
            30 - m == cw_rec(s@, 0, 0).0,
            -0x10000000 <= m <= 14,
        decreases v@.len() - i,
    {
        if i >= v.len() {
            proof {
                assert(s@.skip(i as int).len() == 0);
                assert(out@ + cw_rec(s@.skip(i as int), n as int, m as int).1 =~= out@);
                assert(out@ == cw_rec(s@, 0, 0).1);
            }
            break ;
        }
        proof {
            assert(s@.skip(i as int)[0] == s@[i as int]);
            assert(s@.skip(i as int).skip(1) =~= s@.skip(i + 1));
        }
        let a = combine_char_width(v[i]) as i64;
        if n + a >= 29 {
            if n == 27 && a == 2 {
                out.push(' ');
            }
            out.push('.');
            out.push('.');
            proof {
                assert(out@ =~= cw_rec(s@, 0, 0).1);
            }
            break ;
        }
        n = n + a;
        m = m + (a - 1);
        out.push(v[i]);
        i = i + 1;
        proof {
            assert(cw_rec(s@, 0, 0).1 =~= out@ + cw_rec(
                s@.skip(i as int),
                n as int,
                m as int,
            ).1);
        }
    }
    let width = (30 - m) as usize;
    (width, out)
}

/// One line of the playlist dialog: the position, the truncated title padded
/// to its column budget, the duration right-aligned in seven columns, the
/// truncated artist padded likewise, and the album title.
#[verifier::opaque]
pub open spec fn spec_playlist_line(n: int, t: TrackView) -> Seq<char> {
    let title = cw_rec(t.track, 0, 0);
    let artist = cw_rec(t.artist_name, 0, 0);
    let dur = spec_format_duration(t.duration as int);
    spec_align2(n) + seq![' '] + title.1 + spec_spaces(title.0 - title.1.len()) + seq![' ']
        + spec_spaces(7 - dur.len()) + dur + seq![' '] + artist.1 + spec_spaces(
        artist.0 - artist.1.len(),
    ) + seq![' '] + t.album_title
}

/// A queue position right-aligned in two columns.
pub open spec fn spec_align2(n: int) -> Seq<char> {
    if n < 10 {
        seq![' '] + crate::libbc::strutil::spec_dec(n)
    } else {
        crate::libbc::strutil::spec_dec(n)
    }
}

/// Formats one line of the playlist dialog.
pub fn format_line(n: usize, x: &Track) -> (r: String)
    requires
        n <= 99,
        x@.track.len() <= 0x10000000,
        x@.artist_name.len() <= 0x10000000,
    ensures
        r@ == spec_playlist_line(n as int, x@),
{
    let mut out: Vec<char> = Vec::new();
    if n < 10 {
        out.push(' ');
    }
    crate::libbc::strutil::push_dec_digits(n as u64, &mut out);
    proof {
        assert(out@ =~= spec_align2(n as int));
    }
    out.push(' ');
    let (tw, title) = char_width_chars(x.track.as_str());
    push_chars(&title, &mut out);
    if tw > title.len() {
        push_spaces(tw - title.len(), &mut out);
    } else {
        proof {
            assert(spec_spaces(tw as int - title@.len() as int) =~= Seq::<char>::empty());
        }
    }
    out.push(' ');
    let dur = crate::libbc::strutil::format_duration_chars(x.duration);
    if dur.len() < 7 {
        push_spaces(7 - dur.len(), &mut out);
    } else {
        proof {
            assert(spec_spaces(7 - dur@.len() as int) =~= Seq::<char>::empty());
        }
    }
    push_chars(&dur, &mut out);
    out.push(' ');
    let (aw, artist) = char_width_chars(x.artist_name.as_str());
    push_chars(&artist, &mut out);
    if aw > artist.len() {
        push_spaces(aw - artist.len(), &mut out);
    } else {
        proof {
            assert(spec_spaces(aw as int - artist@.len() as int) =~= Seq::<char>::empty());
        }
    }
    out.push(' ');
    push_str_chars(x.album_title.as_str(), &mut out);
    proof {
        reveal(spec_playlist_line);
        assert(out@ =~= spec_playlist_line(n as int, x@));
    }
    chars_to_string(&out)
}

/// The first genre entry whose label is `key`.
pub open spec fn find_by_label(g: Seq<Element>, key: Seq<char>) -> Option<ElementView>
    decreases g.len(),
{
    if g.len() == 0 {
        None
    } else if g[0]@.label == key {
        Some(g[0]@)
    } else {
        find_by_label(g.skip(1), key)
    }
}

/// The first genre entry whose slug is `key`.
pub open spec fn find_by_slug(g: Seq<Element>, key: Seq<char>) -> Option<ElementView>
    decreases g.len(),
{
    if g.len() == 0 {
        None
    } else if g[0]@.slug == key {
        Some(g[0]@)
    } else {
        find_by_slug(g.skip(1), key)
    }
}

/// The genre entry an answer names: by label first, by slug second.
pub open spec fn spec_pick(g: Seq<Element>, key: Seq<char>) -> Option<ElementView> {
    match find_by_label(g, key) {
        Some(e) => Some(e),
        None => find_by_slug(g, key),
    }
}

/// Character-for-character comparison of an owned and a borrowed string.
fn string_eq_str(a: &String, b: &str) -> (r: bool)
    ensures
        r == (a@ == b@),
{
    let b2 = b.to_owned();
    a.eq(&b2)
}

/// Finds the genre entry a menu answer names: by its label first, falling
/// back to its slug.
pub fn pick_element(g: &Vec<Element>, key: &str) -> (r: Option<Element>)
    ensures
        (match (&r, spec_pick(g@, key@)) {
            (Some(e), Some(v)) => e@ == v,
            (None, None) => true,
            _ => false,
        }),
{
    let mut i: usize = 0;
    proof {
        assert(g@.skip(0) =~= g@);
    }
    while i < g.len()
        invariant
            i <= g@.len(),
            find_by_label(g@, key@) == find_by_label(g@.skip(i as int), key@),
        decreases g@.len() - i,
    {
        proof {
            assert(g@.skip(i as int)[0] == g@[i as int]);
            assert(g@.skip(i as int).skip(1) =~= g@.skip(i + 1));
        }
        if string_eq_str(&g[i].label, key) {
            return Some(g[i].clone());
        }
        i = i + 1;
    }
    let mut i: usize = 0;
    proof {
        assert(g@.skip(0) =~= g@);
    }
    while i < g.len()
        invariant
            i <= g@.len(),
            find_by_label(g@, key@) is None,
            find_by_slug(g@, key@) == find_by_slug(g@.skip(i as int), key@),
        decreases g@.len() - i,
    {
        proof {
            assert(g@.skip(i as int)[0] == g@[i as int]);
            assert(g@.skip(i as int).skip(1) =~= g@.skip(i + 1));
        }
        if string_eq_str(&g[i].slug, key) {
            return Some(g[i].clone());
        }
        i = i + 1;
    }
    None
}

/// The labels of every entry of `g` whose slug is `sl`, joined.
pub open spec fn labels_concat(g: Seq<Element>, sl: Seq<char>) -> Seq<char>
    decreases g.len(),
{
    if g.len() == 0 {
        Seq::empty()
    } else {
        (if g[0]@.slug == sl {
            g[0]@.label
        } else {
            Seq::empty()
        }) + labels_concat(g.skip(1), sl)
    }
}

/// For each sub-genre entry of `t` whose slug matches the slugged tag, the
/// joined labels of its parent genres in `g`.
pub open spec fn spec_genre_list(t: Seq<Element>, g: Seq<Element>, ts: Seq<char>) -> Seq<
    Seq<char>,
>
    decreases t.len(),
{
    if t.len() == 0 {
        Seq::empty()
    } else {
        (if t[0]@.slug == ts {
            seq![labels_concat(g, t[0]@.parent_slug.unwrap())]
        } else {
            Seq::empty()
        }) + spec_genre_list(t.skip(1), g, ts)
    }
}

/// Joins the labels of the genre entries of `g` whose slug is `sl`.
fn labels_concat_exec(g: &Vec<Element>, sl: &String) -> (r: String)
    ensures
        r@ == labels_concat(g@, sl@),
{
    let mut acc: Vec<char> = Vec::new();
    let mut i: usize = 0;
    proof {
        assert(g@.skip(0) =~= g@);
    }
    while i < g.len()
        invariant
            i <= g@.len(),
            labels_concat(g@, sl@) == acc@ + labels_concat(g@.skip(i as int), sl@),
        decreases g@.len() - i,
    {
        proof {
            assert(g@.skip(i as int)[0] == g@[i as int]);
            assert(g@.skip(i as int).skip(1) =~= g@.skip(i + 1));
        }
        if string_eq_str(&g[i].slug, sl.as_str()) {
            push_str_chars(g[i].label.as_str(), &mut acc);
        }
        i = i + 1;
        proof {
            assert(labels_concat(g@, sl@) =~= acc@ + labels_concat(g@.skip(i as int), sl@));
        }
    }
    proof {
        assert(labels_concat(g@, sl@) =~= acc@);
    }
    chars_to_string(&acc)
}

/// The parent genre labels of the sub-genre entries a free tag names. The
/// sub-genre entries that match must carry a parent slug; the answer has one
/// entry per matching sub-genre, holding the joined labels of its parents.
pub fn genre_list(t: &Vec<Element>, g: &Vec<Element>, tag: &str) -> (r: Vec<String>)
    requires
        forall|j: int|
            0 <= j < t@.len() && (#[trigger] t@[j])@.slug == spec_slug(tag@) ==> t@[j]@.parent_slug
                is Some,
    ensures
        r.deep_view() == spec_genre_list(t@, g@, spec_slug(tag@)),
{
    let ts = slug(tag);
    let mut r: Vec<String> = Vec::new();
    let mut i: usize = 0;
    proof {
        assert(t@.skip(0) =~= t@);
    }
    while i < t.len()
        invariant
            i <= t@.len(),
            ts@ == spec_slug(tag@),
            forall|j: int|
                0 <= j < t@.len() && (#[trigger] t@[j])@.slug == spec_slug(tag@) ==> t@[
                    j
                ]@.parent_slug is Some,
            r.deep_view() + spec_genre_list(t@.skip(i as int), g@, ts@) == spec_genre_list(
                t@,
                g@,
                ts@,
            ),
        decreases t@.len() - i,
    {
        proof {
            assert(t@.skip(i as int)[0] == t@[i as int]);
            assert(t@.skip(i as int).skip(1) =~= t@.skip(i + 1));
        }
        if string_eq_str(&t[i].slug, ts.as_str()) {
            match &t[i].parent_slug {
                Some(ps) => {
                    let lbl = labels_concat_exec(g, ps);
                    let ghost before = r.deep_view();
                    r.push(lbl);
                    proof {
                        assert(r.deep_view() =~= before.push(lbl@));
                    }
                },
                None => {
                    proof {
                        assert(false);
                    }
                },
            }
        }
        i = i + 1;
        proof {
            assert(r.deep_view() + spec_genre_list(t@.skip(i as int), g@, ts@) =~= spec_genre_list(
                t@,
                g@,
                ts@,
            ));
        }
    }
    proof {
        assert(r.deep_view() =~= spec_genre_list(t@, g@, ts@));
    }
    r
}

/// The queue track built from one discovery result under the current
/// browsing context: the featured track's title, artist and stream URL, the
/// album's metadata, an empty buffer, and the whole result kept as the
/// info-panel payload.
pub open spec fn spec_track_from(i: ResultsView, genre: Seq<char>, subgenre: Seq<char>) -> TrackView {
    TrackView {
        album_title: i.title,
        artist_name: i.featured_track.band_name,
        art_id: i.item_image_id,
        band_id: i.band_id,
        url: i.featured_track.stream_url,
        duration: i.item_duration,
        track: i.featured_track.title,
        buffer: Seq::empty(),
        results: ResultsJsonView::Select(i),
        genre: Some(genre),
        subgenre: Some(subgenre),
    }
}

impl SharedState {
    /// Turns one page of discovery results into queue tracks, stamping each
    /// with the browsing context it was found under.
    pub fn gen_track_list(&self, items: &Vec<Results>) -> (r: VecDeque<Track>)
        ensures
            r@.len() == items@.len(),
            forall|i: int|
                0 <= i < items@.len() ==> (#[trigger] r@[i])@ == spec_track_from(
                    items@[i]@,
                    self.state.player.genre@,
                    self.state.player.subgenre@,
                ),
    {
        let mut r: VecDeque<Track> = VecDeque::new();
        let mut i: usize = 0;
        while i < items.len()
            invariant
                i <= items@.len(),
                r@.len() == i as int,
                forall|j: int|
                    0 <= j < i as int ==> (#[trigger] r@[j])@ == spec_track_from(
                        items@[j]@,
                        self.state.player.genre@,
                        self.state.player.subgenre@,
                    ),
            decreases items@.len() - i,
        {
            let it = &items[i];
            let t = Track {
                album_title: it.title.clone(),
                artist_name: it.featured_track.band_name.clone(),
                art_id: it.item_image_id,
                band_id: it.band_id,
                url: it.featured_track.stream_url.clone(),
                duration: it.item_duration,
                track: it.featured_track.title.clone(),
                buffer: Vec::new(),
                results: ResultsJson::Select(Box::new(it.clone())),
                genre: Some(self.get_genre()),
                subgenre: Some(self.get_subgenre()),
            };
            proof {
                assert(t@ =~= spec_track_from(
                    items@[i as int]@,
                    self.state.player.genre@,
                    self.state.player.subgenre@,
                ));
            }
            r.push_back(t);
            i = i + 1;
        }
        r
    }
}

/// The pagination request that asks for the first page of a context browsing
/// the given tags.
pub open spec fn default_post_view(tags: Seq<Seq<char>>) -> PostDataView {
    PostDataView {
        category_id: 0,
        tag_norm_names: tags,
        geoname_id: 0,
        slice: "rand"@,
        cursor: Some("*"@),
        size: 60,
        include_result_types: seq!["a"@],
    }
}

/// Builds the first-page request for the given tag list.
pub fn default_post_with_tags(tags: Vec<String>) -> (r: PostData)
    ensures
        r@ == default_post_view(tags.deep_view()),
{
    let mut r = PostData::default();
    r.tag_norm_names = tags;
    proof {
        assert(r@ =~= default_post_view(tags.deep_view()));
    }
    r
}

/// The slug of an optional label, kept only when it is non-empty.
pub open spec fn opt_slug_entry(o: Option<Seq<char>>) -> Seq<Seq<char>> {
    match o {
        Some(s) => if spec_slug(s).len() > 0 {
            seq![spec_slug(s)]
        } else {
            Seq::empty()
        },
        None => Seq::empty(),
    }
}

impl SharedState {
    /// The browsing context named on the command line, without any dialog:
    /// the genre and sub-genre labels are slugged, empty slugs dropped, and
    /// the first page of that context is requested.
    pub fn silent(&self, genre: Option<String>, sub_genre: Option<String>) -> (r: Result<
        PostData,
        crate::models::bc_error::BcradioError,
    >)
        ensures
            (match r {
                Ok(p) => p@ == default_post_view(
                    opt_slug_entry(
                        match genre {
                            Some(s) => Some(s@),
                            None => None,
                        },
                    ) + opt_slug_entry(
                        match sub_genre {
                            Some(s) => Some(s@),
                            None => None,
                        },
                    ),
                ),
                Err(_) => false,
            }),
    {
        let mut tags: Vec<String> = Vec::new();
        match &genre {
            Some(s) => {
                let sl = slug(s.as_str());
                if !sl.as_str().is_empty() {
                    tags.push(sl);
                }
            },
            None => {},
        }
        let ghost first = tags.deep_view();
        proof {
            assert(first =~= opt_slug_entry(
                match genre {
                    Some(s) => Some(s@),
                    None => None,
                },
            ));
        }
        match &sub_genre {
            Some(s) => {
                let sl = slug(s.as_str());
                if !sl.as_str().is_empty() {
                    tags.push(sl);
                }
            },
            None => {},
        }
        proof {
            assert(tags.deep_view() =~= first + opt_slug_entry(
                match sub_genre {
                    Some(s) => Some(s@),
                    None => None,
                },
            ));
        }
        Ok(default_post_with_tags(tags))
    }
}

/// What the refill policy asks of one tick when the sink is empty: fetch the
/// next page with the saved request, prompt for a whole new browsing context
/// because pagination is exhausted, or leave the queue alone.
pub enum RefillPlan {
    FetchPage(PostData),
    PromptNewContext,
    Keep,
}

impl SharedState {
    /// The refill decision: with fewer than two queued tracks the queue is
    /// topped up, using the saved cursor when one remains; with none left the
    /// caller clears the screen and prompts for a new browsing context.
    pub fn fill_playlist_plan(&self) -> (r: RefillPlan)
        ensures
            self.queue().len() >= 2 ==> r is Keep,
            self.queue().len() < 2 && self.post()@.cursor is Some ==> (match r {
                RefillPlan::FetchPage(p) => p@ == self.post()@,
                _ => false,
            }),
            self.queue().len() < 2 && self.post()@.cursor is None ==> r is PromptNewContext,
    {
        let l = self.queue_length_from_truck_list();
        if l < 2 {
            let p = self.next_post();
            if p.cursor.is_some() {
                RefillPlan::FetchPage(p)
            } else {
                RefillPlan::PromptNewContext
            }
        } else {
            RefillPlan::Keep
        }
    }

    /// Applies one fetched discovery page. The request that fetched the
    /// page is stored with the response's cursor as the saved "fetch more"
    /// request — so a freshly chosen browsing context keeps paging itself on
    /// every later refill — and the page's tracks are appended to the queue.
    pub fn apply_discover_page(
        &mut self,
        request: &PostData,
        results: &Vec<Results>,
        new_cursor: Option<String>,
    )
        ensures
            final(self).post()@ == (PostDataView {
                cursor: (match new_cursor {
                    Some(c) => Some(c@),
                    None => None,
                }),
                ..request@
            }),
            final(self).queue().len() == old(self).queue().len() + results@.len(),
            forall|i: int|
                0 <= i < old(self).queue().len() ==> #[trigger] final(self).queue()[i] == old(
                    self,
                ).queue()[i],
            forall|i: int|
                0 <= i < results@.len() ==> (#[trigger] final(self).queue()[old(
                    self,
                ).queue().len() + i])@ == spec_track_from(
                    results@[i]@,
                    old(self).state.player.genre@,
                    old(self).state.player.subgenre@,
                ),
            final(self).current() == old(self).current(),
            browsing_unchanged(*old(self), *final(self)),
            server_unchanged(*old(self), *final(self)),
    {
        let ghost ncv = (match &new_cursor {
            Some(c) => Some(c@),
            None => None::<Seq<char>>,
        });
        let mut pd = request.clone();
        pd.cursor = new_cursor;
        proof {
            assert(pd@ =~= (PostDataView { cursor: ncv, ..request@ }));
        }
        self.set_next_postdata(&pd);
        let page = self.gen_track_list(results);
        self.append_tracklist(page);
    }
}

/// Whether `s` begins with `p`.
pub open spec fn spec_starts_with(s: Seq<char>, p: Seq<char>) -> bool {
    s.len() >= p.len() && s.subrange(0, p.len() as int) == p
}

/// The synthetic first menu row that stands for the whole of a genre:
/// `all "<answer>"`.
pub open spec fn all_entry(ans: Seq<char>) -> ElementView {
    ElementView {
        id: 0,
        label: "all \""@ + ans + "\""@,
        slug: Seq::empty(),
        selected: None,
        parent_slug: None,
    }
}

/// Builds the `all "<answer>"` menu row.
fn all_entry_exec(ans: &str) -> (r: Element)
    ensures
        r@ == all_entry(ans@),
{
    let mut v: Vec<char> = Vec::new();
    push_str_chars("all \"", &mut v);
    push_str_chars(ans, &mut v);
    push_str_chars("\"", &mut v);
    let r = Element {
        id: 0,
        label: chars_to_string(&v),
        slug: String::new(),
        selected: None,
        parent_slug: None,
    };
    proof {
        assert(r@ =~= all_entry(ans@));
    }
    r
}

/// The sub-genre entries of `t` whose parent slug is `sl`.
pub open spec fn spec_subgenres_of(t: Seq<Element>, sl: Seq<char>) -> Seq<ElementView>
    decreases t.len(),
{
    if t.len() == 0 {
        Seq::empty()
    } else {
        (if t[0]@.parent_slug.unwrap() == sl {
            seq![t[0]@]
        } else {
            Seq::empty()
        }) + spec_subgenres_of(t.skip(1), sl)
    }
}

/// Collects the sub-genre entries whose parent slug is `sl`.
fn subgenres_of_exec(t: &Vec<Element>, sl: &String) -> (r: Vec<Element>)
    requires
        forall|j: int| 0 <= j < t@.len() ==> (#[trigger] t@[j])@.parent_slug is Some,
    ensures
        r@.len() == spec_subgenres_of(t@, sl@).len(),
        forall|i: int|
            0 <= i < r@.len() ==> (#[trigger] r@[i])@ == spec_subgenres_of(t@, sl@)[i],
{
    let mut r: Vec<Element> = Vec::new();
    let mut i: usize = 0;
    proof {
        assert(t@.skip(0) =~= t@);
    }
    while i < t.len()
        invariant
            i <= t@.len(),
            forall|j: int| 0 <= j < t@.len() ==> (#[trigger] t@[j])@.parent_slug is Some,
            r.deep_view() + spec_subgenres_of(t@.skip(i as int), sl@) == spec_subgenres_of(
                t@,
                sl@,
            ),
        decreases t@.len() - i,
    {
        proof {
            assert(t@.skip(i as int)[0] == t@[i as int]);
            assert(t@.skip(i as int).skip(1) =~= t@.skip(i + 1));
        }
        match &t[i].parent_slug {
            Some(ps) => {
                if string_eq_str(ps, sl.as_str()) {
                    let ghost before = r.deep_view();
                    r.push(t[i].clone());
                    proof {
                        assert(r.deep_view() =~= before.push(t@[i as int]@));
                    }
                }
            },
            None => {
                proof {
                    assert(false);
                }
            },
        }
        i = i + 1;
        proof {
            assert(r.deep_view() + spec_subgenres_of(t@.skip(i as int), sl@)
                =~= spec_subgenres_of(t@, sl@));
        }
    }
    proof {
        assert(r.deep_view() =~= spec_subgenres_of(t@, sl@));
        assert(forall|i: int|
            0 <= i < r@.len() ==> (#[trigger] r@[i])@ == r.deep_view()[i]);
    }
    r
}

/// What the browsing dialog must do next after the genre answer was read.
pub enum ChoiceStep {
    /// The context is settled: request its first page.
    Done(PostData),
    /// The answer was a free tag: fetch its related tags, then offer them.
    NeedRelatedTags(String),
    /// Offer these sub-genre entries, with the tags chosen so far.
    NeedSubgenreSelect(Vec<Element>, Vec<String>),
    /// The answer was a sub-genre of several genres: ask which was meant.
    NeedParentSelect(Vec<String>),
}

impl SharedState {
    /// Decides what follows the genre prompt. The chosen label is recorded;
    /// then: the `all genres` row settles an unrestricted context; a known
    /// genre with no sub-genres settles a one-tag context; one with
    /// sub-genres calls for a sub-genre prompt; an answer that names no entry
    /// is treated as a free tag — resolved through its parent genres when the
    /// cached tree knows it, and through the related-tags endpoint when it
    /// does not.
    pub fn choice_step(&mut self, g: &Vec<Element>, t: &Vec<Element>, genre_ans: &str) -> (r:
        ChoiceStep)
        requires
            forall|j: int| 0 <= j < t@.len() ==> (#[trigger] t@[j])@.parent_slug is Some,
        ensures
            final(self).queue() == old(self).queue(),
            final(self).current() == old(self).current(),
            final(self).post() == old(self).post(),
            final(self).state.player.genres == old(self).state.player.genres,
            final(self).state.player.subgenres == old(self).state.player.subgenres,
            server_unchanged(*old(self), *final(self)),
            (match spec_pick(g@, genre_ans@) {
                Some(el) => {
                    if spec_starts_with(el.label, "all genres"@) {
                        &&& (match r {
                            ChoiceStep::Done(p) => p@ == default_post_view(Seq::empty()),
                            _ => false,
                        })
                        &&& final(self).state.player.genre@ == genre_ans@
                        &&& final(self).state.player.subgenre == old(self).state.player.subgenre
                    } else {
                        let subs = spec_subgenres_of(t@, el.slug);
                        if subs.len() == 0 {
                            &&& (match r {
                                ChoiceStep::Done(p) => p@ == default_post_view(seq![el.slug]),
                                _ => false,
                            })
                            &&& final(self).state.player.genre@ == genre_ans@
                            &&& final(self).state.player.subgenre@ == Seq::<char>::empty()
                        } else {
                            &&& (match r {
                                ChoiceStep::NeedSubgenreSelect(opts, tags) => {
                                    &&& opts.deep_view() == seq![all_entry(genre_ans@)] + subs
                                    &&& tags.deep_view() == seq![spec_slug(genre_ans@)]
                                },
                                _ => false,
                            })
                            &&& final(self).state.player.genre@ == genre_ans@
                            &&& final(self).state.player.subgenre == old(
                                self,
                            ).state.player.subgenre
                        }
                    }
                },
                None => {
                    let labels = spec_genre_list(t@, g@, spec_slug(genre_ans@));
                    if labels.len() == 0 {
                        &&& (match r {
                            ChoiceStep::NeedRelatedTags(s) => s@ == spec_slug(genre_ans@),
                            _ => false,
                        })
                        &&& final(self).state.player.genre@ == genre_ans@
                        &&& final(self).state.player.subgenre == old(self).state.player.subgenre
                    } else if labels.len() == 1 {
                        &&& (match r {
                            ChoiceStep::Done(p) => p@ == default_post_view(
                                seq![spec_slug(labels[0]), spec_slug(genre_ans@)],
                            ),
                            _ => false,
                        })
                        &&& final(self).state.player.genre@ == labels[0]
                        &&& final(self).state.player.subgenre@ == genre_ans@
                    } else {
                        &&& (match r {
                            ChoiceStep::NeedParentSelect(ls) => ls.deep_view() == labels,
                            _ => false,
                        })
                        &&& final(self).state.player.genre@ == genre_ans@
                        &&& final(self).state.player.subgenre == old(self).state.player.subgenre
                    }
                },
            }),
    {
        self.set_genre(genre_ans);
        let element = pick_element(g, genre_ans);
        match element {
            Some(el) => {
                if starts_with_str(el.label.as_str(), "all genres") {
                    let tags: Vec<String> = Vec::new();
                    proof {
                        assert(tags.deep_view() =~= Seq::<Seq<char>>::empty());
                    }
                    return ChoiceStep::Done(default_post_with_tags(tags));
                }
                let subs = subgenres_of_exec(t, &el.slug);
                if subs.len() == 0 {
                    self.set_subgenre("");
                    proof {
                        reveal_strlit("");
                        assert(""@ =~= Seq::<char>::empty());
                    }
                    let mut tags: Vec<String> = Vec::new();
                    tags.push(el.slug.clone());
                    proof {
                        assert(tags.deep_view() =~= seq![el@.slug]);
                    }
                    ChoiceStep::Done(default_post_with_tags(tags))
                } else {
                    let mut opts: Vec<Element> = Vec::new();
                    opts.push(all_entry_exec(genre_ans));
                    let mut i: usize = 0;
                    while i < subs.len()
                        invariant
                            i <= subs@.len(),
                            opts@.len() == i as int + 1,
                            opts@[0]@ == all_entry(genre_ans@),
                            forall|j: int|
                                0 <= j < i as int ==> (#[trigger] opts@[j + 1])@ == subs@[j]@,
                        decreases subs@.len() - i,
                    {
                        opts.push(subs[i].clone());
                        i = i + 1;
                    }
                    let mut tags: Vec<String> = Vec::new();
                    tags.push(slug(genre_ans));
                    proof {
                        let subsv = spec_subgenres_of(t@, el@.slug);
                        assert forall|k: int| 0 <= k < opts@.len() implies opts.deep_view()[k] == (
                        seq![all_entry(genre_ans@)] + subsv)[k] by {
                            if k >= 1 {
                                assert(opts@[(k - 1) + 1]@ == subs@[k - 1]@);
                                assert(subs@[k - 1]@ == subsv[k - 1]);
                            }
                        }
                        assert(opts.deep_view() =~= seq![all_entry(genre_ans@)] + subsv);
                        assert(tags.deep_view() =~= seq![spec_slug(genre_ans@)]);
                    }
                    ChoiceStep::NeedSubgenreSelect(opts, tags)
                }
            },
            None => {
                let labels = genre_list(t, g, genre_ans);
                if labels.len() == 0 {
                    ChoiceStep::NeedRelatedTags(slug(genre_ans))
                } else if labels.len() == 1 {
                    self.set_genre(labels[0].as_str());
                    self.set_subgenre(genre_ans);
                    let mut tags: Vec<String> = Vec::new();
                    tags.push(slug(labels[0].as_str()));
                    tags.push(slug(genre_ans));
                    proof {
                        let ls = spec_genre_list(t@, g@, spec_slug(genre_ans@));
                        assert(labels@[0]@ == labels.deep_view()[0]);
                        assert(tags.deep_view() =~= seq![
                            spec_slug(ls[0]),
                            spec_slug(genre_ans@),
                        ]);
                    }
                    ChoiceStep::Done(default_post_with_tags(tags))
                } else {
                    ChoiceStep::NeedParentSelect(labels)
                }
            },
        }
    }
}

/// How a selection prompt ended when it did not yield an answer.
pub enum SelectError {
    /// The user escaped out of the prompt.
    Cancelled,
    /// The user forcibly aborted the prompt.
    Interrupted,
}

/// Which selection prompt of the browsing dialog failed.
pub enum PromptKind {
    /// The top genre prompt.
    GenrePrompt,
    /// Either sub-genre prompt.
    SubgenrePrompt,
    /// The "which genre?" disambiguation prompt.
    ParentPrompt,
}

/// What the browsing dialog does about a failed prompt: give up with an
/// error, or offer the genre list again.
pub enum ErrorAction {
    Fatal(crate::models::bc_error::BcradioError),
    RetryLoop,
}

/// The dialog's error policy: a forced abort is always fatal; escaping the
/// genre or disambiguation prompt cancels the dialog; escaping a sub-genre
/// prompt starts the dialog over.
pub fn choice_error_action(kind: &PromptKind, e: &SelectError) -> (r: ErrorAction)
    ensures
        (match (kind, e) {
            (PromptKind::GenrePrompt, SelectError::Cancelled) => r == ErrorAction::Fatal(
                crate::models::bc_error::BcradioError::Cancel,
            ),
            (PromptKind::ParentPrompt, SelectError::Cancelled) => r == ErrorAction::Fatal(
                crate::models::bc_error::BcradioError::Cancel,
            ),
            (PromptKind::SubgenrePrompt, SelectError::Cancelled) => r is RetryLoop,
            (_, SelectError::Interrupted) => r == ErrorAction::Fatal(
                crate::models::bc_error::BcradioError::OperationInterrupted,
            ),
        }),
{
    match (kind, e) {
        (PromptKind::SubgenrePrompt, SelectError::Cancelled) => ErrorAction::RetryLoop,
        (_, SelectError::Interrupted) => ErrorAction::Fatal(
            crate::models::bc_error::BcradioError::OperationInterrupted,
        ),
        (_, SelectError::Cancelled) => ErrorAction::Fatal(
            crate::models::bc_error::BcradioError::Cancel,
        ),
    }
}

/// The queue entry a related tag becomes in the sub-genre menu.
pub open spec fn spec_element_from_tag(
    t: crate::models::bc_discover_tags::RelatedTagsView,
) -> ElementView {
    ElementView { id: t.id, label: t.name, slug: t.norm_name, selected: None, parent_slug: None }
}

/// Turns a related-tags block into sub-genre menu entries.
pub fn elements_from_related_tags(s: &crate::models::bc_discover_tags::Struct) -> (r: Vec<Element>)
    ensures
        r@.len() == s.related_tags@.len(),
        forall|i: int|
            0 <= i < r@.len() ==> (#[trigger] r@[i])@ == spec_element_from_tag(
                s.related_tags@[i]@,
            ),
{
    let mut r: Vec<Element> = Vec::new();
    let mut i: usize = 0;
    while i < s.related_tags.len()
        invariant
            i <= s.related_tags@.len(),
            r@.len() == i as int,
            forall|j: int|
                0 <= j < i as int ==> (#[trigger] r@[j])@ == spec_element_from_tag(
                    s.related_tags@[j]@,
                ),
        decreases s.related_tags@.len() - i,
    {
        let t = &s.related_tags[i];
        let e = Element {
            id: t.id,
            label: t.name.clone(),
            slug: t.norm_name.clone(),
            selected: None,
            parent_slug: None,
        };
        proof {
            assert(e@ =~= spec_element_from_tag(s.related_tags@[i as int]@));
        }
        r.push(e);
        i = i + 1;
    }
    r
}

/// The sub-genre menu built from a free tag's related tags: empty when the
/// endpoint knew none, else the `all "<answer>"` row followed by the related
/// tags; the tag list so far holds the slugged answer alone.
pub fn choice_related_options(genre_ans: &str, related: Vec<Element>) -> (r: (
    Vec<Element>,
    Vec<String>,
))
    ensures
        related@.len() == 0 ==> r.0@.len() == 0,
        related@.len() > 0 ==> {
            &&& r.0@.len() == related@.len() + 1
            &&& r.0@[0]@ == all_entry(genre_ans@)
            &&& (forall|j: int|
                0 <= j < related@.len() ==> (#[trigger] r.0@[j + 1]) == related@[j])
        },
        r.1.deep_view() == seq![spec_slug(genre_ans@)],
{
    let mut tags: Vec<String> = Vec::new();
    tags.push(slug(genre_ans));
    proof {
        assert(tags.deep_view() =~= seq![spec_slug(genre_ans@)]);
    }
    if related.is_empty() {
        (Vec::new(), tags)
    } else {
        let mut opts: Vec<Element> = Vec::new();
        opts.push(all_entry_exec(genre_ans));
        let mut related = related;
        let ghost rel0 = related@;
        opts.append(&mut related);
        proof {
            assert(opts@ =~= seq![opts@[0]] + rel0);
        }
        (opts, tags)
    }
}

impl SharedState {
    /// Settles the context after a sub-genre prompt was answered. When the
    /// dialog came through the related-tags path the recorded sub-genre is
    /// reset first. An `all ...` answer keeps the tags gathered so far; any
    /// other answer adds its slug and is recorded as the sub-genre.
    pub fn choice_after_subgenre(
        &mut self,
        tags: Vec<String>,
        choice: &str,
        reset_sub: bool,
    ) -> (r: PostData)
        ensures
            final(self).queue() == old(self).queue(),
            final(self).current() == old(self).current(),
            final(self).post() == old(self).post(),
            final(self).state.player.genre == old(self).state.player.genre,
            final(self).state.player.genres == old(self).state.player.genres,
            final(self).state.player.subgenres == old(self).state.player.subgenres,
            server_unchanged(*old(self), *final(self)),
            (if !spec_starts_with(choice@, "all"@) {
                &&& r@ == default_post_view(tags.deep_view() + seq![spec_slug(choice@)])
                &&& final(self).state.player.subgenre@ == choice@
            } else {
                &&& r@ == default_post_view(tags.deep_view())
                &&& (if reset_sub {
                    final(self).state.player.subgenre@ == Seq::<char>::empty()
                } else {
                    final(self).state.player.subgenre == old(self).state.player.subgenre
                })
            }),
    {
        if reset_sub {
            self.set_subgenre("");
            proof {
                reveal_strlit("");
                assert(""@ =~= Seq::<char>::empty());
            }
        }
        let mut tags = tags;
        let ghost tags0 = tags.deep_view();
        if !starts_with_str(choice, "all") {
            tags.push(slug(choice));
            self.set_subgenre(choice);
            proof {
                assert(tags.deep_view() =~= tags0 + seq![spec_slug(choice@)]);
            }
        }
        default_post_with_tags(tags)
    }

    /// Settles the context after the "which genre?" prompt: the chosen
    /// parent becomes the genre, the original answer the sub-genre, and the
    /// context browses both slugs.
    pub fn choice_after_parent(&mut self, genre_ans: &str, parent: &str) -> (r: PostData)
        ensures
            final(self).queue() == old(self).queue(),
            final(self).current() == old(self).current(),
            final(self).post() == old(self).post(),
            final(self).state.player.genres == old(self).state.player.genres,
            final(self).state.player.subgenres == old(self).state.player.subgenres,
            server_unchanged(*old(self), *final(self)),
            final(self).state.player.genre@ == parent@,
            final(self).state.player.subgenre@ == genre_ans@,
            r@ == default_post_view(seq![spec_slug(parent@), spec_slug(genre_ans@)]),
    {
        self.set_genre(parent);
        self.set_subgenre(genre_ans);
        let mut tags: Vec<String> = Vec::new();
        tags.push(slug(parent));
        tags.push(slug(genre_ans));
        proof {
            assert(tags.deep_view() =~= seq![spec_slug(parent@), spec_slug(genre_ans@)]);
        }
        default_post_with_tags(tags)
    }

    /// Installs a freshly fetched genre tree and offers it: the `all genres`
    /// row is put before the genres, the tree is cached, and the recorded
    /// sub-genre is reset. Without a fresh tree the cached one is offered.
    pub fn prepare_genre_lists(
        &mut self,
        fetched: Option<crate::models::bc_discover_index::InitialState>,
    ) -> (r: (Vec<Element>, Vec<Element>))
        ensures
            final(self).queue() == old(self).queue(),
            final(self).current() == old(self).current(),
            final(self).post() == old(self).post(),
            server_unchanged(*old(self), *final(self)),
            final(self).state.player.genre == old(self).state.player.genre,
            (match fetched {
                Some(st) => {
                    &&& r.0@.len() == st.genres@.len() + 1
                    &&& r.0@[0]@ == (ElementView {
                        id: 0,
                        label: "all genres"@,
                        slug: Seq::empty(),
                        selected: None,
                        parent_slug: None,
                    })
                    &&& (forall|i: int|
                        0 <= i < st.genres@.len() ==> (#[trigger] r.0@[i + 1]) == st.genres@[i])
                    &&& r.1@ == st.subgenres@
                    &&& final(self).state.player.genres@.len() == r.0@.len()
                    &&& (forall|i: int|
                        0 <= i < r.0@.len()
                            ==> (#[trigger] final(self).state.player.genres@[i])@ == r.0@[i]@)
                    &&& final(self).state.player.subgenres@.len() == r.1@.len()
                    &&& (forall|i: int|
                        0 <= i < r.1@.len()
                            ==> (#[trigger] final(self).state.player.subgenres@[i])@ == r.1@[i]@)
                    &&& final(self).state.player.subgenre@ == Seq::<char>::empty()
                },
                None => {
                    &&& *final(self) == *old(self)
                    &&& r.0@.len() == old(self).state.player.genres@.len()
                    &&& (forall|i: int|
                        0 <= i < r.0@.len() ==> (#[trigger] r.0@[i])@
                            == old(self).state.player.genres@[i]@)
                    &&& r.1@.len() == old(self).state.player.subgenres@.len()
                    &&& (forall|i: int|
                        0 <= i < r.1@.len() ==> (#[trigger] r.1@[i])@
                            == old(self).state.player.subgenres@[i]@)
                },
            }),
    {
        match fetched {
            Some(st) => {
                self.set_subgenre("");
                proof {
                    reveal_strlit("");
                    assert(""@ =~= Seq::<char>::empty());
                }
                let mut st = st;
                let mut g: Vec<Element> = Vec::new();
                let mut all_label: Vec<char> = Vec::new();
                push_str_chars("all genres", &mut all_label);
                let all = Element {
                    id: 0,
                    label: chars_to_string(&all_label),
                    slug: String::new(),
                    selected: None,
                    parent_slug: None,
                };
                proof {
                    assert(all@ =~= (ElementView {
                        id: 0,
                        label: "all genres"@,
                        slug: Seq::empty(),
                        selected: None,
                        parent_slug: None,
                    }));
                }
                g.push(all);
                let ghost g0 = g@;
                let ghost fg = st.genres@;
                g.append(&mut st.genres);
                proof {
                    assert(g@ =~= g0 + fg);
                }
                let t = st.subgenres;
                self.save_genres(clone_elements(&g), clone_elements(&t));
                (g, t)
            },
            None => {
                self.get_genres()
            },
        }
    }
}

} // verus!
