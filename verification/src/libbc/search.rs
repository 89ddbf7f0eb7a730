//! Free-word search: the request sent to the search endpoint, what is kept
//! of its results, and the score-ordered injection of found tracks into the
//! queue. The fuzzy scorer itself is an external collaborator: the library
//! takes its scores as integers in thousandths and orders tracks by them.

use vstd::prelude::*;
use crate::libbc::shared_data::SharedState;
use crate::libbc::strutil::{starts_with_str, str_chars};
use crate::models::search_models::{SearchItemView, SearchJsonRequest, SearchJsonResponse};
use crate::models::shared_data_models::{Track, TrackView};

verus! {

impl SharedState {
    /// What a search searches for: the given text, or the playing track's
    /// artist when none was given.
    pub fn search_seed(&self, search_text: Option<String>) -> (r: String)
        ensures
            (match search_text {
                Some(s) => r@ == s@,
                None => r@ == self.current()@.artist_name,
            }),
    {
        match search_text {
            Some(s) => s,
            None => self.state.player.current_track.artist_name.clone(),
        }
    }
}

/// Builds the body sent to the search endpoint: a track-filtered,
/// single-page query.
pub fn build_search_request(search_text: String) -> (r: SearchJsonRequest)
    ensures
        r.search_text@ == search_text@,
        r.search_filter@ == "t"@,
        r.full_page == false,
        r.fan_id is None,
{
    SearchJsonRequest {
        search_text,
        search_filter: "t".to_owned(),
        full_page: false,
        fan_id: None,
    }
}

/// The page URLs of the hits that have one, in order.
pub open spec fn spec_item_urls(items: Seq<SearchItemView>) -> Seq<Seq<char>>
    decreases items.len(),
{
    if items.len() == 0 {
        Seq::empty()
    } else {
        (match items[0].item_url_path {
            Some(u) => seq![u],
            None => Seq::empty(),
        }) + spec_item_urls(items.skip(1))
    }
}

/// At most the first ten of the hit URLs.
pub open spec fn spec_take_urls(all: Seq<Seq<char>>) -> Seq<Seq<char>> {
    if all.len() > 10 {
        all.take(10)
    } else {
        all
    }
}

/// The page URLs to fetch for a search response: every hit that carries a
/// URL, in order, capped at ten.
pub fn collect_item_urls(res: &SearchJsonResponse) -> (r: Vec<String>)
    ensures
        r.deep_view() == spec_take_urls(spec_item_urls(res.auto.results.deep_view())),
{
    let items = &res.auto.results;
    let ghost iv = items.deep_view();
    let mut r: Vec<String> = Vec::new();
    let mut i: usize = 0;
    proof {
        assert(iv.skip(0) =~= iv);
    }
    while i < items.len()
        invariant
            i <= items@.len(),
            iv == items.deep_view(),
            iv.len() == items@.len(),
            spec_item_urls(iv) == r.deep_view() + spec_item_urls(iv.skip(i as int)),
        decreases items@.len() - i,
    {
        proof {
            assert(iv.skip(i as int)[0] == iv[i as int]);
            assert(iv.skip(i as int).skip(1) =~= iv.skip(i + 1));
            assert(iv[i as int] == items@[i as int]@);
        }
        match &items[i].item_url_path {
            Some(u) => {
                let ghost before = r.deep_view();
                r.push(u.clone());
                proof {
                    assert(r.deep_view() =~= before.push(u@));
                }
            },
            None => {},
        }
        i = i + 1;
        proof {
            assert(spec_item_urls(iv) =~= r.deep_view() + spec_item_urls(iv.skip(i as int)));
        }
    }
    proof {
        assert(spec_item_urls(iv) =~= r.deep_view());
    }
    if r.len() > 10 {
        let ghost before = r.deep_view();
        r.truncate(10);
        proof {
            assert(r.deep_view() =~= before.take(10));
        }
    }
    r
}

/// Whether some track of `s` belongs to band `id`.
pub open spec fn band_in(s: Seq<TrackView>, id: i64) -> bool {
    exists|j: int| 0 <= j < s.len() && (#[trigger] s[j]).band_id == id
}

/// Whether some track of the vector belongs to band `id`.
fn has_band(v: &Vec<Track>, id: i64) -> (r: bool)
    ensures
        r == band_in(v.deep_view(), id),
{
    let mut i: usize = 0;
    while i < v.len()
        invariant
            i <= v@.len(),
            forall|j: int| 0 <= j < i as int ==> (#[trigger] v.deep_view()[j]).band_id != id,
        decreases v@.len() - i,
    {
        if v[i].band_id == id {
            proof {
                assert(v.deep_view()[i as int].band_id == id);
            }
            return true;
        }
        i = i + 1;
    }
    false
}

/// The hits of `s` kept by first occurrence of their band, given the bands
/// already seen.
pub open spec fn spec_uniq(s: Seq<TrackView>, seen: Seq<TrackView>) -> Seq<TrackView>
    decreases s.len(),
{
    if s.len() == 0 {
        Seq::empty()
    } else if band_in(seen, s[0].band_id) {
        spec_uniq(s.skip(1), seen)
    } else {
        seq![s[0]] + spec_uniq(s.skip(1), seen.push(s[0]))
    }
}

/// One track per band, by first occurrence: the entries offered when a
/// search finds several distinct artists.
pub fn unique_band_tracks(v: &Vec<Track>) -> (r: Vec<Track>)
    ensures
        r.deep_view() == spec_uniq(v.deep_view(), Seq::empty()),
{
    let ghost vv = v.deep_view();
    let mut r: Vec<Track> = Vec::new();
    let mut i: usize = 0;
    proof {
        assert(vv.skip(0) =~= vv);
        assert(r.deep_view() =~= Seq::<TrackView>::empty());
    }
    while i < v.len()
        invariant
            i <= v@.len(),
            vv == v.deep_view(),
            vv.len() == v@.len(),
            spec_uniq(vv, Seq::empty()) == r.deep_view() + spec_uniq(
                vv.skip(i as int),
                r.deep_view(),
            ),
        decreases v@.len() - i,
    {
        proof {
            assert(vv.skip(i as int)[0] == vv[i as int]);
            assert(vv.skip(i as int).skip(1) =~= vv.skip(i + 1));
            assert(vv[i as int] == v@[i as int]@);
        }
        if !has_band(&r, v[i].band_id) {
            let ghost before = r.deep_view();
            r.push(v[i].clone());
            proof {
                assert(r.deep_view() =~= before.push(vv[i as int]));
            }
        }
        i = i + 1;
        proof {
            assert(spec_uniq(vv, Seq::empty()) =~= r.deep_view() + spec_uniq(
                vv.skip(i as int),
                r.deep_view(),
            ));
        }
    }
    proof {
        assert(spec_uniq(vv, Seq::empty()) =~= r.deep_view());
    }
    r
}

/// Whether `a` is one of the chosen artist names.
pub open spec fn artist_chosen(chosen: Seq<Seq<char>>, a: Seq<char>) -> bool {
    exists|j: int| 0 <= j < chosen.len() && #[trigger] chosen[j] == a
}

/// Whether the artist name is one of the chosen names.
fn is_chosen(chosen: &Vec<String>, a: &String) -> (r: bool)
    ensures
        r == artist_chosen(chosen.deep_view(), a@),
{
    let mut i: usize = 0;
    while i < chosen.len()
        invariant
            i <= chosen@.len(),
            forall|j: int| 0 <= j < i as int ==> #[trigger] chosen.deep_view()[j] != a@,
        decreases chosen@.len() - i,
    {
        if chosen[i].eq(a) {
            proof {
                assert(chosen.deep_view()[i as int] == a@);
            }
            return true;
        }
        i = i + 1;
    }
    false
}

/// The entries of `u` whose artist was chosen.
pub open spec fn spec_filter_artists(u: Seq<TrackView>, chosen: Seq<Seq<char>>) -> Seq<TrackView>
    decreases u.len(),
{
    if u.len() == 0 {
        Seq::empty()
    } else {
        (if artist_chosen(chosen, u[0].artist_name) {
            seq![u[0]]
        } else {
            Seq::empty()
        }) + spec_filter_artists(u.skip(1), chosen)
    }
}

/// The tracks of `s` whose band appears in `keep`.
pub open spec fn spec_filter_bands(s: Seq<TrackView>, keep: Seq<TrackView>) -> Seq<TrackView>
    decreases s.len(),
{
    if s.len() == 0 {
        Seq::empty()
    } else {
        (if band_in(keep, s[0].band_id) {
            seq![s[0]]
        } else {
            Seq::empty()
        }) + spec_filter_bands(s.skip(1), keep)
    }
}

/// Narrows search results to the artists picked in the disambiguation
/// dialog: of the one-per-band entries, those whose artist was chosen name
/// the bands to keep, and every result of those bands stays, in order.
pub fn filter_search_results(v: Vec<Track>, uniq: &Vec<Track>, chosen: &Vec<String>) -> (r: Vec<
    Track,
>)
    ensures
        r.deep_view() == spec_filter_bands(
            v.deep_view(),
            spec_filter_artists(uniq.deep_view(), chosen.deep_view()),
        ),
{
    let ghost uv = uniq.deep_view();
    let mut keep: Vec<Track> = Vec::new();
    let mut i: usize = 0;
    proof {
        assert(uv.skip(0) =~= uv);
        assert(keep.deep_view() =~= Seq::<TrackView>::empty());
    }
    while i < uniq.len()
        invariant
            i <= uniq@.len(),
            uv == uniq.deep_view(),
            uv.len() == uniq@.len(),
            spec_filter_artists(uv, chosen.deep_view()) == keep.deep_view()
                + spec_filter_artists(uv.skip(i as int), chosen.deep_view()),
        decreases uniq@.len() - i,
    {
        proof {
            assert(uv.skip(i as int)[0] == uv[i as int]);
            assert(uv.skip(i as int).skip(1) =~= uv.skip(i + 1));
            assert(uv[i as int] == uniq@[i as int]@);
        }
        if is_chosen(chosen, &uniq[i].artist_name) {
            let ghost before = keep.deep_view();
            keep.push(uniq[i].clone());
            proof {
                assert(keep.deep_view() =~= before.push(uv[i as int]));
            }
        }
        i = i + 1;
        proof {
            assert(spec_filter_artists(uv, chosen.deep_view()) =~= keep.deep_view()
                + spec_filter_artists(uv.skip(i as int), chosen.deep_view()));
        }
    }
    proof {
        assert(spec_filter_artists(uv, chosen.deep_view()) =~= keep.deep_view());
    }
    let ghost vv = v.deep_view();
    let mut r: Vec<Track> = Vec::new();
    let mut i: usize = 0;
    proof {
        assert(vv.skip(0) =~= vv);
        assert(r.deep_view() =~= Seq::<TrackView>::empty());
    }
    while i < v.len()
        invariant
            i <= v@.len(),
            vv == v.deep_view(),
            vv.len() == v@.len(),
            spec_filter_bands(vv, keep.deep_view()) == r.deep_view() + spec_filter_bands(
                vv.skip(i as int),
                keep.deep_view(),
            ),
        decreases v@.len() - i,
    {
        proof {
            assert(vv.skip(i as int)[0] == vv[i as int]);
            assert(vv.skip(i as int).skip(1) =~= vv.skip(i + 1));
            assert(vv[i as int] == v@[i as int]@);
        }
        if has_band(&keep, v[i].band_id) {
            let ghost before = r.deep_view();
            r.push(v[i].clone());
            proof {
                assert(r.deep_view() =~= before.push(vv[i as int]));
            }
        }
        i = i + 1;
        proof {
            assert(spec_filter_bands(vv, keep.deep_view()) =~= r.deep_view() + spec_filter_bands(
                vv.skip(i as int),
                keep.deep_view(),
            ));
        }
    }
    proof {
        assert(spec_filter_bands(vv, keep.deep_view()) =~= r.deep_view());
    }
    r
}

/// A result's score: the artist's fuzzy score when it matched at all, else
/// nine tenths of the title's. Scores are in thousandths of a full match.
pub fn score_of(artist_score: u32, track_score: u32) -> (r: u32)
    requires
        artist_score <= 1000,
        track_score <= 1000,
    ensures
        artist_score != 0 ==> r == artist_score,
        artist_score == 0 ==> r == track_score * 9 / 10,
{
    if artist_score != 0 {
        artist_score
    } else {
        track_score * 9 / 10
    }
}

/// `x` placed after every entry of `s` whose score is at most its own: the
/// stable ascending insertion.
pub open spec fn insert_sorted(s: Seq<(u32, TrackView)>, x: (u32, TrackView)) -> Seq<
    (u32, TrackView),
>
    decreases s.len(),
{
    if s.len() == 0 {
        seq![x]
    } else if s.last().0 <= x.0 {
        s.push(x)
    } else {
        insert_sorted(s.drop_last(), x).push(s.last())
    }
}

/// The stable ascending sort of score/track pairs by score.
pub open spec fn spec_sort_pairs(s: Seq<(u32, TrackView)>) -> Seq<(u32, TrackView)>
    decreases s.len(),
{
    if s.len() == 0 {
        Seq::empty()
    } else {
        insert_sorted(spec_sort_pairs(s.drop_last()), s.last())
    }
}

/// Scores paired with track values, index by index.
pub open spec fn spec_zip(scores: Seq<u32>, tracks: Seq<TrackView>) -> Seq<(u32, TrackView)> {
    Seq::new(tracks.len(), |i: int| (scores[i], tracks[i]))
}

/// The tracks of a pair sequence, in order.
pub open spec fn seconds_of(s: Seq<(u32, TrackView)>) -> Seq<TrackView> {
    Seq::new(s.len(), |i: int| s[i].1)
}

/// The value of an executable pair vector.
pub open spec fn pairs_view(s: Seq<(u32, Track)>) -> Seq<(u32, TrackView)> {
    Seq::new(s.len(), |i: int| (s[i].0, s[i].1@))
}

/// Orders search results by ascending score, stably, so that pushing them
/// one by one onto the queue's front leaves the best-scoring result first.
/// `scores[i]` is the fuzzy score of `v[i]`.
pub fn score_sort(v: Vec<Track>, scores: &Vec<u32>) -> (r: Vec<Track>)
    requires
        v@.len() == scores@.len(),
    ensures
        r.deep_view() == seconds_of(spec_sort_pairs(spec_zip(scores@, v.deep_view()))),
{
    let ghost v0 = v.deep_view();
    let ghost z = spec_zip(scores@, v.deep_view());
    let n_exec = v.len();
    let ghost n = n_exec as int;
    let mut v = v;
    let mut res: Vec<(u32, Track)> = Vec::new();
    let mut k: usize = 0;
    proof {
        assert(pairs_view(res@) =~= spec_sort_pairs(z.take(0)));
    }
    while v.len() > 0
        invariant
            n == n_exec as int,
            0 <= k as int <= n,
            v@.len() == n - k as int,
            scores@.len() == n,
            z.len() == n,
            forall|j: int| 0 <= j < v@.len() ==> (#[trigger] v@[j])@ == v0[j + k as int],
            forall|j: int| 0 <= j < n ==> #[trigger] z[j] == (scores@[j], v0[j]),
            pairs_view(res@) == spec_sort_pairs(z.take(k as int)),
            res@.len() == k as int,
        decreases v@.len(),
    {
        let t = v.remove(0);
        let key = scores[k];
        let ghost s0 = pairs_view(res@);
        let ghost xv = z[k as int];
        proof {
            assert(t@ == v0[k as int]);
            assert(xv == (scores@[k as int], t@));
            assert(forall|j: int|
                0 <= j < v@.len() ==> (#[trigger] v@[j])@ == v0[j + (k as int + 1)]);
        }
        let mut j: usize = res.len();
        proof {
            assert(s0.take(j as int) =~= s0);
            assert(s0.skip(j as int) =~= Seq::<(u32, TrackView)>::empty());
            assert(insert_sorted(s0, xv) =~= insert_sorted(s0.take(j as int), xv) + s0.skip(
                j as int,
            ));
        }
        while j > 0 && res[j - 1].0 > key
            invariant
                j <= res@.len(),
                s0 == pairs_view(res@),
                key == xv.0,
                insert_sorted(s0, xv) == insert_sorted(s0.take(j as int), xv) + s0.skip(j as int),
            decreases j,
        {
            proof {
                assert(s0.take(j as int).last() == s0[j - 1]);
                assert(s0[j - 1].0 == res@[j - 1].0);
                assert(s0.take(j as int).drop_last() =~= s0.take(j - 1));
                assert(s0.skip(j - 1) =~= seq![s0[j - 1]] + s0.skip(j as int));
                assert((insert_sorted(s0.take(j - 1), xv).push(s0[j - 1])) + s0.skip(j as int)
                    =~= insert_sorted(s0.take(j - 1), xv) + s0.skip(j - 1));
            }
            j = j - 1;
        }
        proof {
            if j > 0 {
                assert(s0.take(j as int).last() == s0[j - 1]);
                assert(s0[j - 1].0 == res@[j - 1].0);
                assert(insert_sorted(s0.take(j as int), xv) == s0.take(j as int).push(xv));
            } else {
                assert(s0.take(0).len() == 0);
                assert(insert_sorted(s0.take(0), xv) =~= seq![xv]);
            }
            assert(insert_sorted(s0, xv) =~= s0.take(j as int).push(xv) + s0.skip(j as int));
        }
        res.insert(j, (key, t));
        k = k + 1;
        proof {
            assert(z.take(k as int).drop_last() =~= z.take(k as int - 1));
            assert(z.take(k as int).last() == z[k as int - 1]);
            assert(pairs_view(res@) =~= s0.take(j as int).push(xv) + s0.skip(j as int));
            assert(pairs_view(res@) == spec_sort_pairs(z.take(k as int)));
        }
    }
    proof {
        assert(z.take(n) =~= z);
    }
    let mut out: Vec<Track> = Vec::new();
    let mut i: usize = 0;
    while i < res.len()
        invariant
            i <= res@.len(),
            pairs_view(res@) == spec_sort_pairs(z),
            out@.len() == i as int,
            forall|j: int| 0 <= j < i as int ==> (#[trigger] out@[j])@ == spec_sort_pairs(z)[j].1,
        decreases res@.len() - i,
    {
        out.push(res[i].1.clone());
        i = i + 1;
        proof {
            assert(pairs_view(res@)[i - 1].1 == res@[i - 1].1@);
        }
    }
    proof {
        assert(out.deep_view() =~= seconds_of(spec_sort_pairs(z)));
    }
    out
}

/// The origin of a URL: the scheme and host, cut before the first path
/// separator that follows a web scheme prefix; a URL without such a prefix
/// or without a path is kept whole.
pub open spec fn spec_base_url(s: Seq<char>) -> Seq<char> {
    let scheme: int = if crate::libbc::playlist::spec_starts_with(s, "https://"@) {
        8
    } else if crate::libbc::playlist::spec_starts_with(s, "http://"@) {
        7
    } else {
        -1
    };
    if scheme == -1 {
        s
    } else {
        let j = first_slash_from(s, scheme);
        if j == -1 {
            s
        } else {
            s.take(j)
        }
    }
}

/// The first path separator at or after `i`, or none.
pub open spec fn first_slash_from(s: Seq<char>, i: int) -> int
    decreases s.len() - i,
{
    if i < 0 || i >= s.len() {
        -1
    } else if s[i] == '/' {
        i
    } else {
        first_slash_from(s, i + 1)
    }
}

/// Cuts an item URL down to its origin.
pub fn base_url(item_url: &str) -> (r: String)
    ensures
        r@ == spec_base_url(item_url@),
{
    let v = str_chars(item_url);
    proof {
        reveal_strlit("https://");
        reveal_strlit("http://");
    }
    let scheme: usize = if starts_with_str(item_url, "https://") {
        8
    } else if starts_with_str(item_url, "http://") {
        7
    } else {
        return item_url.to_owned();
    };
    let mut i: usize = scheme;
    while i < v.len() && v[i] != '/'
        invariant
            scheme <= i <= v@.len(),
            v@ == item_url@,
            first_slash_from(item_url@, scheme as int) == first_slash_from(item_url@, i as int),
        decreases v@.len() - i,
    {
        i = i + 1;
    }
    if i >= v.len() {
        return item_url.to_owned();
    }
    let mut out: Vec<char> = Vec::new();
    let mut k: usize = 0;
    while k < i
        invariant
            k <= i <= v@.len(),
            v@ == item_url@,
            out@ == item_url@.take(k as int),
        decreases i - k,
    {
        out.push(v[k]);
        k = k + 1;
        proof {
            assert(out@ =~= item_url@.take(k as int));
        }
    }
    crate::libbc::strutil::chars_to_string(&out)
}

} // verus!
