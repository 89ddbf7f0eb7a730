use bcradio::libbc::search::{
    base_url, build_search_request, collect_item_urls, filter_search_results, score_of,
    score_sort, unique_band_tracks,
};
use bcradio::libbc::shared_data::SharedState;
use bcradio::models::search_models::{Genre, Results, SearchItem, SearchJsonResponse, Tag};
use bcradio::models::shared_data_models::{ResultsJson, Track};
use std::collections::VecDeque;

fn track(title: &str, artist: &str, band_id: i64) -> Track {
    Track {
        album_title: String::new(),
        artist_name: artist.to_string(),
        art_id: None,
        band_id,
        url: format!("u/{}", title),
        duration: 0,
        track: title.to_string(),
        buffer: vec![],
        results: ResultsJson::Empty,
        genre: None,
        subgenre: None,
    }
}

fn item(band_id: i64, path: Option<&str>) -> SearchItem {
    SearchItem {
        types: "t".to_string(),
        id: band_id,
        art_id: None,
        img_id: None,
        name: "x".to_string(),
        band_id,
        band_name: None,
        album_name: None,
        item_url_root: None,
        item_url_path: path.map(|p| p.to_string()),
        img: None,
        album_id: None,
    }
}

#[test]
fn search_request_shape() {
    let r = build_search_request("query".to_string());
    assert_eq!(r.search_text, "query");
    assert_eq!(r.search_filter, "t");
    assert!(!r.full_page);
    assert!(r.fan_id.is_none());
}

#[test]
fn search_seed_falls_back_to_artist() {
    let mut s = SharedState::new();
    let mut q = VecDeque::new();
    q.push_back(track("t", "The Band", 1));
    s.append_tracklist(q);
    s.move_to_current_track(0);
    assert_eq!(s.search_seed(Some("typed".to_string())), "typed");
    assert_eq!(s.search_seed(None), "The Band");
}

#[test]
fn urls_capped_at_ten_and_skip_missing() {
    let mut items = Vec::new();
    for i in 0..12 {
        items.push(item(i, Some(&format!("u/{}", i))));
    }
    items.insert(3, item(99, None));
    let res = SearchJsonResponse {
        auto: Results { results: items, stat_params_for_tag: None, time_ms: None },
        tag: Tag {},
        genre: Genre {},
    };
    let urls = collect_item_urls(&res);
    assert_eq!(urls.len(), 10);
    assert_eq!(urls[0], "u/0");
    assert_eq!(urls[3], "u/3");
    assert_eq!(urls[9], "u/9");
}

#[test]
fn unique_keeps_first_per_band() {
    let v = vec![
        track("a1", "A", 1),
        track("b1", "B", 2),
        track("a2", "A", 1),
    ];
    let u = unique_band_tracks(&v);
    assert_eq!(u.len(), 2);
    assert_eq!(u[0].track, "a1");
    assert_eq!(u[1].track, "b1");
}

#[test]
fn chosen_artists_keep_their_bands() {
    let v = vec![
        track("a1", "A", 1),
        track("b1", "B", 2),
        track("a2", "A", 1),
    ];
    let u = unique_band_tracks(&v);
    let chosen = vec!["A".to_string()];
    let kept = filter_search_results(v, &u, &chosen);
    assert_eq!(kept.len(), 2);
    assert_eq!(kept[0].track, "a1");
    assert_eq!(kept[1].track, "a2");
}

#[test]
fn score_prefers_artist_match() {
    assert_eq!(score_of(700, 400), 700);
    assert_eq!(score_of(0, 400), 360);
    assert_eq!(score_of(0, 0), 0);
}

#[test]
fn score_sort_is_ascending_and_stable() {
    let v = vec![
        track("low", "A", 1),
        track("hi", "B", 2),
        track("mid1", "C", 3),
        track("mid2", "D", 4),
    ];
    let scores = vec![100u32, 900, 500, 500];
    let sorted = score_sort(v, &scores);
    let names: Vec<&str> = sorted.iter().map(|t| t.track.as_str()).collect();
    assert_eq!(names, vec!["low", "mid1", "mid2", "hi"]);
}

#[test]
fn base_url_cuts_at_path() {
    assert_eq!(base_url("https://band.example.com/track/x"), "https://band.example.com");
    assert_eq!(base_url("http://a.b/x"), "http://a.b");
    assert_eq!(base_url("https://no-path.example"), "https://no-path.example");
    assert_eq!(base_url("not a url"), "not a url");
}
