use bcradio::libbc::shared_data::SharedState;
use bcradio::models::shared_data_models::{ResultsJson, Track};
use std::collections::VecDeque;

fn track(title: &str, url: &str, buffer: Vec<u8>) -> Track {
    Track {
        album_title: format!("{} album", title),
        artist_name: format!("{} artist", title),
        art_id: Some(7),
        band_id: 42,
        url: url.to_string(),
        duration: 100,
        track: title.to_string(),
        buffer,
        results: ResultsJson::Empty,
        genre: None,
        subgenre: None,
    }
}

#[test]
fn queue_length_follows_operations() {
    let mut s = SharedState::new();
    assert_eq!(s.queue_length_from_truck_list(), 0);
    let mut page = VecDeque::new();
    page.push_back(track("a", "http://x/a", vec![]));
    page.push_back(track("b", "http://x/b", vec![]));
    s.append_tracklist(page);
    assert_eq!(s.queue_length_from_truck_list(), 2);
    s.push_front_tracklist(track("c", "http://x/c", vec![]));
    assert_eq!(s.queue_length_from_truck_list(), 3);
    assert_eq!(s.get_track_url(0), "http://x/c");
    s.move_to_current_track(1700000000);
    assert_eq!(s.queue_length_from_truck_list(), 2);
    assert_eq!(s.get_current_track_info().track, "c");
    assert_eq!(s.get_current_track_info().play_date, 1700000000);
    assert_eq!(s.get_track_url(0), "http://x/a");
}

#[test]
fn stale_buffer_write_is_dropped() {
    let mut s = SharedState::new();
    let mut page = VecDeque::new();
    page.push_back(track("a", "http://x/a", vec![]));
    s.append_tracklist(page);
    s.set_track_buffer("http://gone/elsewhere", vec![1, 2, 3], 9);
    assert_eq!(s.queue_length_from_truck_list(), 1);
    assert!(!s.exists_track_buffer(0));
    assert_eq!(s.get_track_buffer(0), Vec::<u8>::new());
    assert_eq!(s.get_tracklist()[0].duration, 100);
}

#[test]
fn buffer_write_hits_first_matching_url() {
    let mut s = SharedState::new();
    let mut page = VecDeque::new();
    page.push_back(track("a", "http://x/a", vec![]));
    page.push_back(track("b", "http://x/b", vec![]));
    s.append_tracklist(page);
    s.set_track_buffer("http://x/b", vec![5, 6], 77);
    assert!(!s.exists_track_buffer(0));
    assert!(s.exists_track_buffer(1));
    assert_eq!(s.get_track_buffer(1), vec![5, 6]);
    assert_eq!(s.get_tracklist()[1].duration, 77);
    assert_eq!(s.get_buffer_set_queue_length(), 1);
}

#[test]
fn drain_keeps_selected_line_as_head() {
    let mut s = SharedState::new();
    let mut page = VecDeque::new();
    for (t, u) in [("a", "u/a"), ("b", "u/b"), ("c", "u/c")] {
        page.push_back(track(t, u, vec![]));
    }
    s.append_tracklist(page);
    s.drain_tracklist(3);
    assert_eq!(s.queue_length_from_truck_list(), 1);
    assert_eq!(s.get_track_url(0), "u/c");
}

#[test]
fn genre_context_round_trips() {
    let mut s = SharedState::new();
    s.set_genre("electronic");
    s.set_subgenre("ambient");
    assert_eq!(s.get_genre(), "electronic");
    assert_eq!(s.get_subgenre(), "ambient");
    let p = s.next_post();
    assert_eq!(p.cursor.as_deref(), Some("*"));
    assert_eq!(p.size, 60);
    assert_eq!(p.slice, "rand");
    assert_eq!(p.include_result_types, vec!["a".to_string()]);
}

#[test]
fn clear_and_insert() {
    let mut s = SharedState::new();
    let mut page = VecDeque::new();
    page.push_back(track("a", "u/a", vec![]));
    s.append_tracklist(page);
    s.insert_tracklist(0, track("z", "u/z", vec![]));
    assert_eq!(s.get_track_url(0), "u/z");
    s.clear_all_tracklist();
    assert_eq!(s.queue_length_from_truck_list(), 0);
}
