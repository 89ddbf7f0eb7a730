use bcradio::libbc::http_adapter::{album_item_path, top_menu_error_is_fatal, tracks_from_item_page};
use bcradio::models::bc_error::BcradioError;
use bcradio::models::search_models::{Current, ItemPage, Mp3Url, TrackInfo};
use bcradio::models::shared_data_models::ResultsJson;

fn entry(url: Option<&str>, title: Option<&str>, duration: u64) -> TrackInfo {
    TrackInfo {
        file: url.map(|u| Mp3Url { mp3_128: Some(u.to_string()) }),
        artist: None,
        title: title.map(|t| t.to_string()),
        duration,
    }
}

#[test]
fn album_path_needs_both_parts() {
    assert_eq!(album_item_path("https://a.b", "/album/x"), "https://a.b/album/x");
    assert_eq!(album_item_path("", "/album/x"), "");
    assert_eq!(album_item_path("https://a.b", ""), "");
}

#[test]
fn page_tracks_skip_fileless_entries() {
    let page = ItemPage {
        current: Current {
            title: "Album".to_string(),
            art_id: Some(4),
            band_id: 77,
            release_date: "01 Jan 2024".to_string(),
        },
        artist: "Artist".to_string(),
        trackinfo: vec![
            entry(Some("u/1"), Some("one"), 100),
            TrackInfo { file: None, artist: None, title: None, duration: 0 },
            entry(Some("u/2"), Some("two"), 200),
        ],
        album_url: None,
        item_url: Some("https://a.b/i".to_string()),
    };
    let ts = tracks_from_item_page(&page);
    assert_eq!(ts.len(), 2);
    assert_eq!(ts[0].track, "one");
    assert_eq!(ts[0].url, "u/1");
    assert_eq!(ts[0].album_title, "Album");
    assert_eq!(ts[0].artist_name, "Artist");
    assert_eq!(ts[0].band_id, 77);
    assert_eq!(ts[0].duration, 100);
    assert!(ts[0].buffer.is_empty());
    assert_eq!(ts[1].track, "two");
    match &ts[0].results {
        ResultsJson::Search(p) => assert_eq!(p.current.title, "Album"),
        _ => panic!("a search track carries its page payload"),
    }
}

#[test]
fn only_interrupts_are_fatal_in_menu() {
    assert!(top_menu_error_is_fatal(&BcradioError::OperationInterrupted));
    assert!(!top_menu_error_is_fatal(&BcradioError::InvalidUrl));
    assert!(!top_menu_error_is_fatal(&BcradioError::Cancel));
    assert!(!top_menu_error_is_fatal(&BcradioError::Quit));
}
