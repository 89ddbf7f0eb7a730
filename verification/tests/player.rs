use bcradio::libbc::player::{
    apply_command, complete_buffer_fetch, dialog_session, dispatch_command, enqueue_truck_buffer,
    map_volume_to_sink_volume, park_lock, park_unlock, play, route_key, BufferAction,
    CommandEffect, Dialog, DialogExit, KeyRoute, PlaybackContext,
};
use bcradio::libbc::shared_data::SharedState;
use bcradio::libbc::sink::{Mp3, SinkModel};
use bcradio::models::bc_error::BcradioError;
use bcradio::models::search_models::{Current, ItemPage};
use bcradio::models::shared_data_models::{ResultsJson, Track};
use std::collections::VecDeque;

fn track(title: &str, url: &str, buffer: Vec<u8>) -> Track {
    Track {
        album_title: String::new(),
        artist_name: format!("{} artist", title),
        art_id: None,
        band_id: 1,
        url: url.to_string(),
        duration: 3,
        track: title.to_string(),
        buffer,
        results: ResultsJson::Empty,
        genre: None,
        subgenre: None,
    }
}

fn state_with(tracks: Vec<Track>) -> SharedState {
    let mut s = SharedState::new();
    let mut q = VecDeque::new();
    for t in tracks {
        q.push_back(t);
    }
    s.append_tracklist(q);
    s
}

#[test]
fn trigger_buffer_is_single_flight() {
    let mut ctx = PlaybackContext::new();
    let s = state_with(vec![track("a", "u/a", vec![])]);
    let first = enqueue_truck_buffer(&mut ctx, &s);
    match first {
        BufferAction::StartFetch(u) => assert_eq!(u, "u/a"),
        BufferAction::Idle => panic!("first trigger must start a fetch"),
    }
    assert!(!ctx.enqueue_free);
    let second = enqueue_truck_buffer(&mut ctx, &s);
    assert!(matches!(second, BufferAction::Idle));
}

#[test]
fn trigger_buffer_noop_when_head_buffered() {
    let mut ctx = PlaybackContext::new();
    let s = state_with(vec![track("a", "u/a", vec![9, 9])]);
    let a = enqueue_truck_buffer(&mut ctx, &s);
    assert!(matches!(a, BufferAction::Idle));
    assert!(ctx.enqueue_free);
    assert_eq!(s.get_track_buffer(0), vec![9, 9]);
}

#[test]
fn complete_fetch_writes_and_frees_slot() {
    let mut ctx = PlaybackContext::new();
    let mut s = state_with(vec![track("a", "u/a", vec![])]);
    assert!(matches!(
        enqueue_truck_buffer(&mut ctx, &s),
        BufferAction::StartFetch(_)
    ));
    let r = complete_buffer_fetch(&mut ctx, &mut s, "u/a", vec![7, 8, 9], Some(245));
    assert!(r.is_ok());
    assert!(ctx.enqueue_free);
    assert!(s.exists_track_buffer(0));
    assert_eq!(s.get_track_buffer(0), vec![7, 8, 9]);
    assert_eq!(s.get_tracklist()[0].duration, 245);
}

#[test]
fn complete_fetch_failed_probe_is_reported() {
    let mut ctx = PlaybackContext::new();
    let mut s = state_with(vec![track("a", "u/a", vec![])]);
    let r = complete_buffer_fetch(&mut ctx, &mut s, "u/a", vec![1, 2, 3, 4], None);
    assert_eq!(r, Err(BcradioError::PhaseError));
    assert!(ctx.enqueue_free);
    assert!(!s.exists_track_buffer(0));
}

#[test]
fn tick_promotes_after_fetch() {
    // Queue [a, b], sink empty, a unbuffered: the first tick only starts the
    // fetch; once it lands, the next tick promotes a and the queue is [b].
    let mut ctx = PlaybackContext::new();
    let mut s = state_with(vec![track("a", "u/a", vec![]), track("b", "u/b", vec![])]);
    let sink_empty = true;
    assert!(matches!(s.fill_playlist_plan(), bcradio::libbc::playlist::RefillPlan::Keep));
    let a = enqueue_truck_buffer(&mut ctx, &s);
    match a {
        BufferAction::StartFetch(u) => assert_eq!(u, "u/a"),
        BufferAction::Idle => panic!("tick one must fetch the head"),
    }
    assert!(play(&mut s, sink_empty, 11).is_none());
    assert_eq!(s.queue_length_from_truck_list(), 2);

    complete_buffer_fetch(&mut ctx, &mut s, "u/a", vec![0, 0], Some(2)).unwrap();
    let played = play(&mut s, sink_empty, 12);
    assert_eq!(played, Some(vec![0, 0]));
    assert_eq!(s.get_current_track_info().track, "a");
    assert_eq!(s.get_current_track_info().play_date, 12);
    assert_eq!(s.queue_length_from_truck_list(), 1);
    assert_eq!(s.get_track_url(0), "u/b");
}

#[test]
fn volume_digit_changes_only_volume() {
    // Command `5` while playing: the sink gets (5/9)^2 of full output in
    // thousandths and nothing else moves.
    let mut ctx = PlaybackContext::new();
    let mut sink = SinkModel::new();
    sink.appended();
    let e = dispatch_command('5');
    assert!(matches!(e, CommandEffect::SetVolume(5)));
    apply_command(&e, &mut ctx, &mut sink);
    assert_eq!(sink.volume, 308);
    assert!(!sink.empty);
    assert!(!sink.paused);
}

#[test]
fn skip_stops_sink_and_next_tick_promotes() {
    // Command `n` while playing: the sink stops; the next tick's empty-sink
    // branch immediately promotes the next queued track.
    let mut ctx = PlaybackContext::new();
    let mut sink = SinkModel::new();
    sink.appended();
    let e = dispatch_command('n');
    apply_command(&e, &mut ctx, &mut sink);
    assert!(sink.empty);
    let mut s = state_with(vec![track("b", "u/b", vec![4, 4])]);
    let played = play(&mut s, sink.empty, 13);
    assert_eq!(played, Some(vec![4, 4]));
    assert_eq!(s.get_current_track_info().track, "b");
    assert_eq!(s.queue_length_from_truck_list(), 0);
}

#[test]
fn pause_toggles_sink_and_ticker() {
    let mut ctx = PlaybackContext::new();
    let mut sink = SinkModel::new();
    let e = dispatch_command('p');
    apply_command(&e, &mut ctx, &mut sink);
    assert!(sink.paused);
    assert!(!ctx.tick_enabled);
    apply_command(&e, &mut ctx, &mut sink);
    assert!(!sink.paused);
    assert!(ctx.tick_enabled);
}

#[test]
fn volume_mapping_endpoints_and_monotonic() {
    assert_eq!(map_volume_to_sink_volume(0), 0);
    assert_eq!(map_volume_to_sink_volume(9), 1000);
    let mut last = map_volume_to_sink_volume(0);
    for d in 1..=9u8 {
        let v = map_volume_to_sink_volume(d);
        assert!(v > last, "digit {} must be louder", d);
        last = v;
    }
}

#[test]
fn command_vocabulary_is_exact() {
    assert!(matches!(dispatch_command('0'), CommandEffect::SetVolume(0)));
    assert!(matches!(dispatch_command('9'), CommandEffect::SetVolume(9)));
    assert!(matches!(dispatch_command('n'), CommandEffect::StopSink));
    assert!(matches!(dispatch_command('p'), CommandEffect::TogglePause));
    assert!(matches!(dispatch_command('i'), CommandEffect::OpenInfo));
    assert!(matches!(dispatch_command('m'), CommandEffect::OpenMenu));
    assert!(matches!(dispatch_command('l'), CommandEffect::OpenPlaylist));
    assert!(matches!(dispatch_command('f'), CommandEffect::FavoriteSearch));
    assert!(matches!(dispatch_command('s'), CommandEffect::OpenSearch));
    assert!(matches!(dispatch_command('h'), CommandEffect::ShowHelp));
    assert!(matches!(dispatch_command('Q'), CommandEffect::QuitLoop));
    assert!(matches!(dispatch_command('x'), CommandEffect::Ignored));
    assert!(matches!(dispatch_command('!'), CommandEffect::Ignored));
}

#[test]
fn park_restored_after_every_dialog_exit() {
    // For all dialogs and all exit reasons, park is true afterwards.
    for di in 0..6 {
        for ei in 0..3 {
            let d = match di {
                0 => Dialog::Info,
                1 => Dialog::Menu,
                2 => Dialog::PlaylistView,
                3 => Dialog::FavoriteSearch,
                4 => Dialog::FreeSearch,
                _ => Dialog::Help,
            };
            let e = match ei {
                0 => DialogExit::Completed,
                1 => DialogExit::Cancelled,
                _ => DialogExit::Failed,
            };
            let mut ctx = PlaybackContext::new();
            ctx.park = true;
            dialog_session(&mut ctx, d, e);
            assert!(ctx.park, "park must be restored on every exit path");
        }
    }
}

#[test]
fn park_lock_and_unlock() {
    let mut ctx = PlaybackContext::new();
    assert!(!ctx.park);
    park_unlock(&mut ctx);
    assert!(ctx.park);
    park_lock(&mut ctx);
    assert!(!ctx.park);
}

#[test]
fn reader_routes_keys_by_protocol() {
    let mut ctx = PlaybackContext::new();
    ctx.park = true;
    assert!(matches!(route_key(&mut ctx, 's'), KeyRoute::Forward));
    assert!(!ctx.park, "a dialog key claims the park flag before forwarding");
    ctx.park = true;
    assert!(matches!(route_key(&mut ctx, 'n'), KeyRoute::Forward));
    assert!(ctx.park);
    assert!(matches!(route_key(&mut ctx, '7'), KeyRoute::Forward));
    assert!(matches!(route_key(&mut ctx, 'Q'), KeyRoute::ForwardAndStop));
    assert!(matches!(route_key(&mut ctx, '#'), KeyRoute::Dropped));
    ctx.park = false;
    assert!(matches!(route_key(&mut ctx, 'n'), KeyRoute::Dropped));
}

#[test]
fn mp3_load_keeps_bytes() {
    let m = Mp3::load(vec![1, 2, 3]).unwrap();
    assert_eq!(m.bytes, vec![1, 2, 3]);
}

#[test]
fn track_info_lines_for_search_payload() {
    let mut s = SharedState::new();
    let mut q = VecDeque::new();
    let mut t = track("song", "u/s", vec![1]);
    t.artist_name = "artist".to_string();
    t.album_title = "album".to_string();
    t.duration = 65;
    t.results = ResultsJson::Search(Box::new(ItemPage {
        current: Current {
            title: "album".to_string(),
            art_id: None,
            band_id: 1,
            release_date: "01 Jan 2024".to_string(),
        },
        artist: "artist".to_string(),
        trackinfo: vec![],
        album_url: Some("http://x/album".to_string()),
        item_url: None,
    }));
    q.push_back(t);
    s.append_tracklist(q);
    s.move_to_current_track(0);
    let v = s.track_info();
    assert_eq!(v[0], "");
    assert_eq!(v[1], format!(" {:>14} {}", "Artist:", "artist"));
    assert_eq!(v[2], format!(" {:>14} {}", "Album:", "album"));
    assert_eq!(v[3], format!(" {:>14} {}", "Song:", "song"));
    assert_eq!(v[4], format!(" {:>14} {}", "Duration:", "01:05"));
    assert_eq!(v[5], format!(" {:>14} {}", "Release Date:", "01 Jan 2024"));
    assert_eq!(v[6], format!(" {:>14} {}", "Album URL:", "http://x/album"));
    assert_eq!(v[7], format!(" {:>14} {}", "Item URL:", ""));
    assert_eq!(v.len(), 8);
}
