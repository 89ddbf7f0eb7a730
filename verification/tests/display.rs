use bcradio::libbc::args::{
    about, args_genre, args_img_size, args_list_devices, args_no_ssl_verify, args_socks,
    args_sub_genre, args_verbose_log, Args, LevelFilter,
};
use bcradio::libbc::player::PlaybackContext;
use bcradio::libbc::progress_bar::{
    destroy, get_progress_bar_current_position, get_progress_bar_progress_info,
    quit_watch_done, tick_progress_bar_progress, update_song_info_on_screen, ProgressModel,
};
use bcradio::libbc::strutil::format_duration;
use bcradio::libbc::terminal::{list_nav_step, NavKey, NavOutcome};
use bcradio::models::shared_data_models::CurrentTrack;

fn args_with(verbose: u8, img: u16) -> Args {
    Args {
        verbose,
        no_ssl_verify: false,
        img_width: img,
        proxy: None,
        genre: Some("g".to_string()),
        sub_genre: None,
        list_devices: false,
    }
}

#[test]
fn test_verbose() {
    println!("{:?}", LevelFilter::Info.to_string());
}

#[test]
fn verbose_levels_map_exactly() {
    assert_eq!(args_verbose_log(&args_with(0, 30)), LevelFilter::Off);
    assert_eq!(args_verbose_log(&args_with(1, 30)), LevelFilter::Info);
    assert_eq!(args_verbose_log(&args_with(2, 30)), LevelFilter::Debug);
    assert_eq!(args_verbose_log(&args_with(3, 30)), LevelFilter::Trace);
    assert_eq!(args_verbose_log(&args_with(9, 30)), LevelFilter::Off);
}

#[test]
fn image_width_is_clamped() {
    assert_eq!(args_img_size(&args_with(0, 5)), 10);
    assert_eq!(args_img_size(&args_with(0, 30)), 30);
    assert_eq!(args_img_size(&args_with(0, 300)), 100);
}

#[test]
fn arg_getters_read_the_record() {
    let a = args_with(0, 30);
    assert!(!args_no_ssl_verify(&a));
    assert!(args_socks(&a).is_none());
    assert_eq!(args_genre(&a).as_deref(), Some("g"));
    assert!(args_sub_genre(&a).is_none());
    assert!(!args_list_devices(&a));
    assert!(about().contains("adjust volume"));
}

#[test]
fn durations_format_as_minutes_and_seconds() {
    assert_eq!(format_duration(0), "00:00");
    assert_eq!(format_duration(65), "01:05");
    assert_eq!(format_duration(600), "10:00");
    assert_eq!(format_duration(3750), "62:30");
}

#[test]
fn progress_info_shows_total_when_known() {
    assert_eq!(get_progress_bar_progress_info(5, Some(65)), "00:05 / 01:05");
    assert_eq!(get_progress_bar_progress_info(5, Some(u64::MAX)), "00:05");
    assert_eq!(get_progress_bar_progress_info(5, None), "00:05");
}

#[test]
fn progress_bar_follows_playback() {
    let mut pm = ProgressModel::new();
    let mut item = CurrentTrack::default();
    item.duration = 3;
    update_song_info_on_screen(&mut pm, &item);
    assert_eq!(get_progress_bar_current_position(&pm), 3);
    assert!(!quit_watch_done(&pm));
    let ctx = PlaybackContext::new();
    for _ in 0..3 {
        tick_progress_bar_progress(&mut pm, &ctx);
    }
    assert_eq!(get_progress_bar_current_position(&pm), 0);
    assert!(quit_watch_done(&pm));
    destroy(&mut pm);
    assert!(pm.bar.is_none());
}

#[test]
fn unknown_duration_means_endless_bar() {
    let mut pm = ProgressModel::new();
    let item = CurrentTrack::default();
    update_song_info_on_screen(&mut pm, &item);
    match &pm.bar {
        Some(b) => assert_eq!(b.total, u64::MAX),
        None => panic!("a bar must exist after a promotion"),
    }
}

#[test]
fn ticker_freezes_while_paused() {
    let mut pm = ProgressModel::new();
    let mut item = CurrentTrack::default();
    item.duration = 9;
    update_song_info_on_screen(&mut pm, &item);
    let mut ctx = PlaybackContext::new();
    ctx.tick_enabled = false;
    tick_progress_bar_progress(&mut pm, &ctx);
    assert_eq!(get_progress_bar_current_position(&pm), 9);
}

#[test]
fn list_navigation_wraps_and_selects() {
    assert_eq!(list_nav_step(0, 5, NavKey::Up), NavOutcome::Continue(5));
    assert_eq!(list_nav_step(5, 5, NavKey::Down), NavOutcome::Continue(0));
    assert_eq!(list_nav_step(2, 5, NavKey::Up), NavOutcome::Continue(1));
    assert_eq!(list_nav_step(2, 5, NavKey::Down), NavOutcome::Continue(3));
    assert_eq!(list_nav_step(3, 5, NavKey::Enter), NavOutcome::Finished(Some(3)));
    assert_eq!(list_nav_step(0, 5, NavKey::Enter), NavOutcome::Finished(None));
    assert_eq!(list_nav_step(4, 5, NavKey::Esc), NavOutcome::Finished(None));
    assert_eq!(list_nav_step(4, 5, NavKey::Other), NavOutcome::Finished(None));
}
