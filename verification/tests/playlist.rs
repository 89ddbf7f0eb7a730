use bcradio::libbc::playlist::{
    choice_error_action, choice_related_options, combine_char_width, char_width,
    elements_from_related_tags, format_line, genre_list, pick_element, slug, ChoiceStep,
    ErrorAction, PromptKind, RefillPlan, SelectError,
};
use bcradio::libbc::shared_data::SharedState;
use bcradio::models::bc_discover_index::{Element, InitialState, PostData};
use bcradio::models::bc_discover_json::{FeaturedTrack, Price, PrimaryImage, Results};
use bcradio::models::bc_discover_tags::{RelatedTags, Struct, Tag};
use bcradio::models::bc_error::BcradioError;
use bcradio::models::shared_data_models::{ResultsJson, Track};

fn elem(id: i64, label: &str, slug_text: &str, parent: Option<&str>) -> Element {
    Element {
        id,
        label: label.to_string(),
        slug: slug_text.to_string(),
        selected: None,
        parent_slug: parent.map(|p| p.to_string()),
    }
}

fn one_result(title: &str) -> Results {
    Results {
        title: title.to_string(),
        item_url: "http://b.example/i".to_string(),
        band_id: 5,
        band_name: "band".to_string(),
        band_url: "http://b.example".to_string(),
        band_genre_id: 10,
        release_date: "01 Jan 2024".to_string(),
        label_name: None,
        band_location: None,
        label_url: None,
        item_currency: "USD".to_string(),
        item_price: "9.99".to_string(),
        item_image_id: Some(3),
        item_duration: 240,
        featured_track: FeaturedTrack {
            band_id: 5,
            title: format!("{} track", title),
            band_name: "band".to_string(),
            stream_url: format!("http://s.example/{}", title),
            duration: 180,
        },
        primary_image: PrimaryImage { image_id: None, is_art: false },
        price: Price { amount: 999, currency: "USD".to_string(), is_money: true },
    }
}

#[test]
fn test_url_escape() {
    let s = "all r&b/soul";
    let s = slug(s);
    assert_eq!(s, String::from("all-r-b-soul"));
}

#[test]
fn slug_trims_cuts_and_collapses() {
    assert_eq!(slug("  hip hop  "), "hip-hop");
    assert_eq!(slug("rock?version=1"), "rock");
    assert_eq!(slug("lo-fi (chill)"), "lo-fi-chill");
    assert_eq!(slug("a  b"), "a-b");
    assert_eq!(slug("[x]:y"), "xy");
}

#[test]
fn slug_output_has_no_removed_characters() {
    let out = slug("  jazz [live] / r&b? fragment#x  ");
    for c in out.chars() {
        assert!(
            !"[]@!$'()*+,:;=/ _~&?#".contains(c),
            "slugs never hold removed or replaced characters"
        );
    }
}

#[test]
fn char_width_passes_short_titles_through() {
    let (w, t) = char_width("abc");
    assert_eq!(w, 30);
    assert_eq!(t, "abc");
}

#[test]
fn char_width_truncates_long_titles() {
    let long: String = std::iter::repeat('a').take(40).collect();
    let (w, t) = char_width(&long);
    assert_eq!(w, 30);
    let expected: String = std::iter::repeat('a').take(28).collect::<String>() + "..";
    assert_eq!(t, expected);
}

#[test]
fn wide_and_combining_widths() {
    assert_eq!(combine_char_width('a'), 1);
    assert_eq!(combine_char_width('\u{3099}'), 0);
    assert_eq!(combine_char_width('\u{ac00}'), 2);
}

#[test]
fn playlist_line_layout() {
    let t = Track {
        album_title: "al".to_string(),
        artist_name: "a".to_string(),
        art_id: None,
        band_id: 0,
        url: String::new(),
        duration: 61,
        track: "t".to_string(),
        buffer: vec![],
        results: ResultsJson::Empty,
        genre: None,
        subgenre: None,
    };
    let line = format_line(1, &t);
    let expected = format!(" 1 t{} {:>7} a{} al", " ".repeat(29), "01:01", " ".repeat(29));
    assert_eq!(line, expected);
}

#[test]
fn pick_element_by_label_then_slug() {
    let g = vec![
        elem(1, "Electronic", "electronic", None),
        elem(2, "Rock", "rock", None),
    ];
    assert_eq!(pick_element(&g, "Rock").unwrap().id, 2);
    assert_eq!(pick_element(&g, "electronic").unwrap().id, 1);
    assert!(pick_element(&g, "jazz").is_none());
}

#[test]
fn genre_list_finds_parents() {
    let g = vec![
        elem(1, "Electronic", "electronic", None),
        elem(2, "Metal", "metal", None),
    ];
    let t = vec![
        elem(10, "Ambient", "ambient", Some("electronic")),
        elem(11, "Doom", "doom", Some("metal")),
        elem(12, "Ambient Doom", "ambient", Some("metal")),
    ];
    let parents = genre_list(&t, &g, "ambient");
    assert_eq!(parents, vec!["Electronic".to_string(), "Metal".to_string()]);
}

#[test]
fn gen_track_list_maps_results() {
    let mut s = SharedState::new();
    s.set_genre("electronic");
    s.set_subgenre("ambient");
    let items = vec![one_result("x")];
    let q = s.gen_track_list(&items);
    assert_eq!(q.len(), 1);
    let t = &q[0];
    assert_eq!(t.album_title, "x");
    assert_eq!(t.artist_name, "band");
    assert_eq!(t.track, "x track");
    assert_eq!(t.url, "http://s.example/x");
    assert_eq!(t.duration, 240);
    assert!(t.buffer.is_empty());
    assert_eq!(t.genre.as_deref(), Some("electronic"));
    assert_eq!(t.subgenre.as_deref(), Some("ambient"));
    match &t.results {
        ResultsJson::Select(r) => assert_eq!(r.title, "x"),
        _ => panic!("a discovery track carries its result payload"),
    }
}

#[test]
fn silent_builds_tags_from_flags() {
    let s = SharedState::new();
    let p = s
        .silent(Some("all r&b/soul".to_string()), Some("  ".to_string()))
        .unwrap();
    assert_eq!(p.tag_norm_names, vec!["all-r-b-soul".to_string()]);
    assert_eq!(p.cursor.as_deref(), Some("*"));
    let p2 = s.silent(None, None).unwrap();
    assert!(p2.tag_norm_names.is_empty());
}

#[test]
fn refill_plan_cases() {
    let mut s = SharedState::new();
    // Fresh store: short queue, default cursor present.
    match s.fill_playlist_plan() {
        RefillPlan::FetchPage(p) => assert_eq!(p.cursor.as_deref(), Some("*")),
        _ => panic!("a saved cursor must be used"),
    }
    // Pagination exhausted: prompt for a new context.
    let mut pd = PostData::default();
    pd.cursor = None;
    s.set_next_postdata(&pd);
    assert!(matches!(s.fill_playlist_plan(), RefillPlan::PromptNewContext));
}

#[test]
fn empty_queue_gets_new_context_page() {
    // Queue empty, cursor gone: the plan asks for a new context; choosing
    // "all genres" and applying its first page makes that page the queue.
    let mut s = SharedState::new();
    let mut pd = PostData::default();
    pd.cursor = None;
    s.set_next_postdata(&pd);
    assert!(matches!(s.fill_playlist_plan(), RefillPlan::PromptNewContext));

    let g = vec![elem(0, "all genres", "", None)];
    let t: Vec<Element> = vec![];
    let step = s.choice_step(&g, &t, "all genres");
    let post = match step {
        ChoiceStep::Done(p) => p,
        _ => panic!("all genres settles the context at once"),
    };
    assert!(post.tag_norm_names.is_empty());
    s.clear_all_tracklist();
    let page = vec![one_result("x"), one_result("y")];
    s.apply_discover_page(&post, &page, Some("cur2".to_string()));
    assert_eq!(s.queue_length_from_truck_list(), 2);
    assert_eq!(s.get_tracklist()[0].album_title, "x");
    assert_eq!(s.next_post().cursor.as_deref(), Some("cur2"));
}

#[test]
fn refill_keeps_chosen_context() {
    // After a context is chosen, every later refill pages that context: the
    // applied page stores the request's tags with the response's cursor.
    let mut s = SharedState::new();
    let g = vec![elem(1, "Podcasts", "podcasts", None)];
    let t: Vec<Element> = vec![];
    let post = match s.choice_step(&g, &t, "Podcasts") {
        ChoiceStep::Done(p) => p,
        _ => panic!("a genre without sub-genres settles at once"),
    };
    assert_eq!(post.tag_norm_names, vec!["podcasts".to_string()]);
    let page = vec![one_result("x")];
    s.apply_discover_page(&post, &page, Some("c1".to_string()));
    let saved = s.next_post();
    assert_eq!(saved.tag_norm_names, vec!["podcasts".to_string()]);
    assert_eq!(saved.cursor.as_deref(), Some("c1"));
    // One queued track is below the low-water mark: the next refill plan
    // carries the same context forward.
    match s.fill_playlist_plan() {
        RefillPlan::FetchPage(q) => {
            assert_eq!(q.tag_norm_names, vec!["podcasts".to_string()]);
            assert_eq!(q.cursor.as_deref(), Some("c1"));
        },
        _ => panic!("a saved cursor must be used"),
    }
}

#[test]
fn choice_step_known_genre_with_subgenres() {
    let mut s = SharedState::new();
    let g = vec![elem(1, "Electronic", "electronic", None)];
    let t = vec![
        elem(10, "Ambient", "ambient", Some("electronic")),
        elem(11, "House", "house", Some("other")),
    ];
    match s.choice_step(&g, &t, "Electronic") {
        ChoiceStep::NeedSubgenreSelect(opts, tags) => {
            assert_eq!(opts.len(), 2);
            assert_eq!(opts[0].label, "all \"Electronic\"");
            assert_eq!(opts[1].label, "Ambient");
            assert_eq!(tags, vec!["Electronic".to_string()]);
        },
        _ => panic!("a genre with sub-genres calls for a sub-genre prompt"),
    }
    assert_eq!(s.get_genre(), "Electronic");
}

#[test]
fn choice_step_known_genre_without_subgenres() {
    let mut s = SharedState::new();
    s.set_subgenre("stale");
    let g = vec![elem(1, "Podcasts", "podcasts", None)];
    let t = vec![elem(10, "Ambient", "ambient", Some("electronic"))];
    match s.choice_step(&g, &t, "Podcasts") {
        ChoiceStep::Done(p) => assert_eq!(p.tag_norm_names, vec!["podcasts".to_string()]),
        _ => panic!("a genre without sub-genres settles at once"),
    }
    assert_eq!(s.get_subgenre(), "");
}

#[test]
fn choice_step_free_tag_and_redirect() {
    let mut s = SharedState::new();
    let g = vec![elem(1, "Electronic", "electronic", None)];
    let t = vec![elem(10, "Ambient", "ambient", Some("electronic"))];
    match s.choice_step(&g, &t, "vaporwave") {
        ChoiceStep::NeedRelatedTags(tag) => assert_eq!(tag, "vaporwave"),
        _ => panic!("an unknown tag asks the related-tags endpoint"),
    }
    match s.choice_step(&g, &t, "ambient") {
        ChoiceStep::Done(p) => {
            assert_eq!(p.tag_norm_names, vec!["Electronic".to_string(), "ambient".to_string()]);
        },
        _ => panic!("a unique sub-genre redirects to its parent"),
    }
    assert_eq!(s.get_genre(), "Electronic");
    assert_eq!(s.get_subgenre(), "ambient");
}

#[test]
fn choice_step_ambiguous_subgenre() {
    let mut s = SharedState::new();
    let g = vec![
        elem(1, "Electronic", "electronic", None),
        elem(2, "Metal", "metal", None),
    ];
    let t = vec![
        elem(10, "Ambient", "ambient", Some("electronic")),
        elem(11, "Dark Ambient", "ambient", Some("metal")),
    ];
    match s.choice_step(&g, &t, "ambient") {
        ChoiceStep::NeedParentSelect(labels) => {
            assert_eq!(labels, vec!["Electronic".to_string(), "Metal".to_string()]);
        },
        _ => panic!("an ambiguous sub-genre asks which genre was meant"),
    }
    let p = s.choice_after_parent("ambient", "Metal");
    assert_eq!(p.tag_norm_names, vec!["Metal".to_string(), "ambient".to_string()]);
    assert_eq!(s.get_genre(), "Metal");
    assert_eq!(s.get_subgenre(), "ambient");
}

#[test]
fn choice_after_subgenre_paths() {
    let mut s = SharedState::new();
    let p = s.choice_after_subgenre(vec!["electronic".to_string()], "Ambient", false);
    assert_eq!(
        p.tag_norm_names,
        vec!["electronic".to_string(), "Ambient".to_string()]
    );
    assert_eq!(s.get_subgenre(), "Ambient");
    let p2 = s.choice_after_subgenre(vec!["jazz".to_string()], "all \"jazz\"", true);
    assert_eq!(p2.tag_norm_names, vec!["jazz".to_string()]);
    assert_eq!(s.get_subgenre(), "");
}

#[test]
fn prompt_error_policy() {
    assert!(matches!(
        choice_error_action(&PromptKind::GenrePrompt, &SelectError::Cancelled),
        ErrorAction::Fatal(BcradioError::Cancel)
    ));
    assert!(matches!(
        choice_error_action(&PromptKind::GenrePrompt, &SelectError::Interrupted),
        ErrorAction::Fatal(BcradioError::OperationInterrupted)
    ));
    assert!(matches!(
        choice_error_action(&PromptKind::SubgenrePrompt, &SelectError::Cancelled),
        ErrorAction::RetryLoop
    ));
    assert!(matches!(
        choice_error_action(&PromptKind::SubgenrePrompt, &SelectError::Interrupted),
        ErrorAction::Fatal(BcradioError::OperationInterrupted)
    ));
    assert!(matches!(
        choice_error_action(&PromptKind::ParentPrompt, &SelectError::Cancelled),
        ErrorAction::Fatal(BcradioError::Cancel)
    ));
}

#[test]
fn related_tags_become_menu_entries() {
    let block = Struct {
        tag: Tag { name: "vaporwave".to_string(), norm_name: "vaporwave".to_string() },
        related_tags: vec![RelatedTags {
            id: 9,
            name: "Future Funk".to_string(),
            norm_name: "future-funk".to_string(),
            isloc: false,
        }],
    };
    let es = elements_from_related_tags(&block);
    assert_eq!(es.len(), 1);
    assert_eq!(es[0].label, "Future Funk");
    assert_eq!(es[0].slug, "future-funk");

    let (opts, tags) = choice_related_options("vaporwave", es);
    assert_eq!(opts.len(), 2);
    assert_eq!(opts[0].label, "all \"vaporwave\"");
    assert_eq!(opts[1].label, "Future Funk");
    assert_eq!(tags, vec!["vaporwave".to_string()]);

    let (opts2, _) = choice_related_options("nothing", Vec::new());
    assert!(opts2.is_empty());
}

#[test]
fn prepare_genre_lists_installs_fetched_tree() {
    let mut s = SharedState::new();
    s.set_subgenre("stale");
    let st = InitialState {
        categories: vec![],
        genres: vec![elem(1, "Electronic", "electronic", None)],
        subgenres: vec![elem(10, "Ambient", "ambient", Some("electronic"))],
        slices: vec![],
        locations: vec![],
    };
    let (g, t) = s.prepare_genre_lists(Some(st));
    assert_eq!(g.len(), 2);
    assert_eq!(g[0].label, "all genres");
    assert_eq!(g[1].label, "Electronic");
    assert_eq!(t.len(), 1);
    assert_eq!(s.get_subgenre(), "");
    // And without a fresh tree the cached one is offered.
    let (g2, t2) = s.prepare_genre_lists(None);
    assert_eq!(g2.len(), 2);
    assert_eq!(g2[0].label, "all genres");
    assert_eq!(t2.len(), 1);
}
