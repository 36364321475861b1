//! Series resolution, playlist advancement and range input.

use puddler::input::string_to_range;
use puddler::items::Item;
use puddler::items::UserData;
use puddler::playlist::NextAction;
use puddler::playlist::Playlist;
use puddler::series::Series;
use puddler::series::assemble_series;
use puddler::series::flatten_series;
use puddler::series::order_seasons;
use puddler::series::playlist_from_episode;
use puddler::series::selected_episode_ids;
use puddler::session::expected_player_runtime;
use puddler::input::series_select_outcome;
use puddler::input::SeriesOptions;
use puddler::input::default_selection;
use puddler::input::Episode;

fn item(id: &str, name: &str, kind: &str, played: bool) -> Item {
    Item {
        Name: name.to_string(),
        Id: id.to_string(),
        IndexNumber: None,
        IndexNumberEnd: None,
        ParentIndexNumber: None,
        RunTimeTicks: None,
        Type: kind.to_string(),
        UserData: UserData { PlayedPercentage: None, PlaybackPositionTicks: 0, Played: played },
        SeriesName: None,
        SeriesId: None,
        SeasonName: None,
        SeasonId: None,
        PremiereDate: None,
        ProductionYear: None,
        Status: None,
        EndDate: None,
        MediaSources: None,
    }
}

fn episode(id: &str) -> Item {
    item(id, id, "Episode", false)
}

fn build_series(lists: Vec<(&str, Vec<&str>)>) -> Series {
    let seasons: Vec<Item> = lists.iter().map(|(name, _)| item(name, name, "Season", false)).collect();
    let episodes: Vec<Vec<Item>> =
        lists.iter().map(|(_, eps)| eps.iter().map(|e| episode(e)).collect()).collect();
    assemble_series("series".to_string(), seasons, episodes)
}

fn ids(items: &[Item]) -> Vec<String> {
    items.iter().map(|i| i.Id.clone()).collect()
}

#[test]
fn specials_season_floats_to_the_end() {
    // The server returns "Specials" first; its episodes must come last
    // in the flattened playlist.
    let fetched = vec![
        item("sp", "Specials", "Season", false),
        item("s1", "Season 1", "Season", false),
    ];
    let ordered = order_seasons(fetched);
    assert_eq!(ordered[0].Name, "Season 1");
    assert_eq!(ordered[1].Name, "Specials");

    let episodes = vec![
        vec![episode("e1"), episode("e2")],
        vec![episode("x1")],
    ];
    let series = assemble_series("series".to_string(), ordered, episodes);
    let flat = flatten_series(series);
    assert_eq!(ids(&flat), vec!["e1", "e2", "x1"]);
}

#[test]
fn cross_listed_episode_kept_at_first_position_only() {
    let series = build_series(vec![("s1", vec!["e1", "e2"]), ("s2", vec!["e2", "e3"])]);
    let flat = flatten_series(series);
    assert_eq!(ids(&flat), vec!["e1", "e2", "e3"]);
}

#[test]
fn empty_seasons_are_dropped() {
    let series = build_series(vec![("s1", vec![]), ("s2", vec!["e1"])]);
    assert_eq!(series.seasons.len(), 1);
    assert_eq!(series.seasons[0].item.Id, "s2");
}

#[test]
fn playlist_from_episode_starts_there() {
    let series = build_series(vec![("s1", vec!["e1", "e2"]), ("s2", vec!["e3"])]);
    let rest = playlist_from_episode(series, &"e2".to_string());
    assert_eq!(ids(&rest), vec!["e2", "e3"]);
}

#[test]
fn playlist_from_unknown_episode_is_empty() {
    let series = build_series(vec![("s1", vec!["e1"])]);
    let rest = playlist_from_episode(series, &"nope".to_string());
    assert!(rest.is_empty());
}

#[test]
fn range_two_to_six() {
    // "2-6" denotes exactly the numbers two through six.
    assert_eq!(string_to_range("2-6"), vec![2, 3, 4, 5, 6]);
}

#[test]
fn marking_a_range_of_a_ten_item_playlist() {
    // Marking "2-6" of a flattened ten-episode playlist addresses
    // exactly positions two through six.
    let series = build_series(vec![
        ("s1", vec!["e0", "e1", "e2", "e3", "e4"]),
        ("s2", vec!["e5", "e6", "e7", "e8", "e9"]),
    ]);
    let indexes = string_to_range("2-6");
    let marked = selected_episode_ids(series, &indexes);
    assert_eq!(marked, vec!["e2", "e3", "e4", "e5", "e6"]);
}

#[test]
fn range_input_oddities() {
    assert_eq!(string_to_range(""), Vec::<usize>::new());
    assert_eq!(string_to_range("2,4,2"), vec![2, 4]);
    assert_eq!(string_to_range("6-2"), Vec::<usize>::new());
    assert_eq!(string_to_range("1-3,2-5"), vec![1, 2, 3, 4, 5]);
    assert_eq!(string_to_range("7"), vec![7]);
    assert_eq!(string_to_range("3,junk,5"), vec![3, 5]);
    assert_eq!(string_to_range("1-"), Vec::<usize>::new());
}

#[test]
fn advance_skips_watched_items() {
    let mut playlist = Playlist {
        items: vec![
            item("a", "a", "Episode", false),
            item("b", "b", "Episode", true),
            item("c", "c", "Episode", false),
        ],
        cursor: 0,
    };
    // Watched outcome with autoplay: skip the played item and continue
    // at the next unwatched one.
    let action = playlist.advance(true, true);
    assert_eq!(action, NextAction::AutoAdvance { next: 2 });
    assert_eq!(playlist.cursor, 2);
}

#[test]
fn unwatched_outcome_prompts() {
    let mut playlist = Playlist {
        items: vec![item("a", "a", "Episode", false), item("b", "b", "Episode", false)],
        cursor: 0,
    };
    let action = playlist.advance(false, true);
    assert_eq!(action, NextAction::PromptFinish { next: Some(1) });
    assert_eq!(playlist.cursor, 0);
}

#[test]
fn watched_without_autoplay_prompts_next() {
    let mut playlist = Playlist {
        items: vec![item("a", "a", "Episode", false), item("b", "b", "Episode", false)],
        cursor: 0,
    };
    let action = playlist.advance(true, false);
    assert_eq!(action, NextAction::PromptNext { next: 1 });
    assert_eq!(playlist.cursor, 0);
}

#[test]
fn end_of_playlist_is_idempotent() {
    let mut playlist = Playlist {
        items: vec![item("a", "a", "Episode", false), item("b", "b", "Episode", true)],
        cursor: 0,
    };
    let first = playlist.advance(true, true);
    assert_eq!(first, NextAction::EndOfPlaylist);
    assert_eq!(playlist.cursor, 0);
    // Deciding again on the unchanged playlist ends it again.
    let second = playlist.advance(true, true);
    assert_eq!(second, NextAction::EndOfPlaylist);
    assert_eq!(playlist.cursor, 0);
}

#[test]
fn marking_played_locally() {
    let mut playlist = Playlist {
        items: vec![item("a", "a", "Episode", false)],
        cursor: 0,
    };
    playlist.set_played(0, true);
    assert!(playlist.items[0].UserData.Played);
    playlist.set_played(0, false);
    assert!(!playlist.items[0].UserData.Played);
}

#[test]
fn expected_player_runtime_shrinks_for_transcodes() {
    // A transcode starts at the resume offset: its own clock only spans
    // the remainder.
    assert_eq!(expected_player_runtime(3600, 600, true), 3000);
    assert_eq!(expected_player_runtime(3600, 600, false), 3600);
    assert_eq!(expected_player_runtime(600, 3600, true), 600);
}

#[test]
fn series_selection_outcomes() {
    // Nothing typed, nothing selected: back.
    assert_eq!(
        series_select_outcome(SeriesOptions::Play, "", Vec::new()),
        (SeriesOptions::Back, None)
    );
    // A plain number plays from there.
    let (mode, selection) = series_select_outcome(SeriesOptions::Play, "4", Vec::new());
    assert_eq!(mode, SeriesOptions::Play);
    assert_eq!(selection, Some(vec![4]));
    // A prepared index list is marked with the chosen mode.
    let (mode, selection) =
        series_select_outcome(SeriesOptions::Played, "2-3", vec![2, 3]);
    assert_eq!(mode, SeriesOptions::Played);
    assert_eq!(selection, Some(vec![2, 3]));
    // Garbage goes back.
    assert_eq!(
        series_select_outcome(SeriesOptions::Play, "x", Vec::new()),
        (SeriesOptions::Back, None)
    );
}

#[test]
fn default_selection_is_first_unwatched() {
    let episodes = vec![
        Episode { title: "a".to_string(), watched: true },
        Episode { title: "b".to_string(), watched: false },
    ];
    assert_eq!(default_selection(&episodes), Some(1));
    let all_seen = vec![Episode { title: "a".to_string(), watched: true }];
    assert_eq!(default_selection(&all_seen), None);
}

#[test]
fn series_tree_draws_headers_and_indexed_episodes() {
    let mut season1 = item("s1", "Season 1", "Season", false);
    season1.SeriesName = Some("The Show".to_string());
    let season2 = item("s2", "Season 2", "Season", false);
    let mut e = |id: &str| {
        let mut e = item(id, id, "Episode", false);
        e.SeriesName = Some("The Show".to_string());
        e.ParentIndexNumber = Some(1);
        e.IndexNumber = Some(2);
        e
    };
    let series = Series {
        item_id: "show".to_string(),
        seasons: vec![
            puddler::series::Season { item: season1, episodes: vec![e("a"), e("b")] },
            puddler::series::Season { item: season2, episodes: vec![e("c")] },
        ],
    };
    let lines = puddler::series::series_tree_lines(&series);
    assert_eq!(lines[0], " The Show (???)");
    assert_eq!(lines[1], "  ├─ Season 1");
    assert_eq!(lines[2], "  │    ├── [0] The Show (???) - S01E02 - a");
    assert_eq!(lines[3], "  │    └── [1] The Show (???) - S01E02 - b");
    assert_eq!(lines[4], "  └─ Season 2");
    assert_eq!(lines[5], "       └── [2] The Show (???) - S01E02 - c");
    assert_eq!(lines.len(), 6);
}
