//! The Plex side: stream selection, titles, series rows and queries.

use puddler::input::plex_series_select;
use puddler::items::MediaSourceInfo;
use puddler::items::MediaStream;
use puddler::negotiate::TrackResolution;
use puddler::plex_items::filter_active_media;
use puddler::plex_items::partition_plex_streams;
use puddler::plex_items::plex_title;
use puddler::plex_items::resolve_plex_track;
use puddler::plex_items::PlexItem;
use puddler::plex_items::PlexMediaFile;
use puddler::plex_items::PlexStream;
use puddler::plex_items::Season;
use puddler::plex_items::Series;
use puddler::session::stream_url_for_source;
use puddler::session::subtitle_commands;
use puddler::urls::extension_of;
use puddler::urls::plex_scrobble_query;

fn plex_item(key: &str, kind: &str, title: &str, viewed: Option<u32>) -> PlexItem {
    PlexItem {
        ratingKey: key.to_string(),
        parentRatingKey: None,
        parentTitle: None,
        grandparentTitle: Some("The Show".to_string()),
        parentIndex: Some(1),
        viewCount: viewed,
        guid: key.to_string(),
        Type: kind.to_string(),
        title: title.to_string(),
        year: Some(2020),
        parentYear: None,
        duration: Some(1000),
        Media: None,
        leafCount: None,
        viewedLeafCount: None,
        index: Some(2),
        viewOffset: None,
    }
}

fn plex_stream(id: u32, kind: u8, index: Option<u32>) -> PlexStream {
    PlexStream {
        key: None,
        id,
        index,
        streamType: kind,
        languageCode: None,
        codec: None,
        default: None,
        audioChannelLayout: None,
        title: None,
        displayTitle: None,
        language: None,
    }
}

fn media_file(id: u64, deleted: Option<u64>) -> PlexMediaFile {
    PlexMediaFile {
        id,
        duration: 0,
        bitrate: 0,
        width: 0,
        height: 0,
        audioChannels: 2,
        audioCodec: "aac".to_string(),
        videoCodec: "hevc".to_string(),
        deletedAt: deleted,
        Part: Vec::new(),
    }
}

#[test]
fn deleted_media_files_are_skipped() {
    let files = vec![media_file(1, Some(99)), media_file(2, None), media_file(3, None)];
    let kept = filter_active_media(files);
    assert_eq!(kept.iter().map(|f| f.id).collect::<Vec<_>>(), vec![2, 3]);
}

#[test]
fn plex_streams_partition_by_type() {
    let streams = vec![
        plex_stream(10, 1, None),
        plex_stream(11, 2, Some(1)),
        plex_stream(12, 3, Some(2)),
        plex_stream(13, 2, Some(3)),
    ];
    let (audio, subs) = partition_plex_streams(streams);
    assert_eq!(audio.iter().map(|s| s.id).collect::<Vec<_>>(), vec![11, 13]);
    assert_eq!(subs.iter().map(|s| s.id).collect::<Vec<_>>(), vec![12]);
}

#[test]
fn plex_track_resolution() {
    let audio = vec![plex_stream(11, 2, Some(1)), plex_stream(13, 2, Some(3))];
    assert_eq!(resolve_plex_track(&audio, Some(3)), TrackResolution::Carried(3));
    assert_eq!(resolve_plex_track(&audio, Some(9)), TrackResolution::Prompt);
    let single = vec![plex_stream(11, 2, Some(1))];
    assert_eq!(resolve_plex_track(&single, None), TrackResolution::Auto(0));
}

#[test]
fn plex_titles_compose() {
    let episode = plex_item("e1", "episode", "Pilot", Some(1));
    assert_eq!(plex_title(&episode), "The Show (2020) - S01E02 - Pilot - (Played)");
    let unseen = plex_item("e2", "episode", "Two", None);
    assert_eq!(plex_title(&unseen), "The Show (2020) - S01E02 - Two");
}

#[test]
fn plex_series_rows_carry_titles_and_watch_state() {
    let series = Series {
        item_id: "show".to_string(),
        seasons: vec![Season {
            item: plex_item("s1", "season", "Season 1", None),
            episodes: vec![
                plex_item("e1", "episode", "One", Some(1)),
                plex_item("e2", "episode", "Two", None),
            ],
        }],
    };
    let rows = plex_series_select(series);
    assert_eq!(rows.len(), 2);
    assert!(rows[0].watched);
    assert!(!rows[1].watched);
    assert_eq!(rows[1].title, "The Show (2020) - S01E02 - Two");
}

#[test]
fn scrobble_queries() {
    assert_eq!(
        plex_scrobble_query("42", true),
        ":/scrobble?identifier=com.plexapp.plugins.library&key=42"
    );
    assert_eq!(
        plex_scrobble_query("42", false),
        ":/unscrobble?identifier=com.plexapp.plugins.library&key=42"
    );
}

#[test]
fn extensions_come_after_the_last_dot() {
    assert_eq!(extension_of("/media/film.en.srt"), "srt");
    assert_eq!(extension_of("subtitles"), "subtitles");
}

fn media_stream_external(path: Option<&str>, codec: Option<&str>) -> MediaStream {
    MediaStream {
        Index: 5,
        Type: "Subtitle".to_string(),
        Language: Some("en".to_string()),
        DisplayTitle: Some("English".to_string()),
        DisplayLanguage: None,
        Title: None,
        Codec: codec.map(|c| c.to_string()),
        Width: None,
        Height: None,
        IsDefault: false,
        IsExternal: true,
        SupportsExternalStream: true,
        Path: path.map(|p| p.to_string()),
    }
}

#[test]
fn external_subtitles_become_load_commands() {
    let mut internal = media_stream_external(None, None);
    internal.IsExternal = false;
    let streams = vec![internal, media_stream_external(Some("/media/film.srt"), None)];
    let commands = subtitle_commands(streams, "http://host/", "item1", "src1", "tok", None);
    assert_eq!(commands.len(), 1);
    // The position among all streams (1) addresses the subtitle.
    assert_eq!(
        commands[0].url,
        "http://host/Videos/item1/src1/Subtitles/1/Stream.srt?api_key=tok"
    );
    assert_eq!(commands[0].title, "\"English\"");
    assert_eq!(commands[0].language, "en");
}

#[test]
fn stream_url_prefers_the_transcode_path() {
    let direct = MediaSourceInfo {
        Id: "src1".to_string(),
        Path: None,
        SupportsTranscoding: true,
        MediaStreams: Vec::new(),
        Bitrate: None,
        TranscodingUrl: None,
    };
    assert_eq!(
        stream_url_for_source("http://host/", &direct, "tok"),
        "http://host/Videos/src1/stream?Container=mkv&Static=true&api_key=tok"
    );
    let transcoded = MediaSourceInfo {
        TranscodingUrl: Some("/Videos/1/master.m3u8?x=1".to_string()),
        ..direct
    };
    assert_eq!(
        stream_url_for_source("http://host/", &transcoded, "tok"),
        "http://host/Videos/1/master.m3u8?x=1"
    );
}

#[test]
fn plex_decision_query_encodes_profiles_and_path() {
    let q = puddler::urls::plex_decision_query("dev1", Some(25_000), "42");
    assert!(q.starts_with("video/:/transcode/universal/decision?session=dev1"));
    assert!(q.contains("&maxVideoBitrate=25000&directPlay=0"));
    assert!(q.contains("&X-Plex-Client-Profile-Extra=add-direct-play-profile%28"));
    assert!(q.ends_with("&path=%2Flibrary%2Fmetadata%2F42"));
    let direct = puddler::urls::plex_decision_query("dev1", None, "42");
    assert!(direct.contains("&directPlay=1"));
    assert!(!direct.contains("maxVideoBitrate"));
}

#[test]
fn plex_track_selection_queries() {
    assert_eq!(
        puddler::urls::plex_track_selection_query(9, Some(11), Some(12)),
        "library/parts/9?allParts=1&audioStreamID=11&subtitleStreamID=12"
    );
    assert_eq!(
        puddler::urls::plex_track_selection_query(9, None, None),
        "library/parts/9?allParts=1"
    );
}

#[test]
fn plex_stream_urls() {
    let transcode =
        puddler::urls::plex_transcode_url("http://host/", "X-Plex-Token=t", "42", "dev1", 30);
    assert!(transcode.starts_with(
        "http://host/video/:/transcode/universal/start.mkv?X-Plex-Token=t&path=%2Flibrary%2Fmetadata%2F42"
    ));
    assert!(transcode.ends_with("&fastSeek=1&offset=30"));
    let direct = puddler::urls::plex_direct_url("http://host/", "/library/parts/9/file.mkv", "X-Plex-Token=t");
    assert_eq!(
        direct,
        "http://host/library/parts/9/file.mkv?X-Plex-Token=t&X-Plex-Platform=Plex%20Home%20Theater"
    );
}
