//! Track and transcode negotiation, input interpretation, URLs and
//! configuration.

use puddler::TICKS_PER_SECOND;
use puddler::config::MediaCenterType;
use puddler::config::ServerConfig;
use puddler::config::UserConfig;
use puddler::config::backend_address;
use puddler::config::normalize_address;
use puddler::display::ToStringAdv;
use puddler::display::episode_code;
use puddler::input::getch;
use puddler::items::IsNumeric;
use puddler::items::Item;
use puddler::items::MediaStream;
use puddler::items::UserData;
use puddler::negotiate::TrackPreference;
use puddler::negotiate::TrackResolution;
use puddler::negotiate::negotiation_prompts;
use puddler::negotiate::parse_bandwidth_input;
use puddler::negotiate::parse_resume_minutes;
use puddler::negotiate::partition_streams;
use puddler::negotiate::preferred_track_index;
use puddler::negotiate::resolve_track;
use puddler::reports::session_capabilities;
use puddler::urls::direct_stream_url;
use puddler::urls::parse_stream_index;
use puddler::urls::plex_timeline_query;
use puddler::urls::subtitle_url;
use puddler::settings::PuddlerSettingType;
use puddler::settings::PuddlerSettings;

fn stream(kind: &str, index: u32, language: Option<&str>) -> MediaStream {
    MediaStream {
        Index: index,
        Type: kind.to_string(),
        Language: language.map(|l| l.to_string()),
        DisplayTitle: None,
        DisplayLanguage: None,
        Title: None,
        Codec: None,
        Width: None,
        Height: None,
        IsDefault: false,
        IsExternal: false,
        SupportsExternalStream: false,
        Path: None,
    }
}

#[test]
fn direct_mode_issues_no_prompts() {
    // Transcoding disabled and nothing to resume: no bandwidth, track
    // or resume prompt, whatever streams the item offers.
    let audio = vec![stream("Audio", 1, None), stream("Audio", 2, None)];
    let subs = vec![stream("Subtitle", 3, None), stream("Subtitle", 4, None)];
    let prompts = negotiation_prompts(1, false, &None, &audio, &subs);
    assert!(!prompts.resume);
    assert!(!prompts.bandwidth);
    assert!(!prompts.audio);
    assert!(!prompts.subtitle);
    assert!(!prompts.media_source);
}

#[test]
fn carried_audio_track_is_not_reprompted() {
    // The second title shares the audio index the first one used: the
    // carried index is reused and no prompt is issued.
    let audio = vec![stream("Audio", 1, None), stream("Audio", 7, None)];
    assert_eq!(resolve_track(&audio, Some(7)), TrackResolution::Carried(7));
    let carried = Some(TrackPreference {
        finish_current: false,
        audio: Some(7),
        subtitle: Some(0),
        bandwidth_mbps: Some(25),
    });
    let subs = vec![stream("Subtitle", 3, None)];
    let prompts = negotiation_prompts(1, true, &carried, &audio, &subs);
    assert!(!prompts.audio);
    assert!(!prompts.bandwidth);
}

#[test]
fn stale_carried_track_prompts_again() {
    let audio = vec![stream("Audio", 1, None), stream("Audio", 2, None)];
    assert_eq!(resolve_track(&audio, Some(9)), TrackResolution::Prompt);
    let single = vec![stream("Audio", 5, None)];
    assert_eq!(resolve_track(&single, Some(9)), TrackResolution::Auto(5));
    let none: Vec<MediaStream> = vec![];
    assert_eq!(resolve_track(&none, None), TrackResolution::NoTracks);
}

#[test]
fn streams_partition_by_kind() {
    let mixed = vec![
        stream("Video", 0, None),
        stream("Audio", 1, None),
        stream("Subtitle", 2, None),
        stream("Audio", 3, None),
    ];
    let (audio, subs) = partition_streams(mixed);
    assert_eq!(audio.iter().map(|s| s.Index).collect::<Vec<_>>(), vec![1, 3]);
    assert_eq!(subs.iter().map(|s| s.Index).collect::<Vec<_>>(), vec![2]);
}

#[test]
fn language_preference_maps_to_first_matching_stream() {
    let streams = vec![
        stream("Audio", 1, Some("fr")),
        stream("Audio", 2, Some("en")),
        stream("Audio", 3, Some("en")),
    ];
    // One-based position of the first English stream.
    assert_eq!(preferred_track_index(&streams, &Some("en".to_string())), Some(2));
    // An unknown tag resolves to no language.
    assert_eq!(preferred_track_index(&streams, &Some("zz".to_string())), None);
    assert_eq!(preferred_track_index(&streams, &None), None);
}

#[test]
fn resume_minutes_parse_exactly() {
    assert_eq!(parse_resume_minutes("5"), Some(5 * 60 * TICKS_PER_SECOND));
    // A minute and a half is ninety seconds.
    assert_eq!(parse_resume_minutes("1.5"), Some(90 * TICKS_PER_SECOND));
    assert_eq!(parse_resume_minutes("0.00000001"), Some(6));
    // Nine fractional digits are rejected.
    assert_eq!(parse_resume_minutes("1.123456789"), None);
    assert_eq!(parse_resume_minutes("abc"), None);
    assert_eq!(parse_resume_minutes(""), None);
    assert_eq!(parse_resume_minutes("."), None);
    assert_eq!(parse_resume_minutes(".5"), Some(30 * TICKS_PER_SECOND));
}

#[test]
fn bandwidth_input_converts_to_bits() {
    assert_eq!(parse_bandwidth_input("25"), Some(25_000_000));
    assert_eq!(parse_bandwidth_input("25mbit"), None);
    assert_eq!(parse_bandwidth_input(""), None);
}

#[test]
fn numeric_strings() {
    assert!("123".is_numeric());
    assert!(!"".is_numeric());
    assert!(!"12a".is_numeric());
}

#[test]
fn keystrokes_against_allowed_set() {
    assert_eq!(getch("YyNn", 'Y'), Some('Y'));
    assert_eq!(getch("YyNn", 'x'), None);
}

#[test]
fn capability_document_carries_choices() {
    let caps = session_capabilities(
        "user1".to_string(),
        1234,
        "media1".to_string(),
        2,
        5,
        25_000_000,
        "player",
        "device1".to_string(),
    );
    assert_eq!(caps.UserId, "user1");
    assert_eq!(caps.StartTimeTicks, 1234);
    assert_eq!(caps.AudioStreamIndex, 2);
    assert_eq!(caps.SubtitleStreamIndex, 5);
    assert_eq!(caps.MaxStreamingBitrate, 25_000_000);
    assert_eq!(caps.DeviceProfile.TranscodingProfiles.len(), 3);
    assert_eq!(caps.DeviceProfile.SubtitleProfiles.len(), 8);
    assert_eq!(caps.DeviceProfile.TranscodingProfiles[0].VideoCodec, "hevc");
}

#[test]
fn stream_urls_compose() {
    let url = direct_stream_url("http://host/", "item9", "tok");
    assert_eq!(url, "http://host/Videos/item9/stream?Container=mkv&Static=true&api_key=tok");
    let sub = subtitle_url("http://host/", "item9", "src1", 4, "srt", "tok", Some(120));
    assert_eq!(
        sub,
        "http://host/Videos/item9/src1/Subtitles/4/Stream.srt?api_key=tok&StartPositionTicks=120"
    );
}

#[test]
fn timeline_query_percent_encodes_the_platform() {
    // The platform name goes through percent-encoding: a wrapper that
    // handed its argument back unchanged would leave the spaces in.
    let q = plex_timeline_query("42", "playing", 1000, 2000, "client", "1.0");
    assert!(q.contains("X-Plex-Platform=Plex%20Home%20Theater"));
    assert!(q.contains("&key=%2Flibrary%2Fmetadata%2F42"));
    assert!(q.contains("&time=1000"));
    assert!(q.contains("&duration=2000"));
    assert!(!q.contains("Plex Home Theater"));
}

#[test]
fn stream_index_read_back_from_transcode_url() {
    let url = "/Videos/1/master.m3u8?AudioStreamIndex=3&SubtitleStreamIndex=12";
    assert_eq!(parse_stream_index(url, "AudioStreamIndex="), Some(3));
    assert_eq!(parse_stream_index(url, "SubtitleStreamIndex="), Some(12));
    assert_eq!(parse_stream_index(url, "VideoStreamIndex="), None);
    assert_eq!(parse_stream_index("AudioStreamIndex=", "AudioStreamIndex="), None);
}

#[test]
fn addresses_normalize() {
    assert_eq!(normalize_address("example.com"), "http://example.com/");
    assert_eq!(normalize_address("https://example.com/"), "https://example.com/");
    assert_eq!(normalize_address("http://example.com"), "http://example.com/");
    assert_eq!(
        backend_address("http://example.com/", MediaCenterType::Emby),
        "http://example.com/emby/"
    );
    assert_eq!(
        backend_address("http://example.com/", MediaCenterType::Jellyfin),
        "http://example.com/"
    );
}

fn user(token: &str) -> UserConfig {
    UserConfig {
        access_token: token.to_string(),
        username: token.to_string(),
        user_id: token.to_string(),
    }
}

#[test]
fn active_user_moves_to_front() {
    let mut config = ServerConfig {
        device_id: String::new(),
        address: String::new(),
        users: vec![user("a"), user("b"), user("c")],
    };
    config.set_active_user(&"b".to_string());
    assert_eq!(config.users[0].access_token, "b");
    assert_eq!(config.users.len(), 3);
    config.remove_user(&"a".to_string());
    assert_eq!(config.users.len(), 2);
    assert!(config.users.iter().all(|u| u.access_token != "a"));
}

#[test]
fn device_id_minted_once() {
    let mut config = ServerConfig {
        device_id: String::new(),
        address: String::new(),
        users: vec![],
    };
    let first = config.get_device_id();
    assert_eq!(first.chars().count(), 36);
    let second = config.get_device_id();
    assert_eq!(first, second);
}

fn movie(name: &str, premiere: Option<&str>, played: bool, pct: Option<u32>) -> Item {
    Item {
        Name: name.to_string(),
        Id: name.to_string(),
        IndexNumber: None,
        IndexNumberEnd: None,
        ParentIndexNumber: None,
        RunTimeTicks: None,
        Type: "Movie".to_string(),
        UserData: UserData {
            PlayedPercentage: pct,
            PlaybackPositionTicks: 0,
            Played: played,
        },
        SeriesName: None,
        SeriesId: None,
        SeasonName: None,
        SeasonId: None,
        PremiereDate: premiere.map(|p| p.to_string()),
        ProductionYear: None,
        Status: None,
        EndDate: None,
        MediaSources: None,
    }
}

#[test]
fn titles_compose() {
    let m = movie("The Film", Some("2019-05-01"), false, None);
    assert_eq!(m.to_string_full(), "The Film (2019)");
    let played = movie("The Film", Some("2019-05-01"), true, Some(83));
    assert_eq!(played.to_string_ext(), "The Film (2019) - (Played) 83%");
    // A name already carrying its year is not shown with it twice.
    let doubled = movie("The Film (2019)", Some("2019-05-01"), false, None);
    assert_eq!(doubled.to_string_full(), "The Film (2019)");
}

#[test]
fn episode_codes_pad_to_two_digits() {
    assert_eq!(episode_code(1, 2, None), "S01E02");
    assert_eq!(episode_code(10, 123, Some(4)), "S10E123-04");
}

#[test]
fn time_labels_cover_ranges_and_continuing_series() {
    let mut show = movie("The Show", Some("2019-05-01"), false, None);
    show.Type = "Series".to_string();
    show.EndDate = Some("2021-03-01".to_string());
    assert_eq!(show.to_string_full(), "The Show (2019-2021)");
    let mut running = movie("The Show", Some("2019-05-01"), false, None);
    running.Type = "Series".to_string();
    running.Status = Some("Continuing".to_string());
    assert_eq!(running.to_string_full(), "The Show (2019-)");
    let bare = movie("Nothing Known", None, false, None);
    assert_eq!(bare.to_string_full(), "Nothing Known (???)");
}

#[test]
fn split_titles_for_episodes() {
    let mut ep = movie("Pilot", Some("2019-05-01"), false, None);
    ep.Type = "Episode".to_string();
    ep.SeriesName = Some("The Show".to_string());
    ep.ParentIndexNumber = Some(1);
    ep.IndexNumber = Some(3);
    let parts = ep.to_string_split();
    assert_eq!(parts[0], "The Show (2019) - S01E03 - Pilot");
    assert_eq!(parts[1], "The Show (2019)");
    assert_eq!(parts[2], "S01E03 (Pilot)");
}

#[test]
fn settings_screen_values() {
    let settings = PuddlerSettings {
        default_media_server: Some("server.json".to_string()),
        discord_presence: false,
        fullscreen: true,
        gpu: false,
        glsl_shaders: vec!["a.glsl".to_string(), "b.glsl".to_string()],
        mpv_config_location: None,
        mpv_debug_log: false,
    };
    assert_eq!(
        settings.get_setting_value(PuddlerSettingType::DefaultMediaServer),
        "Some(\"server.json\")"
    );
    assert_eq!(settings.get_setting_value(PuddlerSettingType::Fullscreen), "true");
    assert_eq!(
        settings.get_setting_value(PuddlerSettingType::GlslShaders),
        "[\"a.glsl\", \"b.glsl\"]"
    );
    assert_eq!(settings.get_setting_value(PuddlerSettingType::MpvConfigLocation), "None");
    let mut changed = settings.clone();
    let mut wanted = settings.clone();
    wanted.gpu = true;
    wanted.fullscreen = false;
    changed.change_setting(PuddlerSettingType::Gpu, wanted);
    assert!(changed.gpu);
    // Only the named field moved over.
    assert!(changed.fullscreen);
}
