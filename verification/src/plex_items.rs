//! The Plex side of the catalog: its item, media-file and stream
//! records, the display strings its menus show, and the stream
//! selection rules its transcode negotiation follows.

use vstd::prelude::*;

use crate::display::spec_strip_years;
use crate::display::strip_years;
use crate::display::spec_episode_code;
use crate::display::episode_code;
use crate::negotiate::TrackResolution;
use crate::text::decimal_string;
use crate::text::spec_decimal;

verus! {

/// A Plex catalog entry.
#[derive(Clone, Debug, PartialEq)]
pub struct PlexItem {
    pub ratingKey: String,
    pub parentRatingKey: Option<String>,
    pub parentTitle: Option<String>,
    pub grandparentTitle: Option<String>,
    pub parentIndex: Option<u32>,
    pub viewCount: Option<u32>,
    pub guid: String,
    pub Type: String,
    pub title: String,
    pub year: Option<u32>,
    pub parentYear: Option<u32>,
    pub duration: Option<u64>,
    pub Media: Option<Vec<PlexMediaFile>>,
    pub leafCount: Option<u32>,
    pub viewedLeafCount: Option<u32>,
    pub index: Option<u32>,
    pub viewOffset: Option<u64>,
}

/// One physical media file behind a Plex item.
#[derive(Clone, Debug, PartialEq)]
pub struct PlexMediaFile {
    pub id: u64,
    pub duration: u64,
    pub bitrate: u64,
    pub width: u64,
    pub height: u64,
    pub audioChannels: u8,
    pub audioCodec: String,
    pub videoCodec: String,
    pub deletedAt: Option<u64>,
    pub Part: Vec<PlexMediaPart>,
}

/// One part of a Plex media file.
#[derive(Clone, Debug, PartialEq)]
pub struct PlexMediaPart {
    pub id: u64,
    pub key: String,
    pub duration: u64,
    pub file: String,
    pub Stream: Option<Vec<PlexStream>>,
}

/// One stream of a Plex media part; stream type 2 is audio and 3 is
/// subtitle.
#[derive(Clone, Debug, PartialEq)]
pub struct PlexStream {
    pub key: Option<String>,
    pub id: u32,
    pub index: Option<u32>,
    pub streamType: u8,
    pub languageCode: Option<String>,
    pub codec: Option<String>,
    pub default: Option<bool>,
    pub audioChannelLayout: Option<String>,
    pub title: Option<String>,
    pub displayTitle: Option<String>,
    pub language: Option<String>,
}

/// One server a Plex account can reach.
#[derive(Clone, Debug, PartialEq)]
pub struct PlexResources {
    pub accessToken: Option<String>,
    pub name: String,
    pub provides: String,
    pub publicAddress: String,
}

/// One season of a resolved Plex series.
#[derive(Clone, Debug)]
pub struct Season {
    pub item: PlexItem,
    pub episodes: Vec<PlexItem>,
}

/// A resolved Plex series.
#[derive(Clone, Debug)]
pub struct Series {
    pub item_id: String,
    pub seasons: Vec<Season>,
}

/// The parenthesised time label of a Plex item: its own year, its
/// parent's, or question marks.
pub open spec fn spec_plex_time_label(item: PlexItem) -> Seq<char> {
    match (item.year, item.parentYear) {
        (Some(y), _) => "("@ + spec_decimal(y as int) + ")"@,
        (None, Some(y)) => "("@ + spec_decimal(y as int) + ")"@,
        (None, None) => "(???)"@,
    }
}

/// Builds the parenthesised time label of a Plex item.
pub fn plex_time_label(item: &PlexItem) -> (r: String)
    ensures
        r@ == spec_plex_time_label(*item),
{
    let y = match (item.year, item.parentYear) {
        (Some(y), _) => Some(y),
        (None, Some(y)) => Some(y),
        (None, None) => None,
    };
    match y {
        Some(y) => {
            let mut r = String::from_str("(");
            let year = decimal_string(y as u64);
            r.append(year.as_str());
            r.append(")");
            r
        },
        None => String::from_str("(???)"),
    }
}

/// Whether a Plex item shows a played marker: a container whose leaves
/// are all viewed, or a leaf viewed at least once.
pub open spec fn spec_plex_played(item: PlexItem) -> bool {
    if item.Type@ == "season"@ || item.Type@ == "show"@ {
        match (item.leafCount, item.viewedLeafCount) {
            (Some(l), Some(v)) => l <= v,
            _ => false,
        }
    } else {
        match item.viewCount {
            Some(c) => c > 0,
            None => false,
        }
    }
}

/// Decides whether a Plex item shows a played marker.
pub fn plex_played(item: &PlexItem) -> (r: bool)
    ensures
        r == spec_plex_played(*item),
{
    let season = String::from_str("season");
    let show = String::from_str("show");
    if item.Type == season || item.Type == show {
        match (item.leafCount, item.viewedLeafCount) {
            (Some(l), Some(v)) => l <= v,
            _ => false,
        }
    } else {
        match item.viewCount {
            Some(c) => c > 0,
            None => false,
        }
    }
}

/// The name a Plex item is listed under: a season by its parent, an
/// episode by its grandparent, everything else by its own title, with
/// year suffixes stripped.
pub open spec fn spec_plex_display_name(item: PlexItem) -> Seq<char> {
    let raw = if item.Type@ == "season"@ {
        match item.parentTitle {
            Some(t) => t@,
            None => "???"@,
        }
    } else if item.Type@ == "episode"@ {
        match item.grandparentTitle {
            Some(t) => t@,
            None => "???"@,
        }
    } else {
        item.title@
    };
    spec_strip_years(raw)
}

/// Resolves the name a Plex item is listed under.
pub fn plex_display_name(item: &PlexItem) -> (r: String)
    ensures
        r@ == spec_plex_display_name(*item),
{
    let season = String::from_str("season");
    let episode = String::from_str("episode");
    if item.Type == season {
        match &item.parentTitle {
            Some(t) => strip_years(t.as_str()),
            None => strip_years("???"),
        }
    } else if item.Type == episode {
        match &item.grandparentTitle {
            Some(t) => strip_years(t.as_str()),
            None => strip_years("???"),
        }
    } else {
        strip_years(item.title.as_str())
    }
}

/// The title line of a Plex item, with the played marker where its
/// kind shows one.
pub open spec fn spec_plex_title(item: PlexItem) -> Seq<char> {
    let name = spec_plex_display_name(item);
    let time = spec_plex_time_label(item);
    let played = if spec_plex_played(item) {
        " - (Played)"@
    } else {
        Seq::<char>::empty()
    };
    if item.Type@ == "movie"@ || item.Type@ == "show"@ {
        name + " "@ + time + played
    } else if item.Type@ == "season"@ {
        name + " "@ + time + " - "@ + item.title@
    } else if item.Type@ == "episode"@ {
        name + " "@ + time + " - "@ + spec_episode_code(
            match item.parentIndex {
                Some(p) => p as int,
                None => 0,
            },
            match item.index {
                Some(i) => i as int,
                None => 0,
            },
            None,
        ) + " - "@ + item.title@ + played
    } else {
        item.title@ + " "@ + time + " (unknown media type)"@ + played
    }
}

/// Builds the title line of a Plex item.
pub fn plex_title(item: &PlexItem) -> (r: String)
    ensures
        r@ == spec_plex_title(*item),
{
    let mut r = plex_display_name(item);
    let time = plex_time_label(item);
    let played = plex_played(item);
    let movie = String::from_str("movie");
    let show = String::from_str("show");
    let season = String::from_str("season");
    let episode = String::from_str("episode");
    if item.Type == movie || item.Type == show {
        r.append(" ");
        r.append(time.as_str());
        if played {
            r.append(" - (Played)");
        }
        r
    } else if item.Type == season {
        r.append(" ");
        r.append(time.as_str());
        r.append(" - ");
        r.append(item.title.as_str());
        r
    } else if item.Type == episode {
        r.append(" ");
        r.append(time.as_str());
        r.append(" - ");
        let code = episode_code(
            match item.parentIndex {
                Some(p) => p,
                None => 0,
            },
            match item.index {
                Some(i) => i,
                None => 0,
            },
            None,
        );
        r.append(code.as_str());
        r.append(" - ");
        r.append(item.title.as_str());
        if played {
            r.append(" - (Played)");
        }
        r
    } else {
        let mut o = String::from_str(item.title.as_str());
        o.append(" ");
        o.append(time.as_str());
        o.append(" (unknown media type)");
        if played {
            o.append(" - (Played)");
        }
        o
    }
}

/// The media files of a list that are still present on the server.
pub open spec fn spec_active_media(files: Seq<PlexMediaFile>) -> Seq<PlexMediaFile>
    decreases files.len(),
{
    if files.len() == 0 {
        Seq::empty()
    } else {
        let rest = spec_active_media(files.drop_first());
        if files.first().deletedAt is None {
            seq![files.first()] + rest
        } else {
            rest
        }
    }
}

/// Keeps the media files that are not marked deleted, in order.
pub fn filter_active_media(files: Vec<PlexMediaFile>) -> (r: Vec<PlexMediaFile>)
    ensures
        r@ == spec_active_media(files@),
{
    let ghost files0 = files@;
    let mut rest = files;
    let mut out: Vec<PlexMediaFile> = Vec::new();
    proof {
        assert(Seq::<PlexMediaFile>::empty() + spec_active_media(files0) =~= spec_active_media(
            files0,
        ));
    }
    while rest.len() > 0
        invariant
            spec_active_media(files0) == out@ + spec_active_media(rest@),
        decreases rest@.len(),
    {
        let ghost prev_rest = rest@;
        let ghost prev_out = out@;
        let f = rest.remove(0);
        proof {
            assert(rest@ =~= prev_rest.drop_first());
            assert(f == prev_rest.first());
        }
        if f.deletedAt.is_none() {
            out.push(f);
            proof {
                assert(spec_active_media(prev_rest) =~= seq![prev_rest.first()]
                    + spec_active_media(rest@));
                assert(prev_out + spec_active_media(prev_rest) =~= out@ + spec_active_media(
                    rest@,
                ));
            }
        }
    }
    proof {
        assert(spec_active_media(rest@) =~= Seq::<PlexMediaFile>::empty());
        assert(out@ + Seq::<PlexMediaFile>::empty() =~= out@);
    }
    out
}

/// The streams of a list with this stream type, in order.
pub open spec fn spec_plex_streams_of_type(streams: Seq<PlexStream>, t: u8) -> Seq<PlexStream>
    decreases streams.len(),
{
    if streams.len() == 0 {
        Seq::empty()
    } else {
        let rest = spec_plex_streams_of_type(streams.drop_first(), t);
        if streams.first().streamType == t {
            seq![streams.first()] + rest
        } else {
            rest
        }
    }
}

/// Splits a media part's streams into its audio (type 2) and subtitle
/// (type 3) tracks, in order.
pub fn partition_plex_streams(streams: Vec<PlexStream>) -> (r: (Vec<PlexStream>, Vec<PlexStream>))
    ensures
        r.0@ == spec_plex_streams_of_type(streams@, 2),
        r.1@ == spec_plex_streams_of_type(streams@, 3),
{
    let ghost streams0 = streams@;
    let mut rest = streams;
    let mut audio: Vec<PlexStream> = Vec::new();
    let mut subtitle: Vec<PlexStream> = Vec::new();
    proof {
        assert(Seq::<PlexStream>::empty() + spec_plex_streams_of_type(streams0, 2)
            =~= spec_plex_streams_of_type(streams0, 2));
        assert(Seq::<PlexStream>::empty() + spec_plex_streams_of_type(streams0, 3)
            =~= spec_plex_streams_of_type(streams0, 3));
    }
    while rest.len() > 0
        invariant
            spec_plex_streams_of_type(streams0, 2) == audio@ + spec_plex_streams_of_type(
                rest@,
                2,
            ),
            spec_plex_streams_of_type(streams0, 3) == subtitle@ + spec_plex_streams_of_type(
                rest@,
                3,
            ),
        decreases rest@.len(),
    {
        let ghost prev_rest = rest@;
        let ghost prev_audio = audio@;
        let ghost prev_subtitle = subtitle@;
        let s = rest.remove(0);
        proof {
            assert(rest@ =~= prev_rest.drop_first());
            assert(s == prev_rest.first());
        }
        if s.streamType == 2 {
            audio.push(s);
            proof {
                assert(spec_plex_streams_of_type(prev_rest, 2) =~= seq![prev_rest.first()]
                    + spec_plex_streams_of_type(rest@, 2));
                assert(prev_audio + spec_plex_streams_of_type(prev_rest, 2) =~= audio@
                    + spec_plex_streams_of_type(rest@, 2));
            }
        } else if s.streamType == 3 {
            subtitle.push(s);
            proof {
                assert(spec_plex_streams_of_type(prev_rest, 3) =~= seq![prev_rest.first()]
                    + spec_plex_streams_of_type(rest@, 3));
                assert(prev_subtitle + spec_plex_streams_of_type(prev_rest, 3) =~= subtitle@
                    + spec_plex_streams_of_type(rest@, 3));
            }
        }
    }
    proof {
        assert(spec_plex_streams_of_type(rest@, 2) =~= Seq::<PlexStream>::empty());
        assert(spec_plex_streams_of_type(rest@, 3) =~= Seq::<PlexStream>::empty());
        assert(audio@ + Seq::<PlexStream>::empty() =~= audio@);
        assert(subtitle@ + Seq::<PlexStream>::empty() =~= subtitle@);
    }
    (audio, subtitle)
}

/// Whether some Plex stream of the list carries this index.
pub open spec fn spec_plex_has_index(tracks: Seq<PlexStream>, idx: u32) -> bool {
    exists|k: int| 0 <= k < tracks.len() && tracks[k].index == Some(idx)
}

/// The resolution a Plex track list and a carried index owe, under the
/// same rule as the shared negotiator: reuse a still-valid carried
/// index, auto-select a sole candidate, prompt among several, default
/// with none.
pub open spec fn spec_resolve_plex_track(tracks: Seq<PlexStream>, carried: Option<u32>) -> TrackResolution {
    if carried matches Some(c) && spec_plex_has_index(tracks, c) {
        TrackResolution::Carried(carried->0)
    } else if tracks.len() == 1 {
        TrackResolution::Auto(0)
    } else if tracks.len() > 1 {
        TrackResolution::Prompt
    } else {
        TrackResolution::NoTracks
    }
}

/// Resolves one Plex track choice against this title's own streams.
#[verifier::loop_isolation(false)]
pub fn resolve_plex_track(tracks: &Vec<PlexStream>, carried: Option<u32>) -> (r: TrackResolution)
    ensures
        r == spec_resolve_plex_track(tracks@, carried),
{
    if let Some(c) = carried {
        let mut k: usize = 0;
        while k < tracks.len()
            invariant
                0 <= k <= tracks@.len(),
                forall|j: int| 0 <= j < k ==> tracks@[j].index != Some(c),
            decreases tracks@.len() - k,
        {
            let matches_carried = match tracks[k].index {
                Some(idx) => idx == c,
                None => false,
            };
            if matches_carried {
                proof {
                    assert(tracks@[k as int].index == Some(c));
                    assert(spec_plex_has_index(tracks@, c));
                }
                return TrackResolution::Carried(c);
            }
            k += 1;
        }
        proof {
            assert(!spec_plex_has_index(tracks@, c));
        }
    }
    if tracks.len() == 1 {
        TrackResolution::Auto(0)
    } else if tracks.len() > 1 {
        TrackResolution::Prompt
    } else {
        TrackResolution::NoTracks
    }
}

/// The flattened, playback-ordered episode list of a Plex series.
pub open spec fn spec_flatten_plex_seasons(ss: Seq<Season>) -> Seq<PlexItem>
    decreases ss.len(),
{
    if ss.len() == 0 {
        Seq::empty()
    } else {
        ss.first().episodes@ + spec_flatten_plex_seasons(ss.drop_first())
    }
}

/// Flattens a resolved Plex series into its playback-ordered episode
/// list.
pub fn flatten_plex_series(series: Series) -> (v: Vec<PlexItem>)
    ensures
        v@ == spec_flatten_plex_seasons(series.seasons@),
{
    let ghost seasons0 = series.seasons@;
    let mut rest = series.seasons;
    let mut out: Vec<PlexItem> = Vec::new();
    while rest.len() > 0
        invariant
            spec_flatten_plex_seasons(seasons0) == out@ + spec_flatten_plex_seasons(rest@),
        decreases rest@.len(),
    {
        let ghost prev_rest = rest@;
        let season = rest.remove(0);
        proof {
            assert(rest@ =~= prev_rest.drop_first());
            assert(season == prev_rest.first());
        }
        let ghost out_start = out@;
        let ghost eps0 = season.episodes@;
        let mut eps = season.episodes;
        while eps.len() > 0
            invariant
                out@ + eps@ == out_start + eps0,
            decreases eps@.len(),
        {
            let ghost prev_eps = eps@;
            let e = eps.remove(0);
            assert(eps@ =~= prev_eps.drop_first());
            out.push(e);
            assert(out@ + eps@ =~= out_start + eps0);
        }
        assert(out@ =~= out_start + eps0);
        assert(out_start + spec_flatten_plex_seasons(prev_rest) =~= out@
            + spec_flatten_plex_seasons(rest@));
    }
    proof {
        assert(spec_flatten_plex_seasons(rest@) =~= Seq::<PlexItem>::empty());
        assert(out@ =~= out@ + Seq::<PlexItem>::empty());
    }
    out
}

} // verus!
