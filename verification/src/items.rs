//! The catalog data model: items fetched from a Jellyfin or Emby style
//! server, their media sources and streams, and the per-user state that
//! travels with them.  These are plain values; fetching and decoding
//! them from the wire happens outside this crate.

use vstd::prelude::*;

verus! {

/// Per-user playback state attached to an item.  The played percentage
/// is carried rounded to whole percent.
#[derive(Clone, Debug, PartialEq)]
pub struct UserData {
    pub PlayedPercentage: Option<u32>,
    pub PlaybackPositionTicks: u64,
    pub Played: bool,
}

/// One audio, subtitle or video stream inside a media source.
#[derive(Clone, Debug, PartialEq)]
pub struct MediaStream {
    pub Index: u32,
    pub Type: String,
    pub Language: Option<String>,
    pub DisplayTitle: Option<String>,
    pub DisplayLanguage: Option<String>,
    pub Title: Option<String>,
    pub Codec: Option<String>,
    pub Width: Option<u32>,
    pub Height: Option<u32>,
    pub IsDefault: bool,
    pub IsExternal: bool,
    pub SupportsExternalStream: bool,
    pub Path: Option<String>,
}

/// One physical variant of an item: an ordered set of streams, a
/// transcode-capability flag and, after negotiation, a pre-built
/// transcode URL.
#[derive(Clone, Debug, PartialEq)]
pub struct MediaSourceInfo {
    pub Id: String,
    pub Path: Option<String>,
    pub SupportsTranscoding: bool,
    pub MediaStreams: Vec<MediaStream>,
    pub Bitrate: Option<u64>,
    pub TranscodingUrl: Option<String>,
}

/// A playable or container unit of the server catalog.
#[derive(Clone, Debug, PartialEq)]
pub struct Item {
    pub Name: String,
    pub Id: String,
    pub IndexNumber: Option<u32>,
    pub IndexNumberEnd: Option<u32>,
    pub ParentIndexNumber: Option<u32>,
    pub RunTimeTicks: Option<u64>,
    pub Type: String,
    pub UserData: UserData,
    pub SeriesName: Option<String>,
    pub SeriesId: Option<String>,
    pub SeasonName: Option<String>,
    pub SeasonId: Option<String>,
    pub PremiereDate: Option<String>,
    pub ProductionYear: Option<u32>,
    pub Status: Option<String>,
    pub EndDate: Option<String>,
    pub MediaSources: Option<Vec<MediaSourceInfo>>,
}

/// The server's answer to a playback-info request: the media sources it
/// offers and the id of the play session it opened.
#[derive(Clone, Debug, PartialEq)]
pub struct PlaybackInfo {
    pub MediaSources: Vec<MediaSourceInfo>,
    pub PlaySessionId: String,
}

/// The per-user configuration carried by the server's user record.
#[derive(Clone, Debug, PartialEq)]
pub struct UserConfiguration {
    pub PlayDefaultAudioTrack: bool,
    pub AudioLanguagePreference: Option<String>,
    pub SubtitleLanguagePreference: Option<String>,
}

/// The slice of the server's user record that the negotiator reads.
#[derive(Clone, Debug, PartialEq)]
pub struct UserDto {
    pub Configuration: UserConfiguration,
}

/// A username and password pair collected for a login attempt.
#[derive(Clone, Debug, PartialEq)]
pub struct UserCredentials {
    pub username: String,
    pub password: String,
}

/// Whether a character is an ASCII decimal digit.
pub open spec fn spec_is_ascii_digit(c: char) -> bool {
    '0' <= c && c <= '9'
}

/// A string of one or more ASCII digits and nothing else.
pub open spec fn spec_is_numeric(s: Seq<char>) -> bool {
    s.len() > 0 && forall|i: int| 0 <= i < s.len() ==> spec_is_ascii_digit(#[trigger] s[i])
}

/// Strings that consist of decimal digits only, and are not empty.
pub trait IsNumeric {
    /// The property the check decides.
    spec fn numeric_view(&self) -> bool;

    fn is_numeric(&self) -> (r: bool)
        ensures
            r == self.numeric_view(),
    ;
}

impl IsNumeric for str {
    open spec fn numeric_view(&self) -> bool {
        spec_is_numeric(self@)
    }

    fn is_numeric(&self) -> (r: bool)
        ensures
            r == self.numeric_view(),
    {
        let len = self.unicode_len();
        if len == 0 {
            return false;
        }
        let mut i: usize = 0;
        while i < len
            invariant
                0 < len == self@.len(),
                0 <= i <= len,
                forall|j: int| 0 <= j < i ==> spec_is_ascii_digit(#[trigger] self@[j]),
            decreases len - i,
        {
            let c = self.get_char(i);
            if !('0' <= c && c <= '9') {
                return false;
            }
            i += 1;
        }
        true
    }
}

} // verus!
