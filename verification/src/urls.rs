//! Construction of the URLs the client exchanges with its servers: the
//! stream and subtitle addresses handed to the local player, the Plex
//! timeline and scrobble queries, and the reading of track indices back
//! out of a transcode URL.

use vstd::prelude::*;

use crate::items::spec_is_ascii_digit;
use crate::items::spec_is_numeric;
use vstd::string::StringSliceAdditionalSpecFns;
use vstd::utf8::encode_utf8;
use crate::text::decimal_string;
use crate::text::spec_decimal;
use crate::text::spec_digits_val;
use crate::text::parse_decimal_u64;

verus! {

/// Whether a byte stays as it is under percent-encoding.
pub open spec fn spec_url_unreserved(b: u8) -> bool {
    (48 <= b <= 57) || (65 <= b <= 90) || (97 <= b <= 122) || b == 45 || b == 46 || b == 95 || b
        == 126
}

/// The character for a hex digit value, upper case.
pub open spec fn spec_hex_char(d: u8) -> char {
    if d < 10 {
        ((48 + d) as u8) as char
    } else {
        ((55 + d) as u8) as char
    }
}

/// The percent-encoding of one byte.
pub open spec fn spec_url_encoded_byte(b: u8) -> Seq<char> {
    if spec_url_unreserved(b) {
        seq![b as char]
    } else {
        seq!['%', spec_hex_char(b / 16), spec_hex_char(b % 16)]
    }
}

/// The percent-encoding of a byte string: alphanumerics and `-`, `.`,
/// `_`, `~` stay, every other byte becomes `%` and two upper-case hex
/// digits.
pub open spec fn spec_url_encoded(bs: Seq<u8>) -> Seq<char>
    decreases bs.len(),
{
    if bs.len() == 0 {
        Seq::empty()
    } else {
        spec_url_encoded_byte(bs.first()) + spec_url_encoded(bs.drop_first())
    }
}

/// Relies on urlencoding::encode: percent-encodes every byte of the
/// UTF-8 form except ASCII alphanumerics and `-`, `.`, `_`, `~`, with
/// upper-case hex digits.
#[verifier::external_body]
pub fn url_encode(s: &str) -> (r: String)
    ensures
        r@ == spec_url_encoded(s.spec_bytes()),
{
    urlencoding::encode(s).into_owned()
}

/// The number of leading `/` characters.
pub open spec fn spec_leading_slashes(s: Seq<char>) -> int
    decreases s.len(),
{
    if s.len() == 0 || s.first() != '/' {
        0
    } else {
        1 + spec_leading_slashes(s.drop_first())
    }
}

/// Drops the leading slashes of a server-relative URL.
pub fn trim_leading_slashes(s: &str) -> (r: &str)
    ensures
        r@ == s@.skip(spec_leading_slashes(s@)),
{
    let len = s.unicode_len();
    let mut i: usize = 0;
    proof {
        assert(s@.skip(0) =~= s@);
    }
    while i < len
        invariant
            0 <= i <= len == s@.len(),
            spec_leading_slashes(s@) == i + spec_leading_slashes(s@.skip(i as int)),
        decreases len - i,
    {
        proof {
            assert(s@.skip(i as int).first() == s@[i as int]);
            assert(s@.skip(i as int).drop_first() =~= s@.skip(i + 1));
        }
        if s.get_char(i) != '/' {
            proof {
                assert(spec_leading_slashes(s@.skip(i as int)) == 0);
            }
            return s.substring_char(i, len);
        }
        i += 1;
    }
    proof {
        assert(s@.skip(len as int) =~= Seq::<char>::empty());
        assert(spec_leading_slashes(s@.skip(len as int)) == 0);
    }
    s.substring_char(len, len)
}

/// The direct-play stream URL of a media source.
pub open spec fn spec_direct_stream_url(addr: Seq<char>, item_id: Seq<char>, token: Seq<char>) -> Seq<
    char,
> {
    addr + "Videos/"@ + item_id + "/stream?Container=mkv&Static=true&api_key="@ + token
}

/// Builds the URL the player streams a source from directly.
pub fn direct_stream_url(server_address: &str, item_id: &str, token: &str) -> (r: String)
    ensures
        r@ == spec_direct_stream_url(server_address@, item_id@, token@),
{
    let mut r = String::from_str(server_address);
    r.append("Videos/");
    r.append(item_id);
    r.append("/stream?Container=mkv&Static=true&api_key=");
    r.append(token);
    r
}

/// Builds the URL the player streams a negotiated transcode from: the
/// server address and the server-issued transcode path.
pub fn transcode_stream_url(server_address: &str, transcoding_url: &str) -> (r: String)
    ensures
        r@ == server_address@ + transcoding_url@.skip(spec_leading_slashes(transcoding_url@)),
{
    let mut r = String::from_str(server_address);
    r.append(trim_leading_slashes(transcoding_url));
    r
}

/// An external subtitle stream URL.
pub open spec fn spec_subtitle_url(
    addr: Seq<char>,
    item_id: Seq<char>,
    source_id: Seq<char>,
    index: int,
    extension: Seq<char>,
    token: Seq<char>,
    start_ticks: Option<u64>,
) -> Seq<char> {
    let base = addr + "Videos/"@ + item_id + "/"@ + source_id + "/Subtitles/"@ + spec_decimal(
        index,
    ) + "/Stream."@ + extension + "?api_key="@ + token;
    match start_ticks {
        Some(t) => base + "&StartPositionTicks="@ + spec_decimal(t as int),
        None => base,
    }
}

/// Builds the URL an external subtitle stream is loaded from; a
/// transcoded session carries its start offset so the subtitles line
/// up.
pub fn subtitle_url(
    server_address: &str,
    item_id: &str,
    source_id: &str,
    index: u64,
    extension: &str,
    token: &str,
    start_ticks: Option<u64>,
) -> (r: String)
    ensures
        r@ == spec_subtitle_url(
            server_address@,
            item_id@,
            source_id@,
            index as int,
            extension@,
            token@,
            start_ticks,
        ),
{
    let mut r = String::from_str(server_address);
    r.append("Videos/");
    r.append(item_id);
    r.append("/");
    r.append(source_id);
    r.append("/Subtitles/");
    let idx = decimal_string(index);
    r.append(idx.as_str());
    r.append("/Stream.");
    r.append(extension);
    r.append("?api_key=");
    r.append(token);
    match start_ticks {
        Some(t) => {
            r.append("&StartPositionTicks=");
            let ticks = decimal_string(t);
            r.append(ticks.as_str());
        },
        None => {},
    }
    r
}

/// The position of the last `.`, or the length when there is none.
pub open spec fn spec_last_dot(s: Seq<char>) -> int
    decreases s.len(),
{
    if s.len() == 0 {
        0
    } else if s.last() == '.' {
        s.len() - 1
    } else if spec_last_dot(s.drop_last()) == s.len() - 1 {
        s.len() as int
    } else {
        spec_last_dot(s.drop_last())
    }
}

/// The last-dot marker never lies beyond the length.
proof fn lemma_last_dot_le(s: Seq<char>)
    ensures
        0 <= spec_last_dot(s) <= s.len(),
    decreases s.len(),
{
    if s.len() > 0 {
        lemma_last_dot_le(s.drop_last());
    }
}

/// The piece after the last `.` of a path — the file extension a
/// subtitle stream is typed by — or the whole string without one.
pub fn extension_of(path: &str) -> (r: &str)
    ensures
        r@ == if spec_last_dot(path@) == path@.len() {
            path@
        } else {
            path@.skip(spec_last_dot(path@) + 1)
        },
{
    let len = path.unicode_len();
    let mut i: usize = len;
    proof {
        assert(path@.take(len as int) =~= path@);
        lemma_last_dot_le(path@);
    }
    while i > 0
        invariant
            0 <= i <= len == path@.len(),
            (spec_last_dot(path@.take(i as int)) == i as int && spec_last_dot(path@)
                == path@.len()) || (spec_last_dot(path@.take(i as int)) < i as int
                && spec_last_dot(path@) == spec_last_dot(path@.take(i as int))),
        decreases i,
    {
        proof {
            lemma_last_dot_le(path@.take(i as int));
            assert(path@.take(i as int).last() == path@[i - 1]);
            assert(path@.take(i as int).drop_last() =~= path@.take(i - 1));
            lemma_last_dot_le(path@.take(i - 1));
        }
        if path.get_char(i - 1) == '.' {
            proof {
                assert(spec_last_dot(path@.take(i as int)) == i - 1);
                assert(spec_last_dot(path@) == i - 1);
            }
            return path.substring_char(i, len);
        }
        i -= 1;
    }
    proof {
        assert(path@.take(0) =~= Seq::<char>::empty());
        assert(spec_last_dot(path@.take(0)) == 0);
        assert(spec_last_dot(path@) == path@.len());
    }
    path
}

/// The Plex timeline query reporting a playing or paused position.
pub open spec fn spec_plex_timeline_query(
    item_id: Seq<char>,
    state: Seq<char>,
    time_ms: int,
    duration_ms: int,
    product: Seq<char>,
    device_name: Seq<char>,
) -> Seq<char> {
    ":/timeline?X-Plex-Platform="@ + spec_url_encoded(encode_utf8("Plex Home Theater"@))
        + "&ratingKey="@ + item_id + "&key="@ + spec_url_encoded(
        encode_utf8("/library/metadata/"@),
    ) + item_id + "&state="@ + state + "&time="@ + spec_decimal(time_ms) + "&duration="@
        + spec_decimal(duration_ms) + "&X-Plex-Product="@ + product + "&X-Plex-Device-Name="@
        + device_name + "&hasMDE=1"@
}

/// Builds the Plex timeline query for a progress or stop report.
pub fn plex_timeline_query(
    item_id: &str,
    state: &str,
    time_ms: u64,
    duration_ms: u64,
    product: &str,
    device_name: &str,
) -> (r: String)
    ensures
        r@ == spec_plex_timeline_query(
            item_id@,
            state@,
            time_ms as int,
            duration_ms as int,
            product@,
            device_name@,
        ),
{
    let mut r = String::from_str(":/timeline?X-Plex-Platform=");
    let platform = url_encode("Plex Home Theater");
    r.append(platform.as_str());
    r.append("&ratingKey=");
    r.append(item_id);
    r.append("&key=");
    let key_prefix = url_encode("/library/metadata/");
    r.append(key_prefix.as_str());
    r.append(item_id);
    r.append("&state=");
    r.append(state);
    r.append("&time=");
    let time = decimal_string(time_ms);
    r.append(time.as_str());
    r.append("&duration=");
    let duration = decimal_string(duration_ms);
    r.append(duration.as_str());
    r.append("&X-Plex-Product=");
    r.append(product);
    r.append("&X-Plex-Device-Name=");
    r.append(device_name);
    r.append("&hasMDE=1");
    r
}

/// The Plex scrobble (or unscrobble) query marking an item played or
/// unplayed.
pub open spec fn spec_plex_scrobble_query(key: Seq<char>, played: bool) -> Seq<char> {
    (if played {
        ":/scrobble"@
    } else {
        ":/unscrobble"@
    }) + "?identifier=com.plexapp.plugins.library&key="@ + key
}

/// Builds the Plex scrobble or unscrobble query.
pub fn plex_scrobble_query(key: &str, played: bool) -> (r: String)
    ensures
        r@ == spec_plex_scrobble_query(key@, played),
{
    let mut r = if played {
        String::from_str(":/scrobble")
    } else {
        String::from_str(":/unscrobble")
    };
    r.append("?identifier=com.plexapp.plugins.library&key=");
    r.append(key);
    r
}

/// Whether `pat` stands at position `i` of `s`.
pub open spec fn spec_match_at(s: Seq<char>, pat: Seq<char>, i: int) -> bool {
    0 <= i && i + pat.len() <= s.len() && s.subrange(i, i + pat.len()) == pat
}

/// The first position where `pat` stands in `s`, or the length of `s`.
pub open spec fn spec_first_match(s: Seq<char>, pat: Seq<char>, from: int) -> int
    decreases s.len() - from + 1,
{
    if from < 0 || from + pat.len() > s.len() {
        s.len() as int
    } else if spec_match_at(s, pat, from) {
        from
    } else {
        spec_first_match(s, pat, from + 1)
    }
}

/// Whether `pat` stands at position `i` of `s`, decided by characters.
fn match_at(s: &str, pat: &str, i: usize) -> (r: bool)
    requires
        i + pat@.len() <= s@.len(),
    ensures
        r == spec_match_at(s@, pat@, i as int),
{
    let slen = s.unicode_len();
    let plen = pat.unicode_len();
    let mut k: usize = 0;
    while k < plen
        invariant
            0 <= k <= plen == pat@.len(),
            slen == s@.len(),
            i + plen <= slen,
            forall|j: int| 0 <= j < k ==> s@[i + j] == pat@[j],
        decreases plen - k,
    {
        if s.get_char(i + k) != pat.get_char(k) {
            proof {
                assert(s@.subrange(i as int, i + pat@.len())[k as int] != pat@[k as int]);
            }
            return false;
        }
        k += 1;
    }
    proof {
        assert(s@.subrange(i as int, i + pat@.len()) =~= pat@);
    }
    true
}

/// The end of the digit run starting at `from`.
pub open spec fn spec_digit_run_end(s: Seq<char>, from: int) -> int
    decreases s.len() - from,
{
    if from < 0 || from >= s.len() || !spec_is_ascii_digit(s[from]) {
        from
    } else {
        spec_digit_run_end(s, from + 1)
    }
}

/// Finds where the digit run starting at `start` ends.
fn digit_run_end(s: &str, start: usize) -> (end: usize)
    requires
        start <= s@.len(),
    ensures
        end == spec_digit_run_end(s@, start as int),
        start <= end <= s@.len(),
{
    let len = s.unicode_len();
    let mut end: usize = start;
    while end < len
        invariant
            start <= end <= len == s@.len(),
            spec_digit_run_end(s@, start as int) == spec_digit_run_end(s@, end as int),
        decreases len - end,
    {
        let c = s.get_char(end);
        if !('0' <= c && c <= '9') {
            proof {
                assert(spec_digit_run_end(s@, end as int) == end);
            }
            return end;
        }
        end += 1;
    }
    proof {
        assert(spec_digit_run_end(s@, end as int) == end);
    }
    end
}

/// Reads the decimal number standing right after the first occurrence
/// of `key` in `url` — the way a stream index is carried inside a
/// transcode URL.  Nothing when the key does not occur, no digit
/// follows it, or the number overflows.
#[verifier::loop_isolation(false)]
pub fn parse_stream_index(url: &str, key: &str) -> (r: Option<u32>)
    requires
        key@.len() >= 1,
    ensures
        r == ({
            let m = spec_first_match(url@, key@, 0);
            if m == url@.len() {
                None::<u32>
            } else {
                let start = m + key@.len();
                let end = spec_digit_run_end(url@, start);
                let digits = url@.subrange(start, end);
                if start < end && spec_digits_val(digits) <= u32::MAX {
                    Some(spec_digits_val(digits) as u32)
                } else {
                    None::<u32>
                }
            }
        }),
{
    let ulen = url.unicode_len();
    let klen = key.unicode_len();
    if klen > ulen {
        proof {
            assert(spec_first_match(url@, key@, 0) == url@.len());
        }
        return None;
    }
    let mut i: usize = 0;
    let mut found: Option<usize> = None;
    while i <= ulen - klen
        invariant
            0 <= i <= ulen - klen + 1,
            found is None,
            spec_first_match(url@, key@, 0) == spec_first_match(url@, key@, i as int),
        decreases ulen - klen + 1 - i,
    {
        if match_at(url, key, i) {
            found = Some(i);
            break;
        }
        i += 1;
    }
    let m = match found {
        Some(m) => m,
        None => {
            proof {
                assert(spec_first_match(url@, key@, i as int) == url@.len());
            }
            return None;
        },
    };
    proof {
        assert(spec_first_match(url@, key@, 0) == m);
        assert(m < url@.len());
    }
    let start = m + klen;
    let end = digit_run_end(url, start);
    if end == start {
        return None;
    }
    match parse_decimal_u64(url, start, end) {
        Some(v) => {
            proof {
                crate::text::lemma_digits_val_prefix_le(
                    url@.subrange(start as int, end as int),
                    0,
                );
            }
            if v <= u32::MAX as u64 {
                Some(v as u32)
            } else {
                None
            }
        },
        None => {
            proof {
                let digits = url@.subrange(start as int, end as int);
                assert(forall|j: int|
                    start <= j < end ==> spec_is_ascii_digit(#[trigger] url@[j])) by {
                    assert forall|j: int|
                        start <= j < end implies spec_is_ascii_digit(#[trigger] url@[j]) by {
                        lemma_digit_run(url@, start as int, end as int, j);
                    }
                }
                assert(forall|j: int|
                    0 <= j < digits.len() ==> spec_is_ascii_digit(#[trigger] digits[j]));
                assert(spec_is_numeric(digits));
                crate::text::lemma_digits_val_prefix_le(digits, 0);
            }
            None
        },
    }
}

/// Every position of a digit run up to its end holds a digit.
proof fn lemma_digit_run(s: Seq<char>, start: int, end: int, j: int)
    requires
        0 <= start <= j < end <= s.len(),
        spec_digit_run_end(s, start) == end,
    ensures
        spec_is_ascii_digit(s[j]),
    decreases j - start,
{
    if spec_digit_run_end(s, start) == start {
    } else {
        if j > start {
            lemma_digit_run(s, start + 1, end, j);
        }
    }
}


/// The client profile document a Plex transcode decision carries: a
/// direct-play profile for matroska and a matroska transcode target
/// with a ten-bit depth limit.
pub fn plex_client_profiles() -> (r: &'static str)
    ensures
        r@ == client_profiles_view(),
{
    "add-direct-play-profile(type=videoProfile&protocol=http&container=mkv&videoCodec=*&audioCodec=*&subtitleCodec=*)+add-transcode-target(type=videoProfile&context=streaming&protocol=http&container=mkv&videoCodec=h264,hevc,png,apng,bmp,mjpeg,thp,gif,vp8,vp9,dirac,ffv1,ffvhuff,huffyuv,rawvideo,012v,ayuv,r210,v210,v210x,v308,v408,v410,y41p,yuv4,ansi,h263,mpeg1video,mpeg2video,mpeg4&audioCodec=ape,aac,aac_latm,alac,dca,vorbis,opus,pcm,pcm_alaw,pcm_mulaw,pcm_bluray,pcm_dvd,mp1,mp2,eac3,ac3,flac,mp3&subtitleCodec=*&replace=true)+add-limitation(scope=videoCodec&scopeName=*&type=upperBound&name=video.bitDepth&value=10&replace=true)"
}

/// The encoded metadata path of a Plex item.
pub open spec fn spec_plex_metadata_path(key: Seq<char>) -> Seq<char> {
    spec_url_encoded(encode_utf8("/library/metadata/"@ + key))
}

/// Percent-encodes the metadata path of a Plex item, as the transcode
/// queries carry it.
pub fn plex_metadata_path(key: &str) -> (r: String)
    ensures
        r@ == spec_plex_metadata_path(key@),
{
    let mut path = String::from_str("/library/metadata/");
    path.append(key);
    url_encode(path.as_str())
}

/// The Plex transcode decision query: the session, an optional bitrate
/// ceiling in kilobits (its absence asks for direct play), the fixed
/// streaming switches, the client profile document and the item path.
pub open spec fn spec_plex_decision_query(
    device_id: Seq<char>,
    bitrate_kbps: Option<u64>,
    key: Seq<char>,
) -> Seq<char> {
    "video/:/transcode/universal/decision?session="@ + device_id + (match bitrate_kbps {
        Some(kbps) => "&maxVideoBitrate="@ + spec_decimal(kbps as int) + "&directPlay=0"@,
        None => "&directPlay=1"@,
    })
        + "&directStream=1&copyts=1&fastSeek=1&subtitles=embedded&directStreamAudio=1&protocol=http&hasMDE=1&mediaIndex=0&partIndex=0&X-Plex-Platform="@
        + spec_url_encoded(encode_utf8("Plex Home Theater"@)) + "&X-Plex-Client-Profile-Extra="@
        + spec_url_encoded(encode_utf8(client_profiles_view())) + "&path="@
        + spec_plex_metadata_path(key)
}

/// The view of the client profile document.
pub open spec fn client_profiles_view() -> Seq<char> {
    "add-direct-play-profile(type=videoProfile&protocol=http&container=mkv&videoCodec=*&audioCodec=*&subtitleCodec=*)+add-transcode-target(type=videoProfile&context=streaming&protocol=http&container=mkv&videoCodec=h264,hevc,png,apng,bmp,mjpeg,thp,gif,vp8,vp9,dirac,ffv1,ffvhuff,huffyuv,rawvideo,012v,ayuv,r210,v210,v210x,v308,v408,v410,y41p,yuv4,ansi,h263,mpeg1video,mpeg2video,mpeg4&audioCodec=ape,aac,aac_latm,alac,dca,vorbis,opus,pcm,pcm_alaw,pcm_mulaw,pcm_bluray,pcm_dvd,mp1,mp2,eac3,ac3,flac,mp3&subtitleCodec=*&replace=true)+add-limitation(scope=videoCodec&scopeName=*&type=upperBound&name=video.bitDepth&value=10&replace=true)"@
}

/// Builds the Plex transcode decision query.
pub fn plex_decision_query(device_id: &str, bitrate_kbps: Option<u64>, key: &str) -> (r: String)
    ensures
        r@ == spec_plex_decision_query(device_id@, bitrate_kbps, key@),
{
    let mut r = String::from_str("video/:/transcode/universal/decision?session=");
    r.append(device_id);
    match bitrate_kbps {
        Some(kbps) => {
            r.append("&maxVideoBitrate=");
            let rate = decimal_string(kbps);
            r.append(rate.as_str());
            r.append("&directPlay=0");
        },
        None => {
            r.append("&directPlay=1");
        },
    }
    r.append(
        "&directStream=1&copyts=1&fastSeek=1&subtitles=embedded&directStreamAudio=1&protocol=http&hasMDE=1&mediaIndex=0&partIndex=0&X-Plex-Platform=",
    );
    let platform = url_encode("Plex Home Theater");
    r.append(platform.as_str());
    r.append("&X-Plex-Client-Profile-Extra=");
    let profiles = url_encode(plex_client_profiles());
    r.append(profiles.as_str());
    r.append("&path=");
    let path = plex_metadata_path(key);
    r.append(path.as_str());
    r
}

/// The Plex track selection update: the part, and the chosen audio and
/// subtitle stream ids where the part has such streams at all.
pub open spec fn spec_plex_track_selection_query(
    part_id: int,
    audio_stream_id: Option<u32>,
    subtitle_stream_id: Option<u32>,
) -> Seq<char> {
    "library/parts/"@ + spec_decimal(part_id) + "?allParts=1"@ + (match audio_stream_id {
        Some(id) => "&audioStreamID="@ + spec_decimal(id as int),
        None => Seq::<char>::empty(),
    }) + (match subtitle_stream_id {
        Some(id) => "&subtitleStreamID="@ + spec_decimal(id as int),
        None => Seq::<char>::empty(),
    })
}

/// Builds the Plex track selection update.
pub fn plex_track_selection_query(
    part_id: u64,
    audio_stream_id: Option<u32>,
    subtitle_stream_id: Option<u32>,
) -> (r: String)
    ensures
        r@ == spec_plex_track_selection_query(
            part_id as int,
            audio_stream_id,
            subtitle_stream_id,
        ),
{
    let mut r = String::from_str("library/parts/");
    let part = decimal_string(part_id);
    r.append(part.as_str());
    r.append("?allParts=1");
    match audio_stream_id {
        Some(id) => {
            r.append("&audioStreamID=");
            let id_str = decimal_string(id as u64);
            r.append(id_str.as_str());
        },
        None => {},
    }
    match subtitle_stream_id {
        Some(id) => {
            r.append("&subtitleStreamID=");
            let id_str = decimal_string(id as u64);
            r.append(id_str.as_str());
        },
        None => {},
    }
    r
}

/// The Plex transcoded stream URL: the universal transcode start with
/// the negotiated session and the resume offset in seconds.
pub open spec fn spec_plex_transcode_url(
    addr: Seq<char>,
    auth: Seq<char>,
    key: Seq<char>,
    device_id: Seq<char>,
    offset_secs: int,
) -> Seq<char> {
    addr + "video/:/transcode/universal/start.mkv?"@ + auth + "&path="@
        + spec_plex_metadata_path(key) + "&subtitles=embedded&directPlay=0&directStream=1&session="@
        + device_id + "&protocol=http&X-Plex-Platform="@ + spec_url_encoded(
        encode_utf8("Plex Home Theater"@),
    ) + "&fastSeek=1&offset="@ + spec_decimal(offset_secs)
}

/// Builds the URL the player streams a Plex transcode from.
pub fn plex_transcode_url(
    server_address: &str,
    auth: &str,
    key: &str,
    device_id: &str,
    offset_secs: u64,
) -> (r: String)
    ensures
        r@ == spec_plex_transcode_url(
            server_address@,
            auth@,
            key@,
            device_id@,
            offset_secs as int,
        ),
{
    let mut r = String::from_str(server_address);
    r.append("video/:/transcode/universal/start.mkv?");
    r.append(auth);
    r.append("&path=");
    let path = plex_metadata_path(key);
    r.append(path.as_str());
    r.append("&subtitles=embedded&directPlay=0&directStream=1&session=");
    r.append(device_id);
    r.append("&protocol=http&X-Plex-Platform=");
    let platform = url_encode("Plex Home Theater");
    r.append(platform.as_str());
    r.append("&fastSeek=1&offset=");
    let offset = decimal_string(offset_secs);
    r.append(offset.as_str());
    r
}

/// The Plex direct stream URL of a media part.
pub open spec fn spec_plex_direct_url(addr: Seq<char>, part_key: Seq<char>, auth: Seq<char>) -> Seq<
    char,
> {
    addr + part_key.skip(spec_leading_slashes(part_key)) + "?"@ + auth + "&X-Plex-Platform="@
        + spec_url_encoded(encode_utf8("Plex Home Theater"@))
}

/// Builds the URL the player streams a Plex part from directly.
pub fn plex_direct_url(server_address: &str, part_key: &str, auth: &str) -> (r: String)
    ensures
        r@ == spec_plex_direct_url(server_address@, part_key@, auth@),
{
    let mut r = String::from_str(server_address);
    r.append(trim_leading_slashes(part_key));
    r.append("?");
    r.append(auth);
    r.append("&X-Plex-Platform=");
    let platform = url_encode("Plex Home Theater");
    r.append(platform.as_str());
    r
}

} // verus!
