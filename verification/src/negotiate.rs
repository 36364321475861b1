//! The track and transcode negotiator: which delivery a title gets,
//! which audio and subtitle tracks are used, what bandwidth ceiling is
//! declared, and — crucially — which of those questions still need a
//! prompt and which are settled by the preference carried over from the
//! previous title of the playlist.

use vstd::prelude::*;

use crate::items::MediaStream;
use crate::items::spec_is_ascii_digit;
use crate::items::spec_is_numeric;
use crate::text::parse_decimal_u64;
use crate::text::pow10;
use crate::text::spec_digits_val;
use crate::text::spec_pow10;
use crate::input::spec_find_before;
use crate::TICKS_PER_SECOND;

verus! {

/// The resolved choice carried forward from one negotiation to the
/// next title of the same playlist.
#[derive(Clone, Debug, PartialEq)]
pub struct TrackPreference {
    /// The current title is being finished: skip the resume prompt.
    pub finish_current: bool,
    /// The audio stream index used by the previous title.
    pub audio: Option<u32>,
    /// The subtitle stream index used by the previous title.
    pub subtitle: Option<u32>,
    /// The bandwidth ceiling in Mbps the user entered once.
    pub bandwidth_mbps: Option<u64>,
}

/// How a track index was settled.
#[derive(Clone, Copy, Debug, PartialEq, Eq, Structural)]
pub enum TrackResolution {
    /// The carried index is still valid for this title's own streams.
    Carried(u32),
    /// Exactly one candidate: selected without asking.
    Auto(u32),
    /// Several candidates and no valid carried index: ask.
    Prompt,
    /// No candidate at all: fall back to index zero.
    NoTracks,
}

/// Whether some stream of the list carries this index.
pub open spec fn spec_has_index(tracks: Seq<MediaStream>, idx: u32) -> bool {
    exists|k: int| 0 <= k < tracks.len() && tracks[k].Index == idx
}

/// The resolution a track list and a carried index owe: reuse the
/// carried index while it is valid, auto-select a sole candidate,
/// prompt among several, and default to zero with none.
pub open spec fn spec_resolve_track(tracks: Seq<MediaStream>, carried: Option<u32>) -> TrackResolution {
    if carried matches Some(c) && spec_has_index(tracks, c) {
        TrackResolution::Carried(carried->0)
    } else if tracks.len() == 1 {
        TrackResolution::Auto(tracks[0].Index)
    } else if tracks.len() > 1 {
        TrackResolution::Prompt
    } else {
        TrackResolution::NoTracks
    }
}

/// Resolves one track choice against this title's own streams.
#[verifier::loop_isolation(false)]
pub fn resolve_track(tracks: &Vec<MediaStream>, carried: Option<u32>) -> (r: TrackResolution)
    ensures
        r == spec_resolve_track(tracks@, carried),
{
    if let Some(c) = carried {
        let mut k: usize = 0;
        while k < tracks.len()
            invariant
                0 <= k <= tracks@.len(),
                forall|j: int| 0 <= j < k ==> tracks@[j].Index != c,
            decreases tracks@.len() - k,
        {
            if tracks[k].Index == c {
                proof {
                    assert(tracks@[k as int].Index == c);
                    assert(spec_has_index(tracks@, c));
                }
                return TrackResolution::Carried(c);
            }
            k += 1;
        }
        proof {
            assert(!spec_has_index(tracks@, c));
        }
    }
    if tracks.len() == 1 {
        TrackResolution::Auto(tracks[0].Index)
    } else if tracks.len() > 1 {
        TrackResolution::Prompt
    } else {
        TrackResolution::NoTracks
    }
}

/// A carried track index that is still valid for the next title is
/// reused as it is: the second negotiation never prompts for that
/// track again.
pub proof fn lemma_carried_track_reused(tracks: Seq<MediaStream>, c: u32)
    requires
        spec_has_index(tracks, c),
    ensures
        spec_resolve_track(tracks, Some(c)) == TrackResolution::Carried(c),
        !(spec_resolve_track(tracks, Some(c)) is Prompt),
{
}

/// Which questions a negotiation still has to put to the user.
#[derive(Clone, Copy, Debug, PartialEq, Eq, Structural)]
pub struct NegotiationPrompts {
    /// The item offers several media sources.
    pub media_source: bool,
    /// Confirm or override the resume position.
    pub resume: bool,
    /// Ask for a bandwidth ceiling.
    pub bandwidth: bool,
    /// Ask which audio track to use.
    pub audio: bool,
    /// Ask which subtitle track to use.
    pub subtitle: bool,
}

/// The prompts a negotiation owes.  Direct delivery asks for nothing
/// beyond the media source; transcoded delivery asks only for what the
/// carried preference does not already settle.
pub open spec fn spec_negotiation_prompts(
    source_count: int,
    transcoding: bool,
    carried: Option<TrackPreference>,
    audio_tracks: Seq<MediaStream>,
    subtitle_tracks: Seq<MediaStream>,
) -> NegotiationPrompts {
    NegotiationPrompts {
        media_source: source_count > 1,
        resume: transcoding && !(carried matches Some(p) && p.finish_current),
        bandwidth: transcoding && !(carried matches Some(p) && p.bandwidth_mbps is Some),
        audio: transcoding && spec_resolve_track(
            audio_tracks,
            match carried {
                Some(p) => p.audio,
                None => None,
            },
        ) is Prompt,
        subtitle: transcoding && spec_resolve_track(
            subtitle_tracks,
            match carried {
                Some(p) => p.subtitle,
                None => None,
            },
        ) is Prompt,
    }
}

/// Decides which prompts this negotiation still needs.
pub fn negotiation_prompts(
    source_count: usize,
    transcoding: bool,
    carried: &Option<TrackPreference>,
    audio_tracks: &Vec<MediaStream>,
    subtitle_tracks: &Vec<MediaStream>,
) -> (r: NegotiationPrompts)
    ensures
        r == spec_negotiation_prompts(
            source_count as int,
            transcoding,
            *carried,
            audio_tracks@,
            subtitle_tracks@,
        ),
{
    let (finish, audio_carried, subtitle_carried, bandwidth_known) = match carried {
        Some(p) => (p.finish_current, p.audio, p.subtitle, p.bandwidth_mbps.is_some()),
        None => (false, None, None, false),
    };
    NegotiationPrompts {
        media_source: source_count > 1,
        resume: transcoding && !finish,
        bandwidth: transcoding && !bandwidth_known,
        audio: transcoding && match resolve_track(audio_tracks, audio_carried) {
            TrackResolution::Prompt => true,
            _ => false,
        },
        subtitle: transcoding && match resolve_track(subtitle_tracks, subtitle_carried) {
            TrackResolution::Prompt => true,
            _ => false,
        },
    }
}

/// With transcoding disabled the negotiation issues no bandwidth or
/// track or resume prompt, whatever the item holds — at most the
/// media-source choice remains.
pub proof fn lemma_direct_mode_prompts_nothing(
    source_count: int,
    carried: Option<TrackPreference>,
    audio_tracks: Seq<MediaStream>,
    subtitle_tracks: Seq<MediaStream>,
)
    ensures
        ({
            let p = spec_negotiation_prompts(
                source_count,
                false,
                carried,
                audio_tracks,
                subtitle_tracks,
            );
            !p.resume && !p.bandwidth && !p.audio && !p.subtitle
        }),
{
}

/// The streams of a list whose type label equals `kind`, in order.
pub open spec fn spec_streams_of_kind(streams: Seq<MediaStream>, kind: Seq<char>) -> Seq<
    MediaStream,
>
    decreases streams.len(),
{
    if streams.len() == 0 {
        Seq::empty()
    } else {
        let rest = spec_streams_of_kind(streams.drop_first(), kind);
        if streams.first().Type@ == kind {
            seq![streams.first()] + rest
        } else {
            rest
        }
    }
}

/// Splits a media source's streams into its audio and subtitle tracks,
/// in order.
pub fn partition_streams(streams: Vec<MediaStream>) -> (r: (Vec<MediaStream>, Vec<MediaStream>))
    ensures
        r.0@ == spec_streams_of_kind(streams@, "Audio"@),
        r.1@ == spec_streams_of_kind(streams@, "Subtitle"@),
{
    let ghost streams0 = streams@;
    let audio_label = String::from_str("Audio");
    let subtitle_label = String::from_str("Subtitle");
    let mut rest = streams;
    let mut audio: Vec<MediaStream> = Vec::new();
    let mut subtitle: Vec<MediaStream> = Vec::new();
    proof {
        assert(Seq::<MediaStream>::empty() + spec_streams_of_kind(streams0, "Audio"@)
            =~= spec_streams_of_kind(streams0, "Audio"@));
        assert(Seq::<MediaStream>::empty() + spec_streams_of_kind(streams0, "Subtitle"@)
            =~= spec_streams_of_kind(streams0, "Subtitle"@));
    }
    while rest.len() > 0
        invariant
            spec_streams_of_kind(streams0, "Audio"@) == audio@ + spec_streams_of_kind(
                rest@,
                "Audio"@,
            ),
            spec_streams_of_kind(streams0, "Subtitle"@) == subtitle@ + spec_streams_of_kind(
                rest@,
                "Subtitle"@,
            ),
            audio_label@ == "Audio"@,
            subtitle_label@ == "Subtitle"@,
        decreases rest@.len(),
    {
        let ghost prev_rest = rest@;
        let ghost prev_audio = audio@;
        let ghost prev_subtitle = subtitle@;
        let s = rest.remove(0);
        proof {
            assert(rest@ =~= prev_rest.drop_first());
            assert(s == prev_rest.first());
        }
        if s.Type == audio_label {
            audio.push(s);
            proof {
                reveal_strlit("Audio");
                reveal_strlit("Subtitle");
                assert("Audio"@.len() == 5);
                assert("Subtitle"@.len() == 8);
                assert(prev_rest.first().Type@ != "Subtitle"@);
                assert(spec_streams_of_kind(prev_rest, "Audio"@) =~= seq![prev_rest.first()]
                    + spec_streams_of_kind(rest@, "Audio"@));
                assert(prev_audio + spec_streams_of_kind(prev_rest, "Audio"@) =~= audio@
                    + spec_streams_of_kind(rest@, "Audio"@));
                assert(spec_streams_of_kind(prev_rest, "Subtitle"@) == spec_streams_of_kind(
                    rest@,
                    "Subtitle"@,
                ));
            }
        } else if s.Type == subtitle_label {
            subtitle.push(s);
            proof {
                assert(spec_streams_of_kind(prev_rest, "Subtitle"@) =~= seq![prev_rest.first()]
                    + spec_streams_of_kind(rest@, "Subtitle"@));
                assert(prev_subtitle + spec_streams_of_kind(prev_rest, "Subtitle"@) =~= subtitle@
                    + spec_streams_of_kind(rest@, "Subtitle"@));
                assert(spec_streams_of_kind(prev_rest, "Audio"@) == spec_streams_of_kind(
                    rest@,
                    "Audio"@,
                ));
            }
        } else {
            proof {
                assert(spec_streams_of_kind(prev_rest, "Audio"@) == spec_streams_of_kind(
                    rest@,
                    "Audio"@,
                ));
                assert(spec_streams_of_kind(prev_rest, "Subtitle"@) == spec_streams_of_kind(
                    rest@,
                    "Subtitle"@,
                ));
            }
        }
    }
    proof {
        assert(spec_streams_of_kind(rest@, "Audio"@) =~= Seq::<MediaStream>::empty());
        assert(spec_streams_of_kind(rest@, "Subtitle"@) =~= Seq::<MediaStream>::empty());
        assert(audio@ + Seq::<MediaStream>::empty() =~= audio@);
        assert(subtitle@ + Seq::<MediaStream>::empty() =~= subtitle@);
    }
    (audio, subtitle)
}

/// A bandwidth ceiling in Mbps, converted to bits per second.
pub fn bitrate_of_mbps(mbps: u64) -> (r: Option<u64>)
    ensures
        r == if mbps * 1_000_000 <= u64::MAX {
            Some((mbps * 1_000_000) as u64)
        } else {
            None::<u64>
        },
{
    crate::text::mul_u64_guard(mbps, 1_000_000)
}

/// Interprets what the user typed at the bandwidth prompt: a plain
/// number of Mbps, rejected otherwise, converted to bits per second.
pub fn parse_bandwidth_input(input: &str) -> (r: Option<u64>)
    ensures
        r == if spec_is_numeric(input@) && spec_digits_val(input@) * 1_000_000 <= u64::MAX {
            Some((spec_digits_val(input@) * 1_000_000) as u64)
        } else {
            None::<u64>
        },
{
    let len = input.unicode_len();
    let mbps = parse_decimal_u64(input, 0, len);
    proof {
        assert(input@.subrange(0, input@.len() as int) =~= input@);
    }
    match mbps {
        Some(m) => {
            proof {
                crate::text::lemma_digits_val_prefix_le(input@, 0);
            }
            bitrate_of_mbps(m)
        },
        None => {
            proof {
                if spec_is_numeric(input@) {
                    crate::text::lemma_digits_val_prefix_le(input@, 0);
                }
            }
            None
        },
    }
}

/// Whether a resume-position input is well formed: minutes as a
/// decimal number with at most eight fractional digits.
pub open spec fn spec_resume_input_valid(s: Seq<char>) -> bool {
    let dot = spec_find_before(s, 0, s.len() as int, '.');
    if dot == s.len() {
        spec_is_numeric(s)
    } else {
        let int_part = s.subrange(0, dot);
        let frac_part = s.subrange(dot + 1, s.len() as int);
        &&& (int_part.len() == 0 || spec_is_numeric(int_part))
        &&& (frac_part.len() == 0 || spec_is_numeric(frac_part))
        &&& int_part.len() + frac_part.len() > 0
        &&& frac_part.len() <= 8
    }
}

/// The tick value a resume input denotes: minutes scaled to ticks,
/// fractional digits exactly.
pub open spec fn spec_resume_ticks(s: Seq<char>) -> int {
    let dot = spec_find_before(s, 0, s.len() as int, '.');
    if dot == s.len() {
        spec_digits_val(s) * 60 * TICKS_PER_SECOND
    } else {
        let int_part = s.subrange(0, dot);
        let frac_part = s.subrange(dot + 1, s.len() as int);
        spec_digits_val(int_part) * 60 * TICKS_PER_SECOND + spec_digits_val(frac_part) * 6
            * spec_pow10(8 - frac_part.len())
    }
}

/// Interprets what the user typed at the resume prompt: a position in
/// minutes, with at most eight fractional digits, converted exactly to
/// ticks.  Anything else — or a position too large for the tick
/// counter — is rejected and asked again.
pub fn parse_resume_minutes(input: &str) -> (r: Option<u64>)
    ensures
        r == if spec_resume_input_valid(input@) && 0 <= spec_resume_ticks(input@) <= u64::MAX {
            Some(spec_resume_ticks(input@) as u64)
        } else {
            None::<u64>
        },
{
    let len = input.unicode_len();
    let dot = crate::input::find_char_before(input, 0, len, '.');
    if dot == len {
        proof {
            assert(input@.subrange(0, input@.len() as int) =~= input@);
        }
        match parse_decimal_u64(input, 0, len) {
            Some(minutes) => {
                proof {
                    crate::text::lemma_digits_val_prefix_le(input@, 0);
                }
                crate::text::mul_u64_guard(minutes, 60 * TICKS_PER_SECOND)
            },
            None => {
                proof {
                    if spec_is_numeric(input@) {
                        crate::text::lemma_digits_val_prefix_le(input@, 0);
                        assert(spec_digits_val(input@) * 60 * TICKS_PER_SECOND > u64::MAX)
                            by (nonlinear_arith)
                            requires
                                spec_digits_val(input@) > u64::MAX,
                                TICKS_PER_SECOND == 10_000_000,
                        ;
                    }
                }
                None
            },
        }
    } else {
        let ghost int_part = input@.subrange(0, dot as int);
        let ghost frac_part = input@.subrange(dot + 1, input@.len() as int);
        let int_len = dot;
        let frac_len = len - dot - 1;
        if int_len + frac_len == 0 || frac_len > 8 {
            return None;
        }
        let int_val: u64 = if int_len == 0 {
            proof {
                assert(int_part.len() == 0);
            }
            0
        } else {
            match parse_decimal_u64(input, 0, dot) {
                Some(v) => v,
                None => {
                    proof {
                        if spec_is_numeric(int_part) {
                            lemma_resume_int_overflow(input@, dot as int);
                        }
                    }
                    return None;
                },
            }
        };
        let frac_val: u64 = if frac_len == 0 {
            proof {
                assert(frac_part.len() == 0);
            }
            0
        } else {
            match parse_decimal_u64(input, dot + 1, len) {
                Some(v) => v,
                None => {
                    proof {
                        if spec_is_numeric(frac_part) {
                            lemma_digits_bounded(frac_part);
                            crate::text::lemma_pow10_le(frac_part.len() as int, 8);
                            crate::text::lemma_pow10_pos(8);
                            reveal_with_fuel(spec_pow10, 10);
                            assert(spec_pow10(8) == 100_000_000);
                            assert(false);
                        }
                    }
                    return None;
                },
            }
        };
        proof {
            crate::text::lemma_digits_val_prefix_le(int_part, 0);
            crate::text::lemma_digits_val_prefix_le(frac_part, 0);
            if frac_part.len() > 0 {
                lemma_digits_bounded(frac_part);
            }
            crate::text::lemma_pow10_le(frac_part.len() as int, 8);
            crate::text::lemma_pow10_le(8 - frac_part.len(), 8);
            crate::text::lemma_pow10_pos(8 - frac_part.len());
            reveal_with_fuel(spec_pow10, 10);
            assert(spec_pow10(8) == 100_000_000);
        }
        let scale = pow10(8 - (frac_len as u64));
        proof {
            assert(frac_val * 6 * (scale as int) <= 600_000_000 * 100_000_000)
                by (nonlinear_arith)
                requires
                    0 <= frac_val <= 100_000_000,
                    1 <= scale as int <= 100_000_000,
            ;
        }
        let extra = frac_val * 6 * scale;
        let ghost ticks = spec_resume_ticks(input@);
        proof {
            assert(ticks == int_val * 60 * TICKS_PER_SECOND + extra);
        }
        match crate::text::mul_u64_guard(int_val, 60 * TICKS_PER_SECOND) {
            Some(base) => {
                if base <= u64::MAX - extra {
                    Some(base + extra)
                } else {
                    None
                }
            },
            None => {
                proof {
                    assert(int_val * (60 * TICKS_PER_SECOND) > u64::MAX);
                    assert(ticks > u64::MAX);
                }
                None
            },
        }
    }
}

/// A digit string's value is below ten to its length.
proof fn lemma_digits_bounded(s: Seq<char>)
    requires
        forall|i: int| 0 <= i < s.len() ==> spec_is_ascii_digit(#[trigger] s[i]),
    ensures
        0 <= spec_digits_val(s) < spec_pow10(s.len() as int),
    decreases s.len(),
{
    if s.len() == 0 {
    } else {
        lemma_digits_bounded(s.drop_last());
        assert(spec_is_ascii_digit(s.last()));
        assert(spec_digits_val(s) == spec_digits_val(s.drop_last()) * 10 + crate::text::spec_digit_of(
            s.last(),
        ));
        assert(spec_pow10(s.len() as int) == 10 * spec_pow10(s.len() - 1));
        assert(spec_digits_val(s.drop_last()) * 10 + crate::text::spec_digit_of(s.last())
            < spec_pow10(s.len() as int)) by (nonlinear_arith)
            requires
                0 <= spec_digits_val(s.drop_last()) < spec_pow10(s.len() - 1),
                0 <= crate::text::spec_digit_of(s.last()) <= 9,
                spec_pow10(s.len() as int) == 10 * spec_pow10(s.len() - 1),
        ;
    }
}

/// An integer part too large for the tick counter makes the whole
/// position too large.
proof fn lemma_resume_int_overflow(s: Seq<char>, dot: int)
    requires
        0 <= dot < s.len(),
        spec_find_before(s, 0, s.len() as int, '.') == dot,
        spec_digits_val(s.subrange(0, dot)) * 60 * TICKS_PER_SECOND > u64::MAX || spec_digits_val(
            s.subrange(0, dot),
        ) > u64::MAX,
    ensures
        !(spec_resume_input_valid(s) && 0 <= spec_resume_ticks(s) <= u64::MAX),
{
    let int_part = s.subrange(0, dot);
    let frac_part = s.subrange(dot + 1, s.len() as int);
    if spec_resume_input_valid(s) {
        crate::text::lemma_pow10_pos(8 - frac_part.len());
        if spec_digits_val(int_part) > u64::MAX {
            assert(spec_digits_val(int_part) * 60 * TICKS_PER_SECOND > u64::MAX)
                by (nonlinear_arith)
                requires
                    spec_digits_val(int_part) > u64::MAX,
                    TICKS_PER_SECOND == 10_000_000,
            ;
        }
        if int_part.len() > 0 {
            crate::text::lemma_digits_val_prefix_le(int_part, 0);
        } else {
            assert(spec_digits_val(int_part) == 0);
        }
        if frac_part.len() > 0 {
            lemma_digits_bounded(frac_part);
            assert(spec_digits_val(frac_part) * 6 * spec_pow10(8 - frac_part.len()) >= 0)
                by (nonlinear_arith)
                requires
                    spec_digits_val(frac_part) >= 0,
                    spec_pow10(8 - frac_part.len()) >= 1,
            ;
        } else {
            assert(spec_digits_val(frac_part) == 0);
        }
        assert(spec_resume_ticks(s) > u64::MAX);
    }
}


/// The ISO 639-1 code a language tag resolves to, when it is a valid
/// two-letter code; what an outside language table decides.
pub uninterp spec fn iso639_1(s: Seq<char>) -> Option<Seq<char>>;

/// Relies on isolanguage_1::LanguageCode::try_from and code: a string
/// resolves to a language exactly when it is one of the table's
/// two-letter codes, and the canonical code returned is that two-letter
/// code.
#[verifier::external_body]
fn language_code_of(s: &str) -> (r: Option<String>)
    ensures
        r matches Some(c) ==> iso639_1(s@) == Some(c@) && c@.len() == 2,
        r is None ==> iso639_1(s@) is None,
{
    match <isolanguage_1::LanguageCode as core::convert::TryFrom<&str>>::try_from(s) {
        Ok(code) => Some(code.code().to_owned()),
        Err(_) => None,
    }
}

/// Whether a stream's language tag resolves to the same language as
/// the user's preference.
pub open spec fn spec_lang_matches(stream: MediaStream, pref: Seq<char>) -> bool {
    &&& iso639_1(pref) is Some
    &&& stream.Language matches Some(l) && iso639_1(l@) == iso639_1(pref)
}

/// What the language pre-mapping owes: the one-based position of the
/// first stream matching the preferred language, or nothing when no
/// preference resolves or no stream matches.
pub open spec fn spec_preferred_track_ok(
    streams: Seq<MediaStream>,
    preference: Option<String>,
    r: Option<u32>,
) -> bool {
    match r {
        Some(v) => {
            &&& preference is Some
            &&& 1 <= v <= streams.len()
            &&& spec_lang_matches(streams[v - 1], preference->0@)
            &&& forall|j: int|
                0 <= j < v - 1 ==> !spec_lang_matches(#[trigger] streams[j], preference->0@)
        },
        None => {
            ||| preference is None
            ||| iso639_1(preference->0@) is None
            ||| forall|j: int|
                0 <= j < streams.len() ==> !spec_lang_matches(
                    #[trigger] streams[j],
                    preference->0@,
                )
        },
    }
}

/// Pre-maps the user's server-side language preference onto this
/// title's streams.
#[verifier::loop_isolation(false)]
pub fn preferred_track_index(streams: &Vec<MediaStream>, preference: &Option<String>) -> (r: Option<u32>)
    requires
        streams@.len() < u32::MAX,
    ensures
        spec_preferred_track_ok(streams@, *preference, r),
{
    let pref = match preference {
        Some(p) => p,
        None => {
            return None;
        },
    };
    let pref_code = match language_code_of(pref.as_str()) {
        Some(c) => c,
        None => {
            return None;
        },
    };
    let ghost pc = pref_code@;
    let mut i: usize = 0;
    while i < streams.len()
        invariant
            0 <= i <= streams@.len(),
            streams@.len() < u32::MAX,
            pc == pref_code@,
            (iso639_1(pref@) == Some(pc)),
            (forall|j: int| 0 <= j < i ==> !spec_lang_matches(#[trigger] streams@[j], pref@)),
        decreases streams@.len() - i,
    {
        let matched = match &streams[i].Language {
            Some(lang) => {
                match language_code_of(lang.as_str()) {
                    Some(code) => code == pref_code,
                    None => false,
                }
            },
            None => false,
        };
        proof {
            assert(matched == spec_lang_matches(streams@[i as int], pref@));
        }
        if matched {
            return Some((i as u32) + 1);
        }
        i += 1;
    }
    None
}

} // verus!
