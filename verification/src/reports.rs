//! The session-lifecycle reports owed to the server: playback started,
//! periodic progress, and stopped — plus the capability documents that
//! open a session.  Everything here is a plain value; serialising and
//! posting it happens outside this crate.

use vstd::prelude::*;

use crate::session::StopPlan;
use crate::session::absolute_position;
use crate::session::plan_stop;

verus! {

/// How the stream reaches the player.
#[derive(Clone, Copy, Debug, PartialEq, Eq, Structural)]
pub enum PlayMethod {
    Transcode,
    DirectStream,
    DirectPlay,
}

/// The repeat mode reported with a session; this client never repeats.
#[derive(Clone, Copy, Debug, PartialEq, Eq, Structural)]
pub enum RepeatMode {
    RepeatNone,
    RepeatAll,
    RepeatOne,
}

/// The event tag a progress report carries.
#[derive(Clone, Copy, Debug, PartialEq, Eq, Structural)]
pub enum EventName {
    TimeUpdate,
    Pause,
    Unpause,
    VolumeChange,
}

/// The play method a delivery mode reports.
pub fn play_method(transcoding: bool) -> (r: PlayMethod)
    ensures
        r == if transcoding {
            PlayMethod::Transcode
        } else {
            PlayMethod::DirectPlay
        },
{
    if transcoding {
        PlayMethod::Transcode
    } else {
        PlayMethod::DirectPlay
    }
}

/// The event tag owed by the player's pause and mute state: a pause
/// outranks a volume change, and plain progress is a time update.
pub fn event_name(paused: bool, muted: bool) -> (r: EventName)
    ensures
        r == if paused {
            EventName::Pause
        } else if muted {
            EventName::VolumeChange
        } else {
            EventName::TimeUpdate
        },
{
    if paused {
        EventName::Pause
    } else if muted {
        EventName::VolumeChange
    } else {
        EventName::TimeUpdate
    }
}

/// The "playback started" report.
#[derive(Clone, Debug, PartialEq)]
pub struct PlayRequest {
    pub CanSeek: bool,
    pub ItemId: String,
    pub SessionId: String,
    pub MediaSourceId: String,
    pub AudioStreamIndex: u32,
    pub SubtitleStreamIndex: u32,
    pub IsPaused: bool,
    pub IsMuted: bool,
    pub PlaybackStartTimeTicks: u64,
    pub PlaySessionId: String,
    pub PlayMethod: PlayMethod,
    pub RepeatMode: RepeatMode,
}

/// Builds the "playback started" report for a fresh session.
pub fn start_report(
    item_id: String,
    session_id: String,
    media_source_id: String,
    play_session_id: String,
    audio_index: u32,
    subtitle_index: u32,
    start_ticks: u64,
    transcoding: bool,
) -> (r: PlayRequest)
    ensures
        r.CanSeek,
        r.ItemId == item_id,
        r.SessionId == session_id,
        r.MediaSourceId == media_source_id,
        r.PlaySessionId == play_session_id,
        r.AudioStreamIndex == audio_index,
        r.SubtitleStreamIndex == subtitle_index,
        !r.IsPaused && !r.IsMuted,
        r.PlaybackStartTimeTicks == start_ticks,
        r.PlayMethod == if transcoding {
            PlayMethod::Transcode
        } else {
            PlayMethod::DirectPlay
        },
        r.RepeatMode == RepeatMode::RepeatNone,
{
    PlayRequest {
        CanSeek: true,
        ItemId: item_id,
        SessionId: session_id,
        MediaSourceId: media_source_id,
        AudioStreamIndex: audio_index,
        SubtitleStreamIndex: subtitle_index,
        IsPaused: false,
        IsMuted: false,
        PlaybackStartTimeTicks: start_ticks,
        PlaySessionId: play_session_id,
        PlayMethod: play_method(transcoding),
        RepeatMode: RepeatMode::RepeatNone,
    }
}

/// A periodic progress report.
#[derive(Clone, Debug, PartialEq)]
pub struct PlaybackProgressInfo {
    pub CanSeek: bool,
    pub ItemId: String,
    pub SessionId: String,
    pub MediaSourceId: String,
    pub AudioStreamIndex: u32,
    pub SubtitleStreamIndex: u32,
    pub IsPaused: bool,
    pub IsMuted: bool,
    pub PositionTicks: u64,
    pub VolumeLevel: u32,
    pub PlayMethod: PlayMethod,
    pub PlaySessionId: String,
    pub EventName: EventName,
}

/// Builds a progress heartbeat.  The position reported is absolute: a
/// transcoded session adds its resume offset back, since the player's
/// clock is relative to the transcode start.
pub fn progress_report(
    item_id: String,
    session_id: String,
    media_source_id: String,
    play_session_id: String,
    player_ticks: u64,
    resume_offset_ticks: u64,
    transcoding: bool,
    audio_track: u32,
    sub_track: u32,
    paused: bool,
    muted: bool,
    volume_level: u32,
) -> (r: PlaybackProgressInfo)
    requires
        transcoding ==> player_ticks + resume_offset_ticks <= u64::MAX,
    ensures
        r.CanSeek,
        r.ItemId == item_id,
        r.SessionId == session_id,
        r.MediaSourceId == media_source_id,
        r.PlaySessionId == play_session_id,
        r.AudioStreamIndex == audio_track,
        r.SubtitleStreamIndex == sub_track,
        r.IsPaused == paused,
        r.IsMuted == muted,
        r.VolumeLevel == volume_level,
        r.PositionTicks == player_ticks + if transcoding {
            resume_offset_ticks as int
        } else {
            0
        },
        r.PlayMethod == if transcoding {
            PlayMethod::Transcode
        } else {
            PlayMethod::DirectPlay
        },
        r.EventName == if paused {
            EventName::Pause
        } else if muted {
            EventName::VolumeChange
        } else {
            EventName::TimeUpdate
        },
{
    PlaybackProgressInfo {
        CanSeek: true,
        ItemId: item_id,
        SessionId: session_id,
        MediaSourceId: media_source_id,
        AudioStreamIndex: audio_track,
        SubtitleStreamIndex: sub_track,
        IsPaused: paused,
        IsMuted: muted,
        PositionTicks: absolute_position(player_ticks, resume_offset_ticks, transcoding),
        VolumeLevel: volume_level,
        PlayMethod: play_method(transcoding),
        PlaySessionId: play_session_id,
        EventName: event_name(paused, muted),
    }
}

/// The "playback stopped" report.  A `None` position means the report
/// deliberately omits the position so no progress is recorded.
#[derive(Clone, Debug, PartialEq)]
pub struct PlaybackStopInfo {
    pub ItemId: String,
    pub PlaySessionId: String,
    pub SessionId: String,
    pub MediaSourceId: String,
    pub PositionTicks: Option<u64>,
    pub Failed: bool,
}

/// Everything owed to the server when a session ends: whether to mark
/// the item played, the stopped report to send if any, and the outcome
/// handed to the playlist advancer.
#[derive(Clone, Debug, PartialEq)]
pub struct StopReportPlan {
    pub watched: bool,
    pub mark_played: bool,
    pub stop_report: Option<PlaybackStopInfo>,
}

/// Builds the end-of-session plan: classification decides whether the
/// item is marked played (fully played), the stopped report carries the
/// absolute position (resumable), or the stopped report omits the
/// position (unwatched).
pub fn stop_report_plan(
    item_id: String,
    session_id: String,
    media_source_id: String,
    play_session_id: String,
    player_ticks: u64,
    resume_offset_ticks: u64,
    transcoding: bool,
    total_ticks: u64,
) -> (r: StopReportPlan)
    requires
        total_ticks >= 1,
        transcoding ==> player_ticks + resume_offset_ticks <= u64::MAX,
    ensures
        ({
            let position = player_ticks + if transcoding {
                resume_offset_ticks as int
            } else {
                0
            };
            &&& r.watched == (crate::session::spec_classify(position, total_ticks as int)
                is FullyPlayed)
            &&& r.mark_played == r.watched
            &&& r.stop_report is Some <==> !r.watched
            &&& (r.stop_report matches Some(info) ==> {
                &&& info.ItemId == item_id
                &&& info.SessionId == session_id
                &&& info.MediaSourceId == media_source_id
                &&& info.PlaySessionId == play_session_id
                &&& !info.Failed
                &&& info.PositionTicks == if crate::session::spec_classify(
                    position,
                    total_ticks as int,
                ) is Resumable {
                    Some(position as u64)
                } else {
                    None::<u64>
                }
            })
        }),
{
    let plan: StopPlan = plan_stop(player_ticks, resume_offset_ticks, transcoding, total_ticks);
    let stop_report = if plan.send_stopped {
        Some(
            PlaybackStopInfo {
                ItemId: item_id,
                PlaySessionId: play_session_id,
                SessionId: session_id,
                MediaSourceId: media_source_id,
                PositionTicks: plan.report_position_ticks,
                Failed: false,
            },
        )
    } else {
        None
    };
    StopReportPlan { watched: plan.watched, mark_played: plan.mark_played, stop_report }
}

/// The remote-control capability document posted when a session opens.
#[derive(Clone, Debug, PartialEq)]
pub struct Capabilities {
    pub PlayableMediaTypes: String,
    pub SupportsMediaControl: bool,
    pub SupportedCommands: Vec<String>,
}

/// Builds the capability document: video playback with media control
/// and the full set of remote commands this client answers.
pub fn session_capabilities_document() -> (r: Capabilities)
    ensures
        r.PlayableMediaTypes@ == "Video"@,
        r.SupportsMediaControl,
        r.SupportedCommands@.len() == 23,
        r.SupportedCommands@[0]@ == "MoveUp"@,
        r.SupportedCommands@[4]@ == "Select"@,
        r.SupportedCommands@[20]@ == "Playstate"@,
{
    let mut commands: Vec<String> = Vec::new();
    commands.push(String::from_str("MoveUp"));
    commands.push(String::from_str("MoveDown"));
    commands.push(String::from_str("MoveLeft"));
    commands.push(String::from_str("MoveRight"));
    commands.push(String::from_str("Select"));
    commands.push(String::from_str("Back"));
    commands.push(String::from_str("ToggleFullscreen"));
    commands.push(String::from_str("GoHome"));
    commands.push(String::from_str("GoToSettings"));
    commands.push(String::from_str("TakeScreenshot"));
    commands.push(String::from_str("VolumeUp"));
    commands.push(String::from_str("VolumeDown"));
    commands.push(String::from_str("ToggleMute"));
    commands.push(String::from_str("SetAudioStreamIndex"));
    commands.push(String::from_str("SetSubtitleStreamIndex"));
    commands.push(String::from_str("Mute"));
    commands.push(String::from_str("Unmute"));
    commands.push(String::from_str("SetVolume"));
    commands.push(String::from_str("DisplayContent"));
    commands.push(String::from_str("Play"));
    commands.push(String::from_str("Playstate"));
    commands.push(String::from_str("PlayNext"));
    commands.push(String::from_str("PlayMediaSource"));
    Capabilities {
        PlayableMediaTypes: String::from_str("Video"),
        SupportsMediaControl: true,
        SupportedCommands: commands,
    }
}

/// One subtitle-profile entry of the transcode capability document.
#[derive(Clone, Debug, PartialEq)]
pub struct SubtitleProfile {
    pub Format: String,
    pub Method: String,
}

/// One transcoding-profile entry of the transcode capability document.
#[derive(Clone, Debug, PartialEq)]
pub struct TranscodingProfile {
    pub Container: String,
    pub Type: String,
    pub VideoCodec: String,
    pub TranscodeSeekInfo: String,
    pub Context: String,
}

/// The device profile submitted with a transcode request.
#[derive(Clone, Debug, PartialEq)]
pub struct DeviceProfile {
    pub Name: String,
    pub Id: String,
    pub SupportedMediaTypes: String,
    pub MaxStreamingBitrate: u64,
    pub MaxStaticMusicBitrate: u64,
    pub TranscodingProfiles: Vec<TranscodingProfile>,
    pub SubtitleProfiles: Vec<SubtitleProfile>,
}

/// The session-capability document a transcode negotiation submits.
#[derive(Clone, Debug, PartialEq)]
pub struct SessionCapabilities {
    pub UserId: String,
    pub StartTimeTicks: u64,
    pub MediaSourceId: String,
    pub AudioStreamIndex: u32,
    pub SubtitleStreamIndex: u32,
    pub MaxStaticBitrate: u64,
    pub MaxStreamingBitrate: u64,
    pub EnableDirectPlay: bool,
    pub EnableDirectStream: bool,
    pub EnableTranscoding: bool,
    pub AllowVideoStreamCopy: bool,
    pub AllowAudioStreamCopy: bool,
    pub DeviceProfile: DeviceProfile,
}

/// One video transcoding profile: matroska with the given codec,
/// streaming context.
fn transcoding_profile(codec: &str) -> (r: TranscodingProfile)
    ensures
        r.Container@ == "mkv"@,
        r.Type@ == "Video"@,
        r.VideoCodec@ == codec@,
        r.TranscodeSeekInfo@ == "Auto"@,
        r.Context@ == "Streaming"@,
{
    TranscodingProfile {
        Container: String::from_str("mkv"),
        Type: String::from_str("Video"),
        VideoCodec: String::from_str(codec),
        TranscodeSeekInfo: String::from_str("Auto"),
        Context: String::from_str("Streaming"),
    }
}

/// One embedded subtitle profile.
fn subtitle_profile(format: &str) -> (r: SubtitleProfile)
    ensures
        r.Format@ == format@,
        r.Method@ == "Embed"@,
{
    SubtitleProfile { Format: String::from_str(format), Method: String::from_str("Embed") }
}

/// Builds the transcode capability document: the chosen tracks and
/// bitrate ceiling, direct play and stream left enabled, video copy
/// forbidden so the server re-encodes, and a fixed matroska profile
/// matrix with embedded subtitles.
pub fn session_capabilities(
    user_id: String,
    start_ticks: u64,
    media_source_id: String,
    audio_index: u32,
    subtitle_index: u32,
    bitrate: u64,
    device_name: &str,
    device_id: String,
) -> (r: SessionCapabilities)
    ensures
        r.UserId == user_id,
        r.StartTimeTicks == start_ticks,
        r.MediaSourceId == media_source_id,
        r.AudioStreamIndex == audio_index,
        r.SubtitleStreamIndex == subtitle_index,
        r.MaxStaticBitrate == bitrate,
        r.MaxStreamingBitrate == bitrate,
        r.EnableDirectPlay && r.EnableDirectStream && r.EnableTranscoding,
        r.AllowAudioStreamCopy && r.AllowVideoStreamCopy,
        r.DeviceProfile.Name@ == device_name@,
        r.DeviceProfile.Id == device_id,
        r.DeviceProfile.SupportedMediaTypes@ == "Video"@,
        r.DeviceProfile.MaxStreamingBitrate == bitrate,
        r.DeviceProfile.MaxStaticMusicBitrate == 999_999_999,
        r.DeviceProfile.TranscodingProfiles@.len() == 3,
        r.DeviceProfile.TranscodingProfiles@[0].VideoCodec@ == "hevc"@,
        r.DeviceProfile.TranscodingProfiles@[1].VideoCodec@ == "avc"@,
        r.DeviceProfile.TranscodingProfiles@[2].VideoCodec@ == "av1"@,
        r.DeviceProfile.SubtitleProfiles@.len() == 8,
        forall|i: int|
            0 <= i < 8 ==> r.DeviceProfile.SubtitleProfiles@[i].Method@ =~= "Embed"@,
{
    let mut transcoding_profiles: Vec<TranscodingProfile> = Vec::new();
    transcoding_profiles.push(transcoding_profile("hevc"));
    transcoding_profiles.push(transcoding_profile("avc"));
    transcoding_profiles.push(transcoding_profile("av1"));
    let mut subtitle_profiles: Vec<SubtitleProfile> = Vec::new();
    subtitle_profiles.push(subtitle_profile("subrip"));
    subtitle_profiles.push(subtitle_profile("srt"));
    subtitle_profiles.push(subtitle_profile("ass"));
    subtitle_profiles.push(subtitle_profile("ssa"));
    subtitle_profiles.push(subtitle_profile("pgssub"));
    subtitle_profiles.push(subtitle_profile("sub"));
    subtitle_profiles.push(subtitle_profile("dvdsub"));
    subtitle_profiles.push(subtitle_profile("pgs"));
    SessionCapabilities {
        UserId: user_id,
        StartTimeTicks: start_ticks,
        MediaSourceId: media_source_id,
        AudioStreamIndex: audio_index,
        SubtitleStreamIndex: subtitle_index,
        MaxStaticBitrate: bitrate,
        MaxStreamingBitrate: bitrate,
        EnableDirectPlay: true,
        EnableDirectStream: true,
        EnableTranscoding: true,
        AllowVideoStreamCopy: true,
        AllowAudioStreamCopy: true,
        DeviceProfile: DeviceProfile {
            Name: String::from_str(device_name),
            Id: device_id,
            SupportedMediaTypes: String::from_str("Video"),
            MaxStreamingBitrate: bitrate,
            MaxStaticMusicBitrate: 999_999_999,
            TranscodingProfiles: transcoding_profiles,
            SubtitleProfiles: subtitle_profiles,
        },
    }
}

} // verus!
