//! Playback outcome classification and the session heartbeat clock.
//!
//! When the local player stops, the absolute stop position is compared
//! against the total duration and the session falls into one of three
//! buckets: fully played (mark watched, discard the position), resumable
//! (report the precise position), or unwatched (report stopped but omit
//! the position so no progress is recorded).

use vstd::prelude::*;

use crate::FULLY_PLAYED_REMAINING_PCT;
use crate::HEARTBEAT_INTERVAL_MS;
use crate::SEEK_REWIND_MS;
use crate::UNWATCHED_REMAINING_PCT;
use crate::items::MediaSourceInfo;
use crate::items::MediaStream;

verus! {

/// The bucket a stopped session falls into, by the fraction of the title
/// that remained unwatched when it stopped.
#[derive(Clone, Copy, Debug, PartialEq, Eq, Structural)]
pub enum StopClass {
    FullyPlayed,
    Resumable,
    Unwatched,
}

/// The classification of a stop position against a total duration:
/// below `FULLY_PLAYED_REMAINING_PCT` percent remaining the title is
/// fully played, from `UNWATCHED_REMAINING_PCT` percent upward it is
/// unwatched, and in between it is resumable.
pub open spec fn spec_classify(position: int, total: int) -> StopClass {
    if 100 * (total - position) < FULLY_PLAYED_REMAINING_PCT * total {
        StopClass::FullyPlayed
    } else if 100 * (total - position) < UNWATCHED_REMAINING_PCT * total {
        StopClass::Resumable
    } else {
        StopClass::Unwatched
    }
}

/// Classifies an absolute stop position (in ticks) against the total
/// runtime of the title (in ticks).
pub fn classify_stop(position_ticks: u64, total_ticks: u64) -> (c: StopClass)
    requires
        total_ticks >= 1,
    ensures
        c == spec_classify(position_ticks as int, total_ticks as int),
{
    if position_ticks >= total_ticks {
        return StopClass::FullyPlayed;
    }
    let remaining: u128 = (total_ticks - position_ticks) as u128;
    if 100 * remaining < (FULLY_PLAYED_REMAINING_PCT as u128) * (total_ticks as u128) {
        StopClass::FullyPlayed
    } else if 100 * remaining < (UNWATCHED_REMAINING_PCT as u128) * (total_ticks as u128) {
        StopClass::Resumable
    } else {
        StopClass::Unwatched
    }
}

/// The local player's clock is relative to the start of the stream; a
/// transcoded stream starts at the resume offset, so that offset is
/// added back to obtain the absolute position in the title.
pub fn absolute_position(player_ticks: u64, resume_offset_ticks: u64, transcoding: bool) -> (r: u64)
    requires
        transcoding ==> player_ticks + resume_offset_ticks <= u64::MAX,
    ensures
        r == player_ticks + if transcoding {
            resume_offset_ticks as int
        } else {
            0
        },
{
    if transcoding {
        player_ticks + resume_offset_ticks
    } else {
        player_ticks
    }
}

/// What is owed to the server after the local player stopped: whether
/// the item is marked played, whether a stopped report is sent, and the
/// position that report carries (`None` means the report deliberately
/// omits the position so no progress is recorded).
pub struct StopPlan {
    pub watched: bool,
    pub mark_played: bool,
    pub send_stopped: bool,
    pub report_position_ticks: Option<u64>,
}

impl StopPlan {
    /// The plan that `plan_stop` owes for a given absolute position and
    /// total duration.
    pub open spec fn matches(self, position: int, total: int) -> bool {
        &&& self.watched == (spec_classify(position, total) is FullyPlayed)
        &&& self.mark_played == self.watched
        &&& self.send_stopped == !self.watched
        &&& self.report_position_ticks == if spec_classify(position, total) is Resumable {
            Some(position as u64)
        } else {
            None::<u64>
        }
    }
}

/// Decides how a stopped session is reported.  A fully played title is
/// marked played and gets no stopped report; a resumable title gets a
/// stopped report carrying the absolute position; an unwatched title
/// gets a stopped report without a position.
pub fn plan_stop(player_ticks: u64, resume_offset_ticks: u64, transcoding: bool, total_ticks: u64) -> (p:
    StopPlan)
    requires
        total_ticks >= 1,
        transcoding ==> player_ticks + resume_offset_ticks <= u64::MAX,
    ensures
        p.matches(
            player_ticks + if transcoding {
                resume_offset_ticks as int
            } else {
                0
            },
            total_ticks as int,
        ),
{
    let position = absolute_position(player_ticks, resume_offset_ticks, transcoding);
    let class = classify_stop(position, total_ticks);
    let watched = match class {
        StopClass::FullyPlayed => true,
        _ => false,
    };
    StopPlan {
        watched,
        mark_played: watched,
        send_stopped: !watched,
        report_position_ticks: match class {
            StopClass::Resumable => Some(position),
            _ => None,
        },
    }
}

/// A position carried by a stopped report, divided by the total
/// duration, reproduces the same classification bucket that was used to
/// decide the report: it is always the resumable bucket.
pub proof fn lemma_reported_position_reclassifies(plan: StopPlan, position: int, total: int)
    requires
        total >= 1,
        0 <= position <= u64::MAX,
        plan.matches(position, total),
        plan.report_position_ticks is Some,
    ensures
        spec_classify(plan.report_position_ticks->0 as int, total) is Resumable,
        plan.report_position_ticks->0 == position,
{
}

/// A stopped report carries a position exactly in the resumable bucket;
/// the item is marked played exactly in the fully played bucket.
pub proof fn lemma_stop_plan_buckets(plan: StopPlan, position: int, total: int)
    requires
        total >= 1,
        plan.matches(position, total),
    ensures
        plan.mark_played <==> spec_classify(position, total) is FullyPlayed,
        plan.report_position_ticks is Some <==> spec_classify(position, total) is Resumable,
        plan.send_stopped <==> !(spec_classify(position, total) is FullyPlayed),
        plan.watched <==> spec_classify(position, total) is FullyPlayed,
{
}

/// What a poll of the player clock obliges the controller to report.
#[derive(Clone, Copy, Debug, PartialEq, Eq, Structural)]
pub enum HeartbeatAction {
    /// Playback advanced past the heartbeat interval: report progress.
    ReportProgress,
    /// The position repeated exactly between two polls without being the
    /// baseline: treat as an implicit pause and report it once.
    ReportPause,
    /// Nothing to report this poll.
    NoReport,
}

/// The controller's view of the player clock between polls: the baseline
/// position of the last report, the position seen at the previous poll,
/// and whether playback currently counts as paused.
pub struct SessionClock {
    pub baseline_ms: i64,
    pub last_poll_ms: i64,
    pub paused: bool,
}

impl SessionClock {
    /// A fresh clock: the baseline sits one heartbeat interval before
    /// zero so the first poll reports immediately.
    pub fn new() -> (c: SessionClock)
        ensures
            c.baseline_ms == -HEARTBEAT_INTERVAL_MS,
            c.last_poll_ms == 0,
            !c.paused,
    {
        SessionClock { baseline_ms: -HEARTBEAT_INTERVAL_MS, last_poll_ms: 0, paused: false }
    }

    /// After a seek or playback restart the baseline is rewound by the
    /// cooldown, so the jump itself is not reported as progress.
    pub fn note_seek(&mut self)
        ensures
            final(self).baseline_ms == if old(self).baseline_ms >= i64::MIN + SEEK_REWIND_MS {
                old(self).baseline_ms - SEEK_REWIND_MS
            } else {
                i64::MIN as int
            },
            final(self).last_poll_ms == old(self).last_poll_ms,
            final(self).paused == old(self).paused,
    {
        if self.baseline_ms >= i64::MIN + SEEK_REWIND_MS {
            self.baseline_ms = self.baseline_ms - SEEK_REWIND_MS;
        } else {
            self.baseline_ms = i64::MIN;
        }
    }

    /// The action a poll at `current_ms` obliges: progress once the
    /// position exceeds the baseline by more than the heartbeat
    /// interval, an implicit pause when the position repeats exactly,
    /// and nothing otherwise.
    pub open spec fn spec_poll_action(self, current_ms: int) -> HeartbeatAction {
        if current_ms > self.baseline_ms + HEARTBEAT_INTERVAL_MS {
            HeartbeatAction::ReportProgress
        } else if current_ms == self.last_poll_ms && current_ms != self.baseline_ms {
            HeartbeatAction::ReportPause
        } else {
            HeartbeatAction::NoReport
        }
    }

    /// One poll of the player clock: decides what to report and moves
    /// the baseline up to the current position whenever a report goes
    /// out.
    pub fn poll(&mut self, current_ms: i64) -> (a: HeartbeatAction)
        ensures
            a == old(self).spec_poll_action(current_ms as int),
            final(self).last_poll_ms == current_ms,
            a is ReportProgress ==> final(self).baseline_ms == current_ms && !final(self).paused,
            a is ReportPause ==> final(self).baseline_ms == current_ms && final(self).paused,
            a is NoReport ==> final(self).baseline_ms == old(self).baseline_ms && final(self).paused
                == old(self).paused,
    {
        let action: HeartbeatAction = if (current_ms as i128) > (self.baseline_ms as i128)
            + (HEARTBEAT_INTERVAL_MS as i128) {
            HeartbeatAction::ReportProgress
        } else if current_ms == self.last_poll_ms && current_ms != self.baseline_ms {
            HeartbeatAction::ReportPause
        } else {
            HeartbeatAction::NoReport
        };
        match action {
            HeartbeatAction::ReportProgress => {
                self.baseline_ms = current_ms;
                self.paused = false;
            },
            HeartbeatAction::ReportPause => {
                self.baseline_ms = current_ms;
                self.paused = true;
            },
            HeartbeatAction::NoReport => {},
        }
        self.last_poll_ms = current_ms;
        action
    }
}

/// An event drained from the local player's event queue.
#[derive(Clone, Copy, Debug, PartialEq, Eq, Structural)]
pub enum PlayerEvent {
    FileLoaded,
    Seek,
    PlaybackRestart,
    EndFile,
    Shutdown,
}

/// A remote-control command received over the side channel.
#[derive(Clone, Copy, Debug, PartialEq, Eq, Structural)]
pub enum RemoteCommand {
    PlayPause,
    Stop,
    Other,
}

/// What the controller does in response to a player event.
#[derive(Clone, Copy, Debug, PartialEq, Eq, Structural)]
pub enum PlayerEventAction {
    /// The file finished loading: perform the initial seek and load
    /// external subtitles.
    InitialSetup,
    /// The position jumped: rewind the heartbeat baseline.
    RewindBaseline,
    /// Playback ended: run the stop plan and leave the loop.
    EndSession,
}

/// Maps a drained player event to the controller's response.
pub fn player_event_action(event: PlayerEvent) -> (a: PlayerEventAction)
    ensures
        a == match event {
            PlayerEvent::FileLoaded => PlayerEventAction::InitialSetup,
            PlayerEvent::Seek | PlayerEvent::PlaybackRestart => PlayerEventAction::RewindBaseline,
            PlayerEvent::EndFile | PlayerEvent::Shutdown => PlayerEventAction::EndSession,
        },
{
    match event {
        PlayerEvent::FileLoaded => PlayerEventAction::InitialSetup,
        PlayerEvent::Seek | PlayerEvent::PlaybackRestart => PlayerEventAction::RewindBaseline,
        PlayerEvent::EndFile | PlayerEvent::Shutdown => PlayerEventAction::EndSession,
    }
}

/// What the controller does in response to a remote-control command.
#[derive(Clone, Copy, Debug, PartialEq, Eq, Structural)]
pub enum RemoteAction {
    /// Resume playback and rewind the baseline so the catch-up jump is
    /// not reported.
    Unpause,
    Pause,
    QuitPlayer,
    Ignore,
}

/// Maps a remote-control command, given the current pause state, to the
/// controller's response: play-pause toggles, stop quits the player, and
/// anything else is advisory and ignored.
pub fn remote_command_action(command: RemoteCommand, paused: bool) -> (a: RemoteAction)
    ensures
        a == match command {
            RemoteCommand::PlayPause => if paused {
                RemoteAction::Unpause
            } else {
                RemoteAction::Pause
            },
            RemoteCommand::Stop => RemoteAction::QuitPlayer,
            RemoteCommand::Other => RemoteAction::Ignore,
        },
{
    match command {
        RemoteCommand::PlayPause => if paused {
            RemoteAction::Unpause
        } else {
            RemoteAction::Pause
        },
        RemoteCommand::Stop => RemoteAction::QuitPlayer,
        RemoteCommand::Other => RemoteAction::Ignore,
    }
}

/// The runtime the player is expected to cover, in ticks: a transcoded
/// stream begins at the resume offset, so its own clock only spans the
/// remainder of the title.
pub fn expected_player_runtime(total_ticks: u64, resume_offset_ticks: u64, transcoding: bool) -> (r:
    u64)
    ensures
        r == if transcoding && resume_offset_ticks <= total_ticks {
            total_ticks - resume_offset_ticks
        } else {
            total_ticks as int
        },
{
    if transcoding && resume_offset_ticks <= total_ticks {
        total_ticks - resume_offset_ticks
    } else {
        total_ticks
    }
}


/// Whether the title is a film or one episode of a series; the player
/// title bar differs between the two.
#[derive(Clone, Copy, Debug, PartialEq, Eq, Structural)]
pub enum VideoType {
    Movie,
    Episode,
}

/// One subtitle stream the player is told to load beside the video:
/// its URL, its quoted display title and its language tag.  The player
/// picks the flavour itself.
#[derive(Clone, Debug, PartialEq)]
pub struct SubtitleCommand {
    pub url: String,
    pub title: String,
    pub language: String,
}

/// Everything one playback run needs and returns: what to stream, where
/// to start, and — afterwards — whether it was watched and which tracks
/// the user ended on.
#[derive(Clone, Debug, PartialEq)]
pub struct Video {
    pub title: Vec<String>,
    pub id: String,
    pub video_type: VideoType,
    pub stream_url: String,
    pub playback_position: u64,
    pub total_runtime: u64,
    pub external_media: Vec<SubtitleCommand>,
    pub played: bool,
    pub preferred_audio_track: Option<u32>,
    pub preferred_subtitle_track: Option<u32>,
}

/// The stream URL a negotiated media source is played from: the
/// server-issued transcode path when one was negotiated, else the
/// direct stream of the source.
pub fn stream_url_for_source(
    server_address: &str,
    source: &MediaSourceInfo,
    token: &str,
) -> (r: String)
    ensures
        r@ == match source.TranscodingUrl {
            Some(t) => server_address@ + t@.skip(crate::urls::spec_leading_slashes(t@)),
            None => crate::urls::spec_direct_stream_url(server_address@, source.Id@, token@),
        },
{
    match &source.TranscodingUrl {
        Some(t) => crate::urls::transcode_stream_url(server_address, t.as_str()),
        None => crate::urls::direct_stream_url(server_address, source.Id.as_str(), token),
    }
}

/// The subtitle loads owed for the external streams of a media source,
/// one per stream that is external and streamable, in order, each
/// addressed by its position among all the source's streams.
pub open spec fn spec_subtitle_commands(
    streams: Seq<MediaStream>,
    addr: Seq<char>,
    item_id: Seq<char>,
    source_id: Seq<char>,
    token: Seq<char>,
    start_ticks: Option<u64>,
    pos: int,
) -> Seq<(Seq<char>, Seq<char>, Seq<char>)>
    decreases streams.len(),
{
    if streams.len() == 0 {
        Seq::empty()
    } else {
        let s = streams.first();
        let rest = spec_subtitle_commands(
            streams.drop_first(),
            addr,
            item_id,
            source_id,
            token,
            start_ticks,
            pos + 1,
        );
        if s.IsExternal && s.SupportsExternalStream {
            let extension = match s.Path {
                Some(p) => if crate::urls::spec_last_dot(p@) == p@.len() {
                    p@
                } else {
                    p@.skip(crate::urls::spec_last_dot(p@) + 1)
                },
                None => match s.Codec {
                    Some(c) => c@,
                    None => Seq::empty(),
                },
            };
            let url = crate::urls::spec_subtitle_url(
                addr,
                item_id,
                source_id,
                pos,
                extension,
                token,
                start_ticks,
            );
            let title = crate::text::spec_quoted(
                match s.DisplayTitle {
                    Some(t) => t@,
                    None => "Undefined"@,
                },
            );
            let language = match s.Language {
                Some(l) => l@,
                None => "und"@,
            };
            seq![(url, title, language)] + rest
        } else {
            rest
        }
    }
}

/// The view of built subtitle commands.
pub open spec fn spec_subtitle_command_views(cs: Seq<SubtitleCommand>) -> Seq<
    (Seq<char>, Seq<char>, Seq<char>),
> {
    cs.map_values(|c: SubtitleCommand| (c.url@, c.title@, c.language@))
}

/// Builds the subtitle loads for the external streams of a media
/// source: each external, streamable stream becomes one load command
/// with its URL, quoted title and language tag.
pub fn subtitle_commands(
    streams: Vec<MediaStream>,
    server_address: &str,
    item_id: &str,
    source_id: &str,
    token: &str,
    start_ticks: Option<u64>,
) -> (r: Vec<SubtitleCommand>)
    requires
        streams@.len() <= u64::MAX,
    ensures
        spec_subtitle_command_views(r@) == spec_subtitle_commands(
            streams@,
            server_address@,
            item_id@,
            source_id@,
            token@,
            start_ticks,
            0,
        ),
{
    let ghost streams0 = streams@;
    let total: usize = streams.len();
    let mut rest = streams;
    let mut out: Vec<SubtitleCommand> = Vec::new();
    let mut pos: usize = 0;
    proof {
        assert(spec_subtitle_command_views(out@) =~= Seq::<
            (Seq<char>, Seq<char>, Seq<char>),
        >::empty());
        assert(Seq::<(Seq<char>, Seq<char>, Seq<char>)>::empty() + spec_subtitle_commands(
            streams0,
            server_address@,
            item_id@,
            source_id@,
            token@,
            start_ticks,
            0,
        ) =~= spec_subtitle_commands(
            streams0,
            server_address@,
            item_id@,
            source_id@,
            token@,
            start_ticks,
            0,
        ));
    }
    while rest.len() > 0
        invariant
            pos + rest@.len() == total <= u64::MAX,
            spec_subtitle_commands(
                streams0,
                server_address@,
                item_id@,
                source_id@,
                token@,
                start_ticks,
                0,
            ) == spec_subtitle_command_views(out@) + spec_subtitle_commands(
                rest@,
                server_address@,
                item_id@,
                source_id@,
                token@,
                start_ticks,
                pos as int,
            ),
        decreases rest@.len(),
    {
        let ghost prev_rest = rest@;
        let ghost prev_out = out@;
        let s = rest.remove(0);
        proof {
            assert(rest@ =~= prev_rest.drop_first());
            assert(s == prev_rest.first());
        }
        if s.IsExternal && s.SupportsExternalStream {
            let extension: String = match &s.Path {
                Some(p) => {
                    let e = crate::urls::extension_of(p.as_str());
                    String::from_str(e)
                },
                None => {
                    match &s.Codec {
                        Some(c) => c.clone(),
                        None => String::new(),
                    }
                },
            };
            let url = crate::urls::subtitle_url(
                server_address,
                item_id,
                source_id,
                pos as u64,
                extension.as_str(),
                token,
                start_ticks,
            );
            let title = match &s.DisplayTitle {
                Some(t) => crate::text::quoted(t.as_str()),
                None => crate::text::quoted("Undefined"),
            };
            let language: String = match &s.Language {
                Some(l) => l.clone(),
                None => String::from_str("und"),
            };
            out.push(SubtitleCommand { url, title, language });
            proof {
                assert(spec_subtitle_command_views(out@) =~= spec_subtitle_command_views(
                    prev_out,
                ).push((out@.last().url@, out@.last().title@, out@.last().language@)));
                assert(spec_subtitle_command_views(prev_out) + spec_subtitle_commands(
                    prev_rest,
                    server_address@,
                    item_id@,
                    source_id@,
                    token@,
                    start_ticks,
                    pos as int,
                ) =~= spec_subtitle_command_views(out@) + spec_subtitle_commands(
                    rest@,
                    server_address@,
                    item_id@,
                    source_id@,
                    token@,
                    start_ticks,
                    pos + 1,
                ));
            }
        }
        pos += 1;
    }
    proof {
        assert(spec_subtitle_commands(
            rest@,
            server_address@,
            item_id@,
            source_id@,
            token@,
            start_ticks,
            pos as int,
        ) =~= Seq::<(Seq<char>, Seq<char>, Seq<char>)>::empty());
        assert(spec_subtitle_command_views(out@) + Seq::<
            (Seq<char>, Seq<char>, Seq<char>),
        >::empty() =~= spec_subtitle_command_views(out@));
    }
    out
}

} // verus!
