//! One run of the updater: from the outcome of the probe to what is done.
//!
//! Only a track that plays leads to a status update. Every other outcome,
//! a failed probe included, ends the run with a report and nothing sent.

use crate::emoji::Emoji;
use crate::player::{PlayerState, PlayerStateView, TrackInfo, TrackView};
use crate::probe::{probe_view, ProbeError, ProbeErrorView};
use crate::status::{status_for, StatusPayload, StatusPayloadView};
use vstd::prelude::*;

verus! {

/// How long a status lives unless the settings say otherwise, in seconds.
pub const DEFAULT_TTL_SECONDS: u64 = 300;

/// What a run can be told: how long the status is to live, and whether the
/// emoji changes from run to run.
#[derive(Clone, Copy, Debug, PartialEq, Eq, Structural)]
pub struct Settings {
    pub ttl_seconds: u64,
    pub randomize_emoji: bool,
}

impl Default for Settings {
    /// Five minutes of life and a random emoji.
    fn default() -> (settings: Settings)
        ensures
            settings.ttl_seconds == DEFAULT_TTL_SECONDS,
            settings.randomize_emoji,
    {
        Settings { ttl_seconds: DEFAULT_TTL_SECONDS, randomize_emoji: true }
    }
}

/// What a run does once the probe is over.
#[derive(Clone, Debug, PartialEq, Eq)]
pub enum Action {
    /// A track plays: publish this status.
    Publish(StatusPayload),
    /// Playback is paused on this track: nothing is sent.
    ReportPaused(TrackInfo),
    /// No track is selected: nothing is sent.
    ReportStopped,
    /// The player is not running: nothing is sent.
    ReportOff,
    /// The probe failed: nothing is sent.
    ReportProbeFailure(ProbeError),
}

/// The mathematical value of an [`Action`].
pub enum ActionView {
    Publish(StatusPayloadView),
    ReportPaused(TrackView),
    ReportStopped,
    ReportOff,
    ReportProbeFailure(ProbeErrorView),
}

impl View for Action {
    type V = ActionView;

    open spec fn view(&self) -> ActionView {
        match self {
            Action::Publish(payload) => ActionView::Publish(payload@),
            Action::ReportPaused(track) => ActionView::ReportPaused(track@),
            Action::ReportStopped => ActionView::ReportStopped,
            Action::ReportOff => ActionView::ReportOff,
            Action::ReportProbeFailure(error) => ActionView::ReportProbeFailure(error@),
        }
    }
}

/// Holds of a probe that found a track playing.
pub open spec fn is_playing(probe: Result<PlayerStateView, ProbeErrorView>) -> bool {
    probe matches Ok(PlayerStateView::Playing(_))
}

/// The action that follows a probe, for a given emoji, time and time to
/// live.
pub open spec fn action_for(
    probe: Result<PlayerStateView, ProbeErrorView>,
    emoji: Emoji,
    now: u64,
    ttl: u64,
) -> ActionView {
    match probe {
        Ok(PlayerStateView::Playing(track)) => ActionView::Publish(
            status_for(track, emoji, now, ttl),
        ),
        Ok(PlayerStateView::Paused(track)) => ActionView::ReportPaused(track),
        Ok(PlayerStateView::Stopped) => ActionView::ReportStopped,
        Ok(PlayerStateView::Off) => ActionView::ReportOff,
        Err(error) => ActionView::ReportProbeFailure(error),
    }
}

impl ActionView {
    /// The one line that reports the action.
    pub open spec fn headline(self) -> Seq<char> {
        match self {
            ActionView::Publish(_) => "updating status"@,
            ActionView::ReportPaused(_) => "song paused"@,
            ActionView::ReportStopped => "no song currently selected"@,
            ActionView::ReportOff => "player not running"@,
            ActionView::ReportProbeFailure(_) => "error fetching song"@,
        }
    }
}

impl Action {
    /// The one line that reports the action.
    pub fn headline(&self) -> (line: &'static str)
        ensures
            line@ == self@.headline(),
    {
        match self {
            Action::Publish(_) => "updating status",
            Action::ReportPaused(_) => "song paused",
            Action::ReportStopped => "no song currently selected",
            Action::ReportOff => "player not running",
            Action::ReportProbeFailure(_) => "error fetching song",
        }
    }
}

/// Decides what follows a probe, with the emoji given. The time and the
/// time to live matter only where a track plays.
pub fn plan(probe: Result<PlayerState, ProbeError>, emoji: Emoji, now: u64, ttl: u64) -> (action:
    Action)
    requires
        is_playing(probe_view(probe)) ==> 0 < ttl && now + ttl <= u64::MAX,
    ensures
        action@ == action_for(probe_view(probe), emoji, now, ttl),
        action is Publish <==> is_playing(probe_view(probe)),
{
    match probe {
        Ok(PlayerState::Playing(track)) => Action::Publish(
            StatusPayload::new(&track, emoji, now, ttl),
        ),
        Ok(PlayerState::Paused(track)) => Action::ReportPaused(track),
        Ok(PlayerState::Stopped) => Action::ReportStopped,
        Ok(PlayerState::Off) => Action::ReportOff,
        Err(error) => Action::ReportProbeFailure(error),
    }
}

/// Decides what follows a probe under the given settings. Where a track
/// plays an emoji is picked, at random if the settings say so; which one
/// then comes out is not known, so the action is the one that follows for
/// some emoji.
pub fn next_action(probe: Result<PlayerState, ProbeError>, settings: &Settings, now: u64) -> (action:
    Action)
    requires
        is_playing(probe_view(probe)) ==> 0 < settings.ttl_seconds && now + settings.ttl_seconds
            <= u64::MAX,
    ensures
        exists|emoji: Emoji|
            action@ == #[trigger] action_for(probe_view(probe), emoji, now, settings.ttl_seconds),
        !settings.randomize_emoji ==> action@ == action_for(
            probe_view(probe),
            Emoji::Notes,
            now,
            settings.ttl_seconds,
        ),
        action is Publish <==> is_playing(probe_view(probe)),
{
    let emoji = match probe {
        Ok(PlayerState::Playing(_)) => Emoji::pick(settings.randomize_emoji),
        _ => Emoji::Notes,
    };
    plan(probe, emoji, now, settings.ttl_seconds)
}

/// Nothing is published unless a track plays: for every other outcome of
/// the probe the action is a report, whatever the emoji, the time and the
/// time to live.
pub proof fn lemma_only_playing_publishes(
    probe: Result<PlayerStateView, ProbeErrorView>,
    emoji: Emoji,
    now: u64,
    ttl: u64,
)
    ensures
        action_for(probe, emoji, now, ttl) is Publish <==> is_playing(probe),
        probe == Ok::<PlayerStateView, ProbeErrorView>(PlayerStateView::Off) ==> action_for(
            probe,
            emoji,
            now,
            ttl,
        ) == ActionView::ReportOff,
{
}

} // verus!
