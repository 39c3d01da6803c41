//! Events that a node sends to clients.

use super::outgoing::{Equalizer, EqualizerBand, Karaoke, Timescale, Tremolo, Vibrato};
use super::{Opcode, Real};
use crate::http::Error;
use vstd::prelude::*;
use vstd::std_specs::convert::FromSpecImpl;

verus! {

/// An incoming event from a node.
#[derive(Clone, Debug, PartialEq)]
pub enum IncomingEvent {
    /// An update about the information of a player.
    PlayerUpdate(PlayerUpdate),
    /// New statistics about a node and its host.
    Stats(Stats),
    /// A track ended.
    TrackEnd(TrackEnd),
    /// A track started.
    TrackStart(TrackStart),
}

impl From<PlayerUpdate> for IncomingEvent {
    fn from(event: PlayerUpdate) -> (r: IncomingEvent) {
        IncomingEvent::PlayerUpdate(event)
    }
}

impl FromSpecImpl<PlayerUpdate> for IncomingEvent {
    open spec fn obeys_from_spec() -> bool {
        true
    }

    open spec fn from_spec(event: PlayerUpdate) -> IncomingEvent {
        IncomingEvent::PlayerUpdate(event)
    }
}

impl From<Stats> for IncomingEvent {
    fn from(event: Stats) -> (r: IncomingEvent) {
        IncomingEvent::Stats(event)
    }
}

impl FromSpecImpl<Stats> for IncomingEvent {
    open spec fn obeys_from_spec() -> bool {
        true
    }

    open spec fn from_spec(event: Stats) -> IncomingEvent {
        IncomingEvent::Stats(event)
    }
}

/// An update about the information of a player.
#[derive(Clone, Debug, PartialEq)]
pub struct PlayerUpdate {
    /// The opcode of the event.
    pub op: Opcode,
    /// The guild ID of the player.
    pub guild_id: u64,
    /// The new state of the player.
    pub state: PlayerUpdateState,
}

/// The new state of a player.
#[derive(Clone, Debug, PartialEq)]
pub struct PlayerUpdateState {
    /// The new time of the player.
    pub time: i64,
    /// The new position of the player.
    pub position: i64,
    /// Whether the player is paused.
    pub paused: bool,
    /// Volume of the player.
    pub volume: i64,
    /// Filters present.
    pub filters: FiltersState,
    /// Mixer, always None.
    pub mixer: Option<()>,
    /// Mixer enabled, always None.
    pub mixer_enabled: Option<()>,
    /// Frame loss and success, always None.
    pub frame: Option<()>,
}

/// List of filters present.
#[derive(Clone, Debug, PartialEq)]
pub struct FiltersState {
    /// The karaoke filter.
    pub karaoke: Karaoke,
    /// The timescale filter.
    pub timescale: Timescale,
    /// The tremolo filter.
    pub tremolo: Tremolo,
    /// The vibrato filter.
    pub vibrato: Vibrato,
    /// The equalizer filter.
    pub equalizer: Equalizer,
    /// The volume filter, always None.
    pub volume: Option<()>,
}

/// What a filter set holds, with the equalizer's bands as a sequence.
pub struct FiltersStateView {
    pub karaoke: Karaoke,
    pub timescale: Timescale,
    pub tremolo: Tremolo,
    pub vibrato: Vibrato,
    pub bands: Seq<EqualizerBand>,
    pub equalizer_enabled: bool,
    pub volume: Option<()>,
}

impl View for FiltersState {
    type V = FiltersStateView;

    open spec fn view(&self) -> FiltersStateView {
        FiltersStateView {
            karaoke: self.karaoke,
            timescale: self.timescale,
            tremolo: self.tremolo,
            vibrato: self.vibrato,
            bands: self.equalizer.bands@,
            equalizer_enabled: self.equalizer.enabled,
            volume: self.volume,
        }
    }
}

impl FiltersStateView {
    /// The filter set of a player that has heard nothing from its node: every
    /// number zero, every filter disabled, no equalizer band.
    pub open spec fn initial() -> FiltersStateView {
        let zero = Real { bits: 0 };
        FiltersStateView {
            karaoke: Karaoke {
                level: zero,
                mono_level: zero,
                filter_band: zero,
                filter_width: zero,
                enabled: false,
            },
            timescale: Timescale { speed: zero, pitch: zero, rate: zero, enabled: false },
            tremolo: Tremolo { frequency: zero, depth: zero, enabled: false },
            vibrato: Vibrato { frequency: zero, depth: zero, enabled: false },
            bands: Seq::empty(),
            equalizer_enabled: false,
            volume: None,
        }
    }
}

impl FiltersState {
    /// Create a new filters state.
    pub fn new() -> (r: Self)
        ensures
            r@ == FiltersStateView::initial(),
    {
        FiltersState {
            karaoke: Karaoke {
                level: Real::zero(),
                mono_level: Real::zero(),
                filter_band: Real::zero(),
                filter_width: Real::zero(),
                enabled: false,
            },
            timescale: Timescale {
                speed: Real::zero(),
                pitch: Real::zero(),
                rate: Real::zero(),
                enabled: false,
            },
            tremolo: Tremolo { frequency: Real::zero(), depth: Real::zero(), enabled: false },
            vibrato: Vibrato { frequency: Real::zero(), depth: Real::zero(), enabled: false },
            equalizer: Equalizer { bands: Vec::new(), enabled: false },
            volume: None,
        }
    }

    /// A copy of the filter set, band for band.
    pub fn duplicate(&self) -> (r: Self)
        ensures
            r@ == self@,
    {
        let mut bands: Vec<EqualizerBand> = Vec::new();
        let mut i: usize = 0;
        while i < self.equalizer.bands.len()
            invariant
                i <= self.equalizer.bands.len(),
                bands@ == self.equalizer.bands@.subrange(0, i as int),
            decreases self.equalizer.bands.len() - i,
        {
            bands.push(self.equalizer.bands[i]);
            i = i + 1;
            assert(bands@ =~= self.equalizer.bands@.subrange(0, i as int));
        }
        assert(bands@ =~= self.equalizer.bands@);
        FiltersState {
            karaoke: self.karaoke,
            timescale: self.timescale,
            tremolo: self.tremolo,
            vibrato: self.vibrato,
            equalizer: Equalizer { bands, enabled: self.equalizer.enabled },
            volume: self.volume,
        }
    }
}

/// Statistics about a node and its host.
#[derive(Clone, Copy, Debug, PartialEq)]
pub struct Stats {
    /// The opcode of the event.
    pub op: Opcode,
    /// The current number of total players (active and not active) within
    /// the node.
    pub players: u64,
    /// The current number of active players within the node.
    pub playing_players: u64,
    /// The uptime of the node in seconds.
    pub uptime: u64,
    /// Memory information about the node's host.
    pub memory: StatsMemory,
    /// CPU information about the node's host.
    pub cpu: StatsCpu,
    /// Statistics about audio frames.
    pub frames: Option<StatsFrames>,
}

/// Memory information about a node and its host.
#[derive(Clone, Copy, Debug, PartialEq, Eq)]
pub struct StatsMemory {
    /// The number of bytes allocated.
    pub allocated: u64,
    /// The number of bytes free.
    pub free: u64,
    /// The number of bytes reservable.
    pub reservable: u64,
    /// The number of bytes used.
    pub used: u64,
}

/// CPU information about a node and its host.
#[derive(Clone, Copy, Debug, PartialEq)]
pub struct StatsCpu {
    /// The number of CPU cores.
    pub cores: usize,
    /// The load of the node.
    pub lavalink_load: Real,
    /// The load of the system as a whole.
    pub system_load: Real,
}

/// Audio frame statistics of a node over the last interval.
#[derive(Clone, Copy, Debug, PartialEq, Eq)]
pub struct StatsFrames {
    /// The number of frames sent.
    pub sent: u64,
    /// The number of frames that were lost.
    pub nulled: u64,
    /// The number of frames that were late.
    pub deficit: u64,
}

/// The type of track event that was received.
#[derive(Clone, Copy, Debug, PartialEq, Eq, Structural)]
pub enum TrackEventType {
    /// A track for a player started.
    Start,
    /// A track for a player ended.
    End,
    /// A track for a player met an exception.
    Exception,
    /// A track for a player got stuck.
    Stuck,
    /// The websocket got closed.
    WebsocketClose,
}

/// A track started.
#[derive(Clone, Debug, PartialEq, Eq)]
pub struct TrackStart {
    /// The opcode of the event.
    pub op: Opcode,
    /// The type of track event.
    pub kind: TrackEventType,
    /// The guild ID of the player.
    pub guild_id: u64,
    /// The user ID affected, always None.
    pub user_id: Option<()>,
    /// The base64 track that was affected.
    pub track: String,
}

/// A track ended.
#[derive(Clone, Debug, PartialEq, Eq)]
pub struct TrackEnd {
    /// The opcode of the event.
    pub op: Opcode,
    /// The type of track event.
    pub kind: TrackEventType,
    /// The guild ID of the player.
    pub guild_id: u64,
    /// The user ID affected, always None.
    pub user_id: Option<()>,
    /// The base64 track that was affected.
    pub track: String,
    /// The reason that the track ended.
    pub reason: String,
}

/// A track encountered exception.
#[derive(Clone, Debug, PartialEq, Eq)]
pub struct TrackException {
    /// The opcode of the event.
    pub op: Opcode,
    /// The type of track event.
    pub kind: TrackEventType,
    /// The guild ID of the player.
    pub guild_id: u64,
    /// The user ID affected, always None.
    pub user_id: Option<()>,
    /// The base64 track that was affected.
    pub track: String,
    /// The error that the track encountered exception.
    pub error: String,
    /// The specific error.
    pub exception: Error,
}

/// A track got stuck.
#[derive(Clone, Debug, PartialEq, Eq)]
pub struct TrackStuck {
    /// The opcode of the event.
    pub op: Opcode,
    /// The type of track event.
    pub kind: TrackEventType,
    /// The guild ID of the player.
    pub guild_id: u64,
    /// The user ID affected, always None.
    pub user_id: Option<()>,
    /// The base64 track that was affected.
    pub track: String,
    /// The threshold for track stuck.
    pub threshold_ms: i64,
}

/// The websocket got closed.
#[derive(Clone, Debug, PartialEq, Eq)]
pub struct WebsocketClose {
    /// The opcode of the event.
    pub op: Opcode,
    /// The type of track event.
    pub kind: TrackEventType,
    /// The guild ID of the player.
    pub guild_id: u64,
    /// The reason for the close of websocket.
    pub reason: String,
    /// The code for this websocket close.
    pub code: i64,
    /// Whether it is closed by remote.
    pub by_remote: bool,
}

} // verus!
