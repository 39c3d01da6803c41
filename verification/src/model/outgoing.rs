//! Events that clients send to a node.

use super::{Opcode, Real};
use vstd::prelude::*;
use vstd::std_specs::convert::FromSpecImpl;

verus! {

/// The bit pattern of 1.
pub const ONE_BITS: u64 = 0x3FF0_0000_0000_0000;

/// The bit pattern of 100.
pub const HUNDRED_BITS: u64 = 0x4059_0000_0000_0000;

/// The bit pattern of 220.
pub const TWO_HUNDRED_TWENTY_BITS: u64 = 0x406B_8000_0000_0000;

/// An outgoing event to send to a node.
#[derive(Clone, Debug, PartialEq)]
pub enum OutgoingEvent {
    /// A combined voice server and voice state update.
    VoiceUpdate(VoiceUpdate),
    /// Play a track.
    Play(Play),
    /// Stop a player.
    Stop(Stop),
    /// Pause or unpause a player.
    Pause(Pause),
    /// Seek a player's active track to a new position.
    Seek(Seek),
    /// Set the volume of a player.
    Volume(Volume),
    /// Set the filter of a player.
    Filters(Filters),
    /// Destroy a player for a guild.
    Destroy(Destroy),
}

impl OutgoingEvent {
    /// The guild that the command is addressed to.
    pub open spec fn spec_guild_id(&self) -> u64 {
        match self {
            OutgoingEvent::VoiceUpdate(e) => e.guild_id,
            OutgoingEvent::Play(e) => e.guild_id,
            OutgoingEvent::Stop(e) => e.guild_id,
            OutgoingEvent::Pause(e) => e.guild_id,
            OutgoingEvent::Seek(e) => e.guild_id,
            OutgoingEvent::Volume(e) => e.guild_id,
            OutgoingEvent::Filters(e) => e.guild_id,
            OutgoingEvent::Destroy(e) => e.guild_id,
        }
    }

    /// The operation discriminator that the command carries.
    pub open spec fn spec_op(&self) -> Opcode {
        match self {
            OutgoingEvent::VoiceUpdate(e) => e.op,
            OutgoingEvent::Play(e) => e.op,
            OutgoingEvent::Stop(e) => e.op,
            OutgoingEvent::Pause(e) => e.op,
            OutgoingEvent::Seek(e) => e.op,
            OutgoingEvent::Volume(e) => e.op,
            OutgoingEvent::Filters(e) => e.op,
            OutgoingEvent::Destroy(e) => e.op,
        }
    }

    /// The guild that the command is addressed to.
    pub fn guild_id(&self) -> (r: u64)
        ensures
            r == self.spec_guild_id(),
    {
        match self {
            OutgoingEvent::VoiceUpdate(e) => e.guild_id,
            OutgoingEvent::Play(e) => e.guild_id,
            OutgoingEvent::Stop(e) => e.guild_id,
            OutgoingEvent::Pause(e) => e.guild_id,
            OutgoingEvent::Seek(e) => e.guild_id,
            OutgoingEvent::Volume(e) => e.guild_id,
            OutgoingEvent::Filters(e) => e.guild_id,
            OutgoingEvent::Destroy(e) => e.guild_id,
        }
    }

    /// The operation discriminator that the command carries.
    pub fn op(&self) -> (r: Opcode)
        ensures
            r == self.spec_op(),
    {
        match self {
            OutgoingEvent::VoiceUpdate(e) => e.op,
            OutgoingEvent::Play(e) => e.op,
            OutgoingEvent::Stop(e) => e.op,
            OutgoingEvent::Pause(e) => e.op,
            OutgoingEvent::Seek(e) => e.op,
            OutgoingEvent::Volume(e) => e.op,
            OutgoingEvent::Filters(e) => e.op,
            OutgoingEvent::Destroy(e) => e.op,
        }
    }
}

/// A combined voice server and voice state update.
#[derive(Clone, Debug, PartialEq, Eq)]
pub struct VoiceUpdate {
    /// The opcode of the event.
    pub op: Opcode,
    /// The session ID of the voice channel.
    pub session_id: String,
    /// The guild ID of the player.
    pub guild_id: u64,
    /// The inner event being forwarded to a node.
    pub event: SlimVoiceServerUpdate,
}

impl VoiceUpdate {
    /// Create a new voice update event.
    pub fn new(guild_id: u64, session_id: String, event: SlimVoiceServerUpdate) -> (r: Self)
        ensures
            r == (VoiceUpdate { op: Opcode::VoiceUpdate, session_id, guild_id, event }),
    {
        VoiceUpdate { op: Opcode::VoiceUpdate, session_id, guild_id, event }
    }
}

/// A slimmed version of a voice server update of the chat platform.
#[derive(Clone, Debug, PartialEq, Eq)]
pub struct SlimVoiceServerUpdate {
    /// The endpoint of the voice server.
    pub endpoint: Option<String>,
    /// The authentication token used by the bot to connect to the voice
    /// server.
    pub token: String,
}

impl SlimVoiceServerUpdate {
    /// Keep the endpoint and the token of a voice server update.
    pub fn new(endpoint: Option<String>, token: String) -> (r: Self)
        ensures
            r == (SlimVoiceServerUpdate { endpoint, token }),
    {
        SlimVoiceServerUpdate { endpoint, token }
    }
}

/// Play a track, optionally specifying to not skip the current track.
#[derive(Clone, Debug, PartialEq, Eq)]
pub struct Play {
    /// The opcode of the event.
    pub op: Opcode,
    /// The guild ID of the player.
    pub guild_id: u64,
    /// The base64 track information.
    pub track: String,
    /// The position in milliseconds to start the track from.
    pub start_time: Option<u64>,
    /// The position in milliseconds to end the track. Does nothing.
    pub end_time: Option<u64>,
    /// Whether or not to replace the currently playing track with this new
    /// track.
    ///
    /// Set to `true` to keep playing the current playing track, or `false`
    /// to replace the current playing track with a new one.
    pub no_replace: bool,
}

impl Play {
    /// Create a new play event.
    pub fn new(
        guild_id: u64,
        track: String,
        start_time: Option<u64>,
        end_time: Option<u64>,
        no_replace: bool,
    ) -> (r: Self)
        ensures
            r == (Play { op: Opcode::Play, guild_id, track, start_time, end_time, no_replace }),
    {
        Play { op: Opcode::Play, guild_id, track, start_time, end_time, no_replace }
    }

    /// Play a whole track, keeping the track that is playing now.
    pub fn from_track(guild_id: u64, track: String) -> (r: Self)
        ensures
            r == (Play {
                op: Opcode::Play,
                guild_id,
                track,
                start_time: None,
                end_time: None,
                no_replace: true,
            }),
    {
        Play::new(guild_id, track, None, None, true)
    }
}

/// Stop a player.
#[derive(Clone, Debug, PartialEq, Eq)]
pub struct Stop {
    /// The opcode of the event.
    pub op: Opcode,
    /// The guild ID of the player.
    pub guild_id: u64,
}

impl Stop {
    /// Create a new stop event.
    pub fn new(guild_id: u64) -> (r: Self)
        ensures
            r == (Stop { op: Opcode::Stop, guild_id }),
    {
        Stop { op: Opcode::Stop, guild_id }
    }
}

/// Pause or unpause a player.
#[derive(Clone, Debug, PartialEq, Eq)]
pub struct Pause {
    /// The opcode of the event.
    pub op: Opcode,
    /// The guild ID of the player.
    pub guild_id: u64,
    /// Whether to pause the player.
    ///
    /// Set to `true` to pause or `false` to resume.
    pub pause: bool,
}

impl Pause {
    /// Create a new pause event.
    ///
    /// Set to `true` to pause the player or `false` to resume it.
    pub fn new(guild_id: u64, pause: bool) -> (r: Self)
        ensures
            r == (Pause { op: Opcode::Pause, guild_id, pause }),
    {
        Pause { op: Opcode::Pause, guild_id, pause }
    }
}

/// Seek a player's active track to a new position.
#[derive(Clone, Debug, PartialEq, Eq)]
pub struct Seek {
    /// The opcode of the event.
    pub op: Opcode,
    /// The guild ID of the player.
    pub guild_id: u64,
    /// The position in milliseconds to seek to.
    pub position: i64,
}

impl Seek {
    /// Create a new seek event.
    pub fn new(guild_id: u64, position: i64) -> (r: Self)
        ensures
            r == (Seek { op: Opcode::Seek, guild_id, position }),
    {
        Seek { op: Opcode::Seek, guild_id, position }
    }
}

/// Set the volume of a player.
#[derive(Clone, Debug, PartialEq, Eq)]
pub struct Volume {
    /// The opcode of the event.
    pub op: Opcode,
    /// The guild ID of the player.
    pub guild_id: u64,
    /// The volume of the player from 0 to 1000. 100 is the default.
    pub volume: i64,
}

impl Volume {
    /// Create a new volume event.
    pub fn new(guild_id: u64, volume: i64) -> (r: Self)
        ensures
            r == (Volume { op: Opcode::Volume, guild_id, volume }),
    {
        Volume { op: Opcode::Volume, guild_id, volume }
    }
}

/// Set the filters of a player.
#[derive(Clone, Debug, PartialEq)]
pub struct Filters {
    /// The opcode of the event.
    pub op: Opcode,
    /// The guild ID of the player.
    pub guild_id: u64,
    /// The karaoke filter.
    pub karaoke: Option<Karaoke>,
    /// The timescale filter.
    pub timescale: Option<Timescale>,
    /// The tremolo filter.
    pub tremolo: Option<Tremolo>,
    /// The vibrato filter.
    pub vibrato: Option<Vibrato>,
    /// The equalizer filter.
    pub equalizer: Option<Equalizer>,
}

impl Filters {
    /// Create a new filters event.
    pub fn new(
        guild_id: u64,
        karaoke: Option<Karaoke>,
        timescale: Option<Timescale>,
        tremolo: Option<Tremolo>,
        vibrato: Option<Vibrato>,
        equalizer: Option<Equalizer>,
    ) -> (r: Self)
        ensures
            r == (Filters {
                op: Opcode::Filters,
                guild_id,
                karaoke,
                timescale,
                tremolo,
                vibrato,
                equalizer,
            }),
    {
        Filters { op: Opcode::Filters, guild_id, karaoke, timescale, tremolo, vibrato, equalizer }
    }
}

/// Karaoke filter.
#[derive(Clone, Copy, Debug, PartialEq)]
pub struct Karaoke {
    /// The effect level.
    pub level: Real,
    /// The mono effect level.
    pub mono_level: Real,
    /// The filter band.
    pub filter_band: Real,
    /// The filter width.
    pub filter_width: Real,
    /// Whether is enabled, skipped when serializing.
    pub enabled: bool,
}

impl Karaoke {
    /// Create a new karaoke filter.
    pub fn new(level: Real, mono_level: Real, filter_band: Real, filter_width: Real) -> (r: Self)
        ensures
            r == (Karaoke { level, mono_level, filter_band, filter_width, enabled: false }),
    {
        Karaoke { level, mono_level, filter_band, filter_width, enabled: false }
    }

    /// A karaoke filter of the given level with mono level 1, band 220 and
    /// width 100.
    pub fn from_level(level: Real) -> (r: Self)
        ensures
            r == (Karaoke {
                level,
                mono_level: Real { bits: ONE_BITS },
                filter_band: Real { bits: TWO_HUNDRED_TWENTY_BITS },
                filter_width: Real { bits: HUNDRED_BITS },
                enabled: false,
            }),
    {
        Karaoke::new(
            level,
            Real::from_bits(ONE_BITS),
            Real::from_bits(TWO_HUNDRED_TWENTY_BITS),
            Real::from_bits(HUNDRED_BITS),
        )
    }
}

/// Timescale filter.
#[derive(Clone, Copy, Debug, PartialEq)]
pub struct Timescale {
    /// Speed to play at.
    pub speed: Real,
    /// Pitch to play at.
    pub pitch: Real,
    /// Rate to play at.
    pub rate: Real,
    /// Whether is enabled, skipped when serializing.
    pub enabled: bool,
}

impl Timescale {
    /// Create a new timescale filter.
    pub fn new(speed: Real, pitch: Real, rate: Real) -> (r: Self)
        ensures
            r == (Timescale { speed, pitch, rate, enabled: false }),
    {
        Timescale { speed, pitch, rate, enabled: false }
    }
}

/// Tremolo filter.
#[derive(Clone, Copy, Debug, PartialEq)]
pub struct Tremolo {
    /// The filter frequency.
    pub frequency: Real,
    /// The filter depth.
    pub depth: Real,
    /// Whether is enabled, skipped when serializing.
    pub enabled: bool,
}

impl Tremolo {
    /// Create a new tremolo filter.
    pub fn new(frequency: Real, depth: Real) -> (r: Self)
        ensures
            r == (Tremolo { frequency, depth, enabled: false }),
    {
        Tremolo { frequency, depth, enabled: false }
    }
}

/// Vibrato filter.
#[derive(Clone, Copy, Debug, PartialEq)]
pub struct Vibrato {
    /// The filter frequency.
    pub frequency: Real,
    /// The filter depth.
    pub depth: Real,
    /// Whether is enabled, skipped when serializing.
    pub enabled: bool,
}

impl Vibrato {
    /// Create a new vibrato filter.
    pub fn new(frequency: Real, depth: Real) -> (r: Self)
        ensures
            r == (Vibrato { frequency, depth, enabled: false }),
    {
        Vibrato { frequency, depth, enabled: false }
    }
}

/// Equalize a player.
#[derive(Clone, Debug, PartialEq)]
pub struct Equalizer {
    /// The bands to use as part of the equalizer.
    pub bands: Vec<EqualizerBand>,
    /// Whether is enabled, skipped when serializing.
    pub enabled: bool,
}

impl Equalizer {
    /// Create a new equalizer filter.
    pub fn new(bands: Vec<EqualizerBand>) -> (r: Self)
        ensures
            r == (Equalizer { bands, enabled: false }),
    {
        Equalizer { bands, enabled: false }
    }
}

/// A band of the equalizer event.
#[derive(Clone, Copy, Debug, PartialEq)]
pub struct EqualizerBand {
    /// The band.
    pub band: i64,
    /// The gain.
    pub gain: Real,
}

impl EqualizerBand {
    /// Create a new equalizer band.
    pub fn new(band: i64, gain: Real) -> (r: Self)
        ensures
            r == (EqualizerBand { band, gain }),
    {
        EqualizerBand { band, gain }
    }
}

/// Destroy a player from a node.
#[derive(Clone, Debug, PartialEq, Eq)]
pub struct Destroy {
    /// The opcode of the event.
    pub op: Opcode,
    /// The guild ID of the player.
    pub guild_id: u64,
}

impl Destroy {
    /// Create a new destroy event.
    pub fn new(guild_id: u64) -> (r: Self)
        ensures
            r == (Destroy { op: Opcode::Destroy, guild_id }),
    {
        Destroy { op: Opcode::Destroy, guild_id }
    }
}

impl From<VoiceUpdate> for OutgoingEvent {
    fn from(event: VoiceUpdate) -> (r: OutgoingEvent) {
        OutgoingEvent::VoiceUpdate(event)
    }
}

impl FromSpecImpl<VoiceUpdate> for OutgoingEvent {
    open spec fn obeys_from_spec() -> bool {
        true
    }

    open spec fn from_spec(event: VoiceUpdate) -> OutgoingEvent {
        OutgoingEvent::VoiceUpdate(event)
    }
}

impl From<Play> for OutgoingEvent {
    fn from(event: Play) -> (r: OutgoingEvent) {
        OutgoingEvent::Play(event)
    }
}

impl FromSpecImpl<Play> for OutgoingEvent {
    open spec fn obeys_from_spec() -> bool {
        true
    }

    open spec fn from_spec(event: Play) -> OutgoingEvent {
        OutgoingEvent::Play(event)
    }
}

impl From<Stop> for OutgoingEvent {
    fn from(event: Stop) -> (r: OutgoingEvent) {
        OutgoingEvent::Stop(event)
    }
}

impl FromSpecImpl<Stop> for OutgoingEvent {
    open spec fn obeys_from_spec() -> bool {
        true
    }

    open spec fn from_spec(event: Stop) -> OutgoingEvent {
        OutgoingEvent::Stop(event)
    }
}

impl From<Pause> for OutgoingEvent {
    fn from(event: Pause) -> (r: OutgoingEvent) {
        OutgoingEvent::Pause(event)
    }
}

impl FromSpecImpl<Pause> for OutgoingEvent {
    open spec fn obeys_from_spec() -> bool {
        true
    }

    open spec fn from_spec(event: Pause) -> OutgoingEvent {
        OutgoingEvent::Pause(event)
    }
}

impl From<Seek> for OutgoingEvent {
    fn from(event: Seek) -> (r: OutgoingEvent) {
        OutgoingEvent::Seek(event)
    }
}

impl FromSpecImpl<Seek> for OutgoingEvent {
    open spec fn obeys_from_spec() -> bool {
        true
    }

    open spec fn from_spec(event: Seek) -> OutgoingEvent {
        OutgoingEvent::Seek(event)
    }
}

impl From<Volume> for OutgoingEvent {
    fn from(event: Volume) -> (r: OutgoingEvent) {
        OutgoingEvent::Volume(event)
    }
}

impl FromSpecImpl<Volume> for OutgoingEvent {
    open spec fn obeys_from_spec() -> bool {
        true
    }

    open spec fn from_spec(event: Volume) -> OutgoingEvent {
        OutgoingEvent::Volume(event)
    }
}

impl From<Filters> for OutgoingEvent {
    fn from(event: Filters) -> (r: OutgoingEvent) {
        OutgoingEvent::Filters(event)
    }
}

impl FromSpecImpl<Filters> for OutgoingEvent {
    open spec fn obeys_from_spec() -> bool {
        true
    }

    open spec fn from_spec(event: Filters) -> OutgoingEvent {
        OutgoingEvent::Filters(event)
    }
}

impl From<Destroy> for OutgoingEvent {
    fn from(event: Destroy) -> (r: OutgoingEvent) {
        OutgoingEvent::Destroy(event)
    }
}

impl FromSpecImpl<Destroy> for OutgoingEvent {
    open spec fn obeys_from_spec() -> bool {
        true
    }

    open spec fn from_spec(event: Destroy) -> OutgoingEvent {
        OutgoingEvent::Destroy(event)
    }
}

impl From<(u64, String, SlimVoiceServerUpdate)> for VoiceUpdate {
    fn from(parts: (u64, String, SlimVoiceServerUpdate)) -> (r: VoiceUpdate) {
        let (guild_id, session_id, event) = parts;
        VoiceUpdate { op: Opcode::VoiceUpdate, session_id, guild_id, event }
    }
}

impl FromSpecImpl<(u64, String, SlimVoiceServerUpdate)> for VoiceUpdate {
    open spec fn obeys_from_spec() -> bool {
        true
    }

    open spec fn from_spec(parts: (u64, String, SlimVoiceServerUpdate)) -> VoiceUpdate {
        let (guild_id, session_id, event) = parts;
        VoiceUpdate { op: Opcode::VoiceUpdate, session_id, guild_id, event }
    }
}

impl From<(u64, String)> for Play {
    fn from(parts: (u64, String)) -> (r: Play) {
        let (guild_id, track) = parts;
        Play { op: Opcode::Play, guild_id, track, start_time: None, end_time: None, no_replace: true }
    }
}

impl FromSpecImpl<(u64, String)> for Play {
    open spec fn obeys_from_spec() -> bool {
        true
    }

    open spec fn from_spec(parts: (u64, String)) -> Play {
        let (guild_id, track) = parts;
        Play { op: Opcode::Play, guild_id, track, start_time: None, end_time: None, no_replace: true }
    }
}

impl From<(u64, String, Option<u64>)> for Play {
    fn from(parts: (u64, String, Option<u64>)) -> (r: Play) {
        let (guild_id, track, start_time) = parts;
        Play { op: Opcode::Play, guild_id, track, start_time, end_time: None, no_replace: true }
    }
}

impl FromSpecImpl<(u64, String, Option<u64>)> for Play {
    open spec fn obeys_from_spec() -> bool {
        true
    }

    open spec fn from_spec(parts: (u64, String, Option<u64>)) -> Play {
        let (guild_id, track, start_time) = parts;
        Play { op: Opcode::Play, guild_id, track, start_time, end_time: None, no_replace: true }
    }
}

impl From<(u64, String, Option<u64>, Option<u64>)> for Play {
    fn from(parts: (u64, String, Option<u64>, Option<u64>)) -> (r: Play) {
        let (guild_id, track, start_time, end_time) = parts;
        Play { op: Opcode::Play, guild_id, track, start_time, end_time, no_replace: true }
    }
}

impl FromSpecImpl<(u64, String, Option<u64>, Option<u64>)> for Play {
    open spec fn obeys_from_spec() -> bool {
        true
    }

    open spec fn from_spec(parts: (u64, String, Option<u64>, Option<u64>)) -> Play {
        let (guild_id, track, start_time, end_time) = parts;
        Play { op: Opcode::Play, guild_id, track, start_time, end_time, no_replace: true }
    }
}

impl From<(u64, String, Option<u64>, Option<u64>, bool)> for Play {
    fn from(parts: (u64, String, Option<u64>, Option<u64>, bool)) -> (r: Play) {
        let (guild_id, track, start_time, end_time, no_replace) = parts;
        Play { op: Opcode::Play, guild_id, track, start_time, end_time, no_replace }
    }
}

impl FromSpecImpl<(u64, String, Option<u64>, Option<u64>, bool)> for Play {
    open spec fn obeys_from_spec() -> bool {
        true
    }

    open spec fn from_spec(parts: (u64, String, Option<u64>, Option<u64>, bool)) -> Play {
        let (guild_id, track, start_time, end_time, no_replace) = parts;
        Play { op: Opcode::Play, guild_id, track, start_time, end_time, no_replace }
    }
}

impl From<u64> for Stop {
    fn from(parts: u64) -> (r: Stop) {
        let guild_id = parts;
        Stop { op: Opcode::Stop, guild_id }
    }
}

impl FromSpecImpl<u64> for Stop {
    open spec fn obeys_from_spec() -> bool {
        true
    }

    open spec fn from_spec(parts: u64) -> Stop {
        let guild_id = parts;
        Stop { op: Opcode::Stop, guild_id }
    }
}

impl From<(u64, bool)> for Pause {
    fn from(parts: (u64, bool)) -> (r: Pause) {
        let (guild_id, pause) = parts;
        Pause { op: Opcode::Pause, guild_id, pause }
    }
}

impl FromSpecImpl<(u64, bool)> for Pause {
    open spec fn obeys_from_spec() -> bool {
        true
    }

    open spec fn from_spec(parts: (u64, bool)) -> Pause {
        let (guild_id, pause) = parts;
        Pause { op: Opcode::Pause, guild_id, pause }
    }
}

impl From<(u64, i64)> for Seek {
    fn from(parts: (u64, i64)) -> (r: Seek) {
        let (guild_id, position) = parts;
        Seek { op: Opcode::Seek, guild_id, position }
    }
}

impl FromSpecImpl<(u64, i64)> for Seek {
    open spec fn obeys_from_spec() -> bool {
        true
    }

    open spec fn from_spec(parts: (u64, i64)) -> Seek {
        let (guild_id, position) = parts;
        Seek { op: Opcode::Seek, guild_id, position }
    }
}

impl From<(u64, i64)> for Volume {
    fn from(parts: (u64, i64)) -> (r: Volume) {
        let (guild_id, volume) = parts;
        Volume { op: Opcode::Volume, guild_id, volume }
    }
}

impl FromSpecImpl<(u64, i64)> for Volume {
    open spec fn obeys_from_spec() -> bool {
        true
    }

    open spec fn from_spec(parts: (u64, i64)) -> Volume {
        let (guild_id, volume) = parts;
        Volume { op: Opcode::Volume, guild_id, volume }
    }
}

impl From<(u64, Option<Karaoke>, Option<Timescale>, Option<Tremolo>, Option<Vibrato>, Option<Equalizer>)> for Filters {
    fn from(parts: (u64, Option<Karaoke>, Option<Timescale>, Option<Tremolo>, Option<Vibrato>, Option<Equalizer>)) -> (r: Filters) {
        let (guild_id, karaoke, timescale, tremolo, vibrato, equalizer) = parts;
        Filters { op: Opcode::Filters, guild_id, karaoke, timescale, tremolo, vibrato, equalizer }
    }
}

impl FromSpecImpl<(u64, Option<Karaoke>, Option<Timescale>, Option<Tremolo>, Option<Vibrato>, Option<Equalizer>)> for Filters {
    open spec fn obeys_from_spec() -> bool {
        true
    }

    open spec fn from_spec(parts: (u64, Option<Karaoke>, Option<Timescale>, Option<Tremolo>, Option<Vibrato>, Option<Equalizer>)) -> Filters {
        let (guild_id, karaoke, timescale, tremolo, vibrato, equalizer) = parts;
        Filters { op: Opcode::Filters, guild_id, karaoke, timescale, tremolo, vibrato, equalizer }
    }
}

impl From<Real> for Karaoke {
    fn from(parts: Real) -> (r: Karaoke) {
        let level = parts;
        Karaoke { level, mono_level: Real { bits: ONE_BITS }, filter_band: Real { bits: TWO_HUNDRED_TWENTY_BITS }, filter_width: Real { bits: HUNDRED_BITS }, enabled: false }
    }
}

impl FromSpecImpl<Real> for Karaoke {
    open spec fn obeys_from_spec() -> bool {
        true
    }

    open spec fn from_spec(parts: Real) -> Karaoke {
        let level = parts;
        Karaoke { level, mono_level: Real { bits: ONE_BITS }, filter_band: Real { bits: TWO_HUNDRED_TWENTY_BITS }, filter_width: Real { bits: HUNDRED_BITS }, enabled: false }
    }
}

impl From<(Real, Real, Real, Real)> for Karaoke {
    fn from(parts: (Real, Real, Real, Real)) -> (r: Karaoke) {
        let (level, mono_level, filter_band, filter_width) = parts;
        Karaoke { level, mono_level, filter_band, filter_width, enabled: false }
    }
}

impl FromSpecImpl<(Real, Real, Real, Real)> for Karaoke {
    open spec fn obeys_from_spec() -> bool {
        true
    }

    open spec fn from_spec(parts: (Real, Real, Real, Real)) -> Karaoke {
        let (level, mono_level, filter_band, filter_width) = parts;
        Karaoke { level, mono_level, filter_band, filter_width, enabled: false }
    }
}

impl From<(Real, Real, Real)> for Timescale {
    fn from(parts: (Real, Real, Real)) -> (r: Timescale) {
        let (speed, pitch, rate) = parts;
        Timescale { speed, pitch, rate, enabled: false }
    }
}

impl FromSpecImpl<(Real, Real, Real)> for Timescale {
    open spec fn obeys_from_spec() -> bool {
        true
    }

    open spec fn from_spec(parts: (Real, Real, Real)) -> Timescale {
        let (speed, pitch, rate) = parts;
        Timescale { speed, pitch, rate, enabled: false }
    }
}

impl From<(Real, Real)> for Tremolo {
    fn from(parts: (Real, Real)) -> (r: Tremolo) {
        let (frequency, depth) = parts;
        Tremolo { frequency, depth, enabled: false }
    }
}

impl FromSpecImpl<(Real, Real)> for Tremolo {
    open spec fn obeys_from_spec() -> bool {
        true
    }

    open spec fn from_spec(parts: (Real, Real)) -> Tremolo {
        let (frequency, depth) = parts;
        Tremolo { frequency, depth, enabled: false }
    }
}

impl From<(Real, Real)> for Vibrato {
    fn from(parts: (Real, Real)) -> (r: Vibrato) {
        let (frequency, depth) = parts;
        Vibrato { frequency, depth, enabled: false }
    }
}

impl FromSpecImpl<(Real, Real)> for Vibrato {
    open spec fn obeys_from_spec() -> bool {
        true
    }

    open spec fn from_spec(parts: (Real, Real)) -> Vibrato {
        let (frequency, depth) = parts;
        Vibrato { frequency, depth, enabled: false }
    }
}

impl From<Vec<EqualizerBand>> for Equalizer {
    fn from(parts: Vec<EqualizerBand>) -> (r: Equalizer) {
        let bands = parts;
        Equalizer { bands, enabled: false }
    }
}

impl FromSpecImpl<Vec<EqualizerBand>> for Equalizer {
    open spec fn obeys_from_spec() -> bool {
        true
    }

    open spec fn from_spec(parts: Vec<EqualizerBand>) -> Equalizer {
        let bands = parts;
        Equalizer { bands, enabled: false }
    }
}

impl From<(i64, Real)> for EqualizerBand {
    fn from(parts: (i64, Real)) -> (r: EqualizerBand) {
        let (band, gain) = parts;
        EqualizerBand { band, gain }
    }
}

impl FromSpecImpl<(i64, Real)> for EqualizerBand {
    open spec fn obeys_from_spec() -> bool {
        true
    }

    open spec fn from_spec(parts: (i64, Real)) -> EqualizerBand {
        let (band, gain) = parts;
        EqualizerBand { band, gain }
    }
}

impl From<u64> for Destroy {
    fn from(parts: u64) -> (r: Destroy) {
        let guild_id = parts;
        Destroy { op: Opcode::Destroy, guild_id }
    }
}

impl FromSpecImpl<u64> for Destroy {
    open spec fn obeys_from_spec() -> bool {
        true
    }

    open spec fn from_spec(parts: u64) -> Destroy {
        let guild_id = parts;
        Destroy { op: Opcode::Destroy, guild_id }
    }
}

} // verus!
