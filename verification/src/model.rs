//! The commands sent to a node and the notifications received from it.

use vstd::prelude::*;

pub mod incoming;
pub mod outgoing;

pub use self::incoming::{
    FiltersState, FiltersStateView, IncomingEvent, PlayerUpdate, PlayerUpdateState, Stats,
    StatsCpu, StatsFrames, StatsMemory, TrackEnd, TrackEventType, TrackException, TrackStart,
    TrackStuck, WebsocketClose,
};
pub use self::outgoing::{
    Destroy, Equalizer, EqualizerBand, Filters, Karaoke, OutgoingEvent, Pause, Play, Seek,
    SlimVoiceServerUpdate, Stop, Timescale, Tremolo, Vibrato, VoiceUpdate, Volume,
};

verus! {

/// The type of event that something is.
#[derive(Clone, Copy, Debug, PartialEq, Eq, Structural)]
pub enum Opcode {
    /// Default empty op code.
    Empty,
    /// A combined voice server and voice state update.
    VoiceUpdate,
    /// Play a track.
    Play,
    /// Stop a player.
    Stop,
    /// Pause a player.
    Pause,
    /// Seek a player's active track to a new position.
    Seek,
    /// Set the volume of a player.
    Volume,
    /// Set the filter of a player.
    Filters,
    /// Destroy a player from a node.
    Destroy,
    /// An update about a player's current track.
    PlayerUpdate,
    /// Meta information about a track starting or ending.
    Event,
    /// Updated statistics about a node.
    Stats,
}

impl Default for Opcode {
    fn default() -> (r: Self)
        ensures
            r == Opcode::Empty,
    {
        Opcode::Empty
    }
}

/// A binary64 number of the wire format, held by its bit pattern.
///
/// The library carries such numbers from a notification into the cached state
/// and from the caller into a command; it never computes with them.
#[derive(Clone, Copy, Debug, PartialEq, Eq, Structural)]
pub struct Real {
    /// The sign, exponent and fraction bits of the number.
    pub bits: u64,
}

impl Real {
    /// The number with the given bit pattern.
    pub fn from_bits(bits: u64) -> (r: Self)
        ensures
            r.bits == bits,
    {
        Real { bits }
    }

    /// The bit pattern of the number.
    pub fn to_bits(&self) -> (r: u64)
        ensures
            r == self.bits,
    {
        self.bits
    }

    /// Positive zero.
    pub fn zero() -> (r: Self)
        ensures
            r.bits == 0,
    {
        Real { bits: 0 }
    }
}

} // verus!
