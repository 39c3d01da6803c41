//! Players: the cached playback state of each guild and the way to send
//! commands to the node that the guild is bound to.
//!
//! The [`PlayerManager`] holds at most one [`Player`] per guild. A player is
//! bound to one node when it is created and keeps that binding until it is
//! removed.

use crate::model::{FiltersState, FiltersStateView, OutgoingEvent, PlayerUpdate, PlayerUpdateState};
use crate::node::{Node, NodeView, SendError};
use dashmap::DashMap;
use vstd::prelude::*;
use vstd::std_specs::convert::IntoSpec;

verus! {

/// The concurrent hash map of the `dashmap` crate. Nothing inside it is
/// visible to the proofs; what it holds goes by a name for each kind of map,
/// such as [`player_entries`].
///
/// Every map of this library is a private field, and what changes a map
/// takes it by `&mut`: while such a call runs, nothing else reaches the map,
/// so what the map holds afterwards is what the call made of it.
#[verifier::external_type_specification]
#[verifier::external_body]
#[verifier::reject_recursive_types(K)]
#[verifier::reject_recursive_types(V)]
#[verifier::reject_recursive_types(S)]
pub struct ExDashMap<K, V, S>(DashMap<K, V, S>);

/// What a player is to the contracts.
pub struct PlayerView {
    pub guild_id: u64,
    pub node: NodeView,
    pub time: i64,
    pub position: Option<i64>,
    pub paused: bool,
    pub volume: i64,
    pub filters: FiltersStateView,
}

impl PlayerView {
    /// The player of `guild_id` on `node` before any update arrived.
    pub open spec fn fresh(guild_id: u64, node: NodeView) -> PlayerView {
        PlayerView {
            guild_id,
            node,
            time: 0,
            position: None,
            paused: false,
            volume: 0,
            filters: FiltersStateView::initial(),
        }
    }

    /// The player after an update with `state`: the playback fields are the
    /// state's, the guild and the node are kept.
    pub open spec fn updated(self, state: PlayerUpdateState) -> PlayerView {
        PlayerView {
            guild_id: self.guild_id,
            node: self.node,
            time: state.time,
            position: Some(state.position),
            paused: state.paused,
            volume: state.volume,
            filters: state.filters@,
        }
    }
}

/// A player for a guild connected to a node.
///
/// This can be used to send events over a node and to read the details of a
/// player for a guild.
#[derive(Clone, Debug)]
pub struct Player {
    guild_id: u64,
    node: Node,
    time: i64,
    position: Option<i64>,
    paused: bool,
    volume: i64,
    filters: FiltersState,
}

impl View for Player {
    type V = PlayerView;

    closed spec fn view(&self) -> PlayerView {
        PlayerView {
            guild_id: self.guild_id,
            node: self.node@,
            time: self.time,
            position: self.position,
            paused: self.paused,
            volume: self.volume,
            filters: self.filters@,
        }
    }
}

impl Player {
    /// A player of `guild_id` bound to `node`, with nothing heard yet.
    pub fn new(guild_id: u64, node: Node) -> (r: Self)
        ensures
            r@ == PlayerView::fresh(guild_id, node@),
    {
        Player {
            guild_id,
            node,
            time: 0,
            position: None,
            paused: false,
            volume: 0,
            filters: FiltersState::new(),
        }
    }

    /// Take over the playback state that the node reported.
    pub fn update(&mut self, state: PlayerUpdateState)
        ensures
            final(self)@ == old(self)@.updated(state),
    {
        self.time = state.time;
        self.position = Some(state.position);
        self.paused = state.paused;
        self.volume = state.volume;
        self.filters = state.filters;
    }

    /// Send an event to the player's node.
    ///
    /// Fails if the node's outbound queue is no longer drained; the error
    /// carries the event. Nothing is retried.
    pub fn send<E: Into<OutgoingEvent>>(&self, event: E) -> (r: Result<(), SendError>)
        ensures
            E::obeys_into_spec() ==> (r matches Err(e) ==> e.event == event.into_spec()),
    {
        self.forward(event.into())
    }

    /// Hand a command to the player's node as it is.
    pub fn forward(&self, event: OutgoingEvent) -> (r: Result<(), SendError>)
        ensures
            r matches Err(e) ==> e.event == event,
    {
        self.node.send(event)
    }

    /// Return an immutable reference to the node linked to the player.
    pub fn node(&self) -> (r: &Node)
        ensures
            r@ == self@.node,
    {
        &self.node
    }

    /// Return a copy of the player's guild ID.
    pub fn guild_id(&self) -> (r: u64)
        ensures
            r == self@.guild_id,
    {
        self.guild_id
    }

    /// Return a copy of the player's time.
    pub fn time(&self) -> (r: i64)
        ensures
            r == self@.time,
    {
        self.time
    }

    /// Return a copy of the player's position.
    pub fn position(&self) -> (r: Option<i64>)
        ensures
            r == self@.position,
    {
        self.position
    }

    /// Return a copy of whether the player is paused.
    pub fn paused(&self) -> (r: bool)
        ensures
            r == self@.paused,
    {
        self.paused
    }

    /// Return a copy of the player's volume.
    pub fn volume(&self) -> (r: i64)
        ensures
            r == self@.volume,
    {
        self.volume
    }

    /// Return a copy of the player's filters.
    pub fn filters(&self) -> (r: FiltersState)
        ensures
            r@ == self@.filters,
    {
        self.filters.duplicate()
    }
}

/// The players that a map holds, by guild.
pub uninterp spec fn player_entries(map: DashMap<u64, Player>) -> Map<u64, PlayerView>;

/// No player at all.
pub open spec fn no_players() -> Map<u64, PlayerView> {
    Map::empty()
}

/// Calls `DashMap::new`: a map that holds nothing.
#[verifier::external_body]
fn empty_player_map() -> (r: DashMap<u64, Player>)
    ensures
        player_entries(r) == no_players(),
{
    DashMap::new()
}

/// Calls `DashMap::get` and clones the player that the guard points to: a
/// copy of the player stored under `guild`, if there is one.
#[verifier::external_body]
fn lookup_player(map: &DashMap<u64, Player>, guild: u64) -> (r: Option<Player>)
    ensures
        r.is_some() == player_entries(*map).contains_key(guild),
        r matches Some(p) ==> p@ == player_entries(*map)[guild],
{
    map.get(&guild).map(|entry| entry.value().clone())
}

/// Calls `DashMap::entry` and `Entry::or_insert`: where the map holds nothing
/// under `guild`, `player` is stored there; where it holds a player, that one
/// stays and `player` is dropped. No other key is touched.
#[verifier::external_body]
fn insert_player_if_absent(map: &mut DashMap<u64, Player>, guild: u64, player: Player)
    ensures
        player_entries(*final(map)) == if player_entries(*old(map)).contains_key(guild) {
            player_entries(*old(map))
        } else {
            player_entries(*old(map)).insert(guild, player@)
        },
{
    map.entry(guild).or_insert(player);
}

/// Calls `DashMap::insert`: `player` is stored under `guild`, in place of
/// what was there. No other key is touched.
#[verifier::external_body]
fn store_player(map: &mut DashMap<u64, Player>, guild: u64, player: Player)
    ensures
        player_entries(*final(map)) == player_entries(*old(map)).insert(guild, player@),
{
    map.insert(guild, player);
}

/// Calls `DashMap::remove`: the player stored under `guild` leaves the map
/// and is returned, if there was one. No other key is touched.
#[verifier::external_body]
fn take_player(map: &mut DashMap<u64, Player>, guild: u64) -> (r: Option<Player>)
    ensures
        player_entries(*final(map)) == player_entries(*old(map)).remove(guild),
        r.is_some() == player_entries(*old(map)).contains_key(guild),
        r matches Some(p) ==> p@ == player_entries(*old(map))[guild],
{
    map.remove(&guild).map(|entry| entry.1)
}

/// Retrieve and create players for guilds.
///
/// The player manager contains all of the players for all guilds over all
/// nodes, and can be used to read player information and send events to nodes.
///
/// Reading takes `&self` and changing takes `&mut self`. Callers that share
/// a manager between threads put it behind a lock; whatever order the lock
/// grants, each guild has at most one player.
#[derive(Debug)]
pub struct PlayerManager {
    players: DashMap<u64, Player>,
}

impl View for PlayerManager {
    type V = Map<u64, PlayerView>;

    closed spec fn view(&self) -> Map<u64, PlayerView> {
        player_entries(self.players)
    }
}

/// The players after a guild asked for its player on `node`: an existing
/// player stays as it is, and only a guild without one gets a fresh one.
pub open spec fn with_player(players: Map<u64, PlayerView>, guild: u64, node: NodeView) -> Map<
    u64,
    PlayerView,
> {
    if players.contains_key(guild) {
        players
    } else {
        players.insert(guild, PlayerView::fresh(guild, node))
    }
}

/// The players after a player update was taken in: the addressed guild's
/// player has the reported state, every other player is as before, and an
/// update for a guild without a player changes nothing.
pub open spec fn with_update(players: Map<u64, PlayerView>, update: PlayerUpdate) -> Map<
    u64,
    PlayerView,
> {
    if players.contains_key(update.guild_id) {
        players.insert(update.guild_id, players[update.guild_id].updated(update.state))
    } else {
        players
    }
}

/// The players after each of `nodes` in turn was offered for `guild`.
pub open spec fn with_player_by_each(
    players: Map<u64, PlayerView>,
    guild: u64,
    nodes: Seq<NodeView>,
) -> Map<u64, PlayerView>
    decreases nodes.len(),
{
    if nodes.len() == 0 {
        players
    } else {
        with_player(with_player_by_each(players, guild, nodes.drop_last()), guild, nodes.last())
    }
}

impl PlayerManager {
    /// Every player is stored under its own guild.
    pub open spec fn wf(&self) -> bool {
        forall|guild: u64| #[trigger]
            self@.contains_key(guild) ==> self@[guild].guild_id == guild
    }

    /// Create a new player manager.
    pub fn new() -> (r: Self)
        ensures
            r@ == no_players(),
            r.wf(),
    {
        PlayerManager { players: empty_player_map() }
    }

    /// Return a copy of a player by guild ID, as it is now.
    pub fn get(&self, guild_id: u64) -> (r: Option<Player>)
        ensures
            r.is_some() == self@.contains_key(guild_id),
            r matches Some(p) ==> p@ == self@[guild_id],
    {
        lookup_player(&self.players, guild_id)
    }

    /// Return the player of a guild, after inserting a new player linked to
    /// the given node if the guild has none.
    pub fn get_or_insert(&mut self, guild_id: u64, node: Node) -> (r: Player)
        requires
            old(self).wf(),
        ensures
            final(self).wf(),
            final(self)@ == with_player(old(self)@, guild_id, node@),
            r@ == final(self)@[guild_id],
            final(self)@.contains_key(guild_id),
    {
        let fresh = Player::new(guild_id, node);
        insert_player_if_absent(&mut self.players, guild_id, fresh);
        match lookup_player(&self.players, guild_id) {
            Some(player) => player,
            None => vstd::pervasive::unreached(),
        }
    }

    /// Remove a player by guild ID.
    pub fn remove(&mut self, guild_id: u64) -> (r: Option<(u64, Player)>)
        requires
            old(self).wf(),
        ensures
            final(self).wf(),
            final(self)@ == old(self)@.remove(guild_id),
            r.is_some() == old(self)@.contains_key(guild_id),
            r matches Some(entry) ==> entry.0 == guild_id && entry.1@ == old(self)@[guild_id],
    {
        match take_player(&mut self.players, guild_id) {
            Some(player) => Some((guild_id, player)),
            None => None,
        }
    }

    /// Take a player update in: the player of the guild that it names gets
    /// the reported state. Returns whether that guild has a player.
    pub fn update(&mut self, update: PlayerUpdate) -> (found: bool)
        requires
            old(self).wf(),
        ensures
            final(self).wf(),
            found == old(self)@.contains_key(update.guild_id),
            final(self)@ == with_update(old(self)@, update),
    {
        let guild = update.guild_id;
        match take_player(&mut self.players, guild) {
            Some(mut player) => {
                player.update(update.state);
                store_player(&mut self.players, guild, player);
                assert(self@ =~= with_update(old(self)@, update));
                true
            },
            None => {
                assert(self@ =~= old(self)@);
                false
            },
        }
    }
}

/// However many callers ask for the player of one guild, each with a node
/// of its own, the guild ends up with one player, which all of them get: the
/// one that was there before, or else the one created for the first caller.
pub proof fn one_player_for_all_callers(
    players: Map<u64, PlayerView>,
    guild: u64,
    nodes: Seq<NodeView>,
)
    requires
        nodes.len() > 0,
    ensures
        with_player_by_each(players, guild, nodes) == with_player(players, guild, nodes[0]),
        with_player_by_each(players, guild, nodes).contains_key(guild),
        with_player_by_each(players, guild, nodes).dom() =~= players.dom().insert(guild),
    decreases nodes.len(),
{
    if nodes.len() == 1 {
        assert(nodes.drop_last().len() == 0);
        assert(with_player_by_each(players, guild, nodes.drop_last()) == players);
        assert(nodes.last() == nodes[0]);
    } else {
        one_player_for_all_callers(players, guild, nodes.drop_last());
        assert(nodes.drop_last()[0] == nodes[0]);
    }
}

/// A player update leaves every guild but the one that it names as it was,
/// creates no player and removes none.
pub proof fn update_touches_one_guild(players: Map<u64, PlayerView>, update: PlayerUpdate)
    ensures
        with_update(players, update).dom() =~= players.dom(),
        forall|other: u64|
            other != update.guild_id && players.contains_key(other) ==> #[trigger] with_update(
                players,
                update,
            )[other] == players[other],
        players.contains_key(update.guild_id) ==> with_update(players, update)[update.guild_id]
            == players[update.guild_id].updated(update.state),
{
}

} // verus!
