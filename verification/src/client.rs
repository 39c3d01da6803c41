//! Client to manage nodes and players.

use crate::connection::ConnectionError;
use crate::model::{IncomingEvent, OutgoingEvent, Stats};
use crate::node::{Address, Node, NodeConfig, NodeView, Resume, SendError};
use crate::penalty::{penalty, penalty_of, PenaltyTerms, Snapshot};
use crate::player::{with_player, with_update, Player, PlayerManager, PlayerView};
use dashmap::DashMap;
use futures_channel::mpsc::UnboundedSender;
use vstd::prelude::*;

verus! {

/// An error that can occur while interacting with the client.
#[derive(Clone, Debug, PartialEq)]
pub enum ClientError {
    /// A node isn't configured, so the operation isn't possible to fulfill.
    NodesUnconfigured,
    /// Sending a voice update event to the node failed because the node's
    /// connection was shutdown.
    SendingVoiceUpdate {
        /// The source of the error.
        source: SendError,
    },
}

impl ClientError {
    /// The error that this one was caused by, if any: the failed send of a
    /// voice update.
    pub fn source(&self) -> (r: Option<&SendError>)
        ensures
            r == (match *self {
                ClientError::NodesUnconfigured => None,
                ClientError::SendingVoiceUpdate { source } => Some(&source),
            }),
    {
        match self {
            ClientError::NodesUnconfigured => None,
            ClientError::SendingVoiceUpdate { source } => Some(source),
        }
    }

    /// The error in words.
    pub fn message(&self) -> (r: &'static str)
        ensures
            self is NodesUnconfigured ==> r@ == "no node has been configured"@,
            self is SendingVoiceUpdate ==> r@ == "couldn't send voice update to node"@,
    {
        match self {
            ClientError::NodesUnconfigured => "no node has been configured",
            ClientError::SendingVoiceUpdate { .. } => "couldn't send voice update to node",
        }
    }
}

/// What the client keeps of a node: its handle and the latest statistics
/// that it reported, if any.
#[derive(Clone, Debug)]
pub struct NodeRecord {
    node: Node,
    snapshot: Option<Snapshot>,
}

/// What a node record is to the contracts.
pub struct NodeRecordView {
    pub node: NodeView,
    pub snapshot: Option<Snapshot>,
}

impl View for NodeRecord {
    type V = NodeRecordView;

    closed spec fn view(&self) -> NodeRecordView {
        NodeRecordView { node: self.node@, snapshot: self.snapshot }
    }
}

/// The node records that a map holds, by address.
pub uninterp spec fn node_entries(map: DashMap<(u128, u16), NodeRecord>) -> Map<
    (u128, u16),
    NodeRecordView,
>;

/// No node at all.
pub open spec fn no_nodes() -> Map<Address, NodeRecordView> {
    Map::empty()
}

/// Whether `listed` names every entry of `entries` with its record, and
/// nothing else.
pub open spec fn lists_all(
    entries: Map<Address, NodeRecordView>,
    listed: Seq<(Address, NodeRecord)>,
) -> bool {
    &&& forall|i: int|
        0 <= i < listed.len() ==> entries.contains_key((#[trigger] listed[i]).0) && entries[listed[i].0]
            == listed[i].1@
    &&& forall|a: Address| #[trigger]
        entries.contains_key(a) ==> exists|i: int| 0 <= i < listed.len() && (#[trigger] listed[i]).0 == a
}

/// Calls `DashMap::new`: a map that holds nothing.
#[verifier::external_body]
fn empty_node_map() -> (r: DashMap<Address, NodeRecord>)
    ensures
        node_entries(r) == no_nodes(),
{
    DashMap::new()
}

/// Calls `DashMap::insert`: `record` is stored under `address`, in place of
/// what was there. No other key is touched.
#[verifier::external_body]
fn store_node(map: &mut DashMap<Address, NodeRecord>, address: Address, record: NodeRecord)
    ensures
        node_entries(*final(map)) == node_entries(*old(map)).insert(address, record@),
{
    map.insert(address, record);
}

/// Calls `DashMap::remove`: the record stored under `address` leaves the map
/// and is returned, if there was one. No other key is touched.
#[verifier::external_body]
fn take_node(map: &mut DashMap<Address, NodeRecord>, address: Address) -> (r: Option<NodeRecord>)
    ensures
        node_entries(*final(map)) == node_entries(*old(map)).remove(address),
        r.is_some() == node_entries(*old(map)).contains_key(address),
        r matches Some(record) ==> record@ == node_entries(*old(map))[address],
{
    map.remove(&address).map(|entry| entry.1)
}

/// Calls `DashMap::get` and clones the record that the guard points to: a
/// copy of the record stored under `address`, if there is one.
#[verifier::external_body]
fn lookup_node(map: &DashMap<Address, NodeRecord>, address: Address) -> (r: Option<NodeRecord>)
    ensures
        r.is_some() == node_entries(*map).contains_key(address),
        r matches Some(record) ==> record@ == node_entries(*map)[address],
{
    map.get(&address).map(|entry| entry.value().clone())
}

/// Calls `DashMap::iter` and copies out what each step yields: every entry
/// of the map once, key and record, in the order in which the map happens to
/// be walked.
#[verifier::external_body]
fn list_nodes(map: &DashMap<Address, NodeRecord>) -> (r: Vec<(Address, NodeRecord)>)
    ensures
        lists_all(node_entries(*map), r@),
{
    map.iter().map(|entry| (*entry.key(), entry.value().clone())).collect()
}

/// The routes that a map holds: for each guild the address of its node.
pub uninterp spec fn route_entries(map: DashMap<u64, (u128, u16)>) -> Map<u64, (u128, u16)>;

/// No route at all.
pub open spec fn no_routes() -> Map<u64, Address> {
    Map::empty()
}

/// Calls `DashMap::new`: a map that holds nothing.
#[verifier::external_body]
fn empty_route_map() -> (r: DashMap<u64, Address>)
    ensures
        route_entries(r) == no_routes(),
{
    DashMap::new()
}

/// Calls `DashMap::insert`: `address` is stored under `guild`, in place of
/// what was there. No other key is touched.
#[verifier::external_body]
fn store_route(map: &mut DashMap<u64, Address>, guild: u64, address: Address)
    ensures
        route_entries(*final(map)) == route_entries(*old(map)).insert(guild, address),
{
    map.insert(guild, address);
}

/// Calls `DashMap::remove`: what is stored under `guild` leaves the map and
/// is returned, if there was anything. No other key is touched.
#[verifier::external_body]
fn take_route(map: &mut DashMap<u64, Address>, guild: u64) -> (r: Option<Address>)
    ensures
        route_entries(*final(map)) == route_entries(*old(map)).remove(guild),
        r == (if route_entries(*old(map)).contains_key(guild) {
            Some(route_entries(*old(map))[guild])
        } else {
            None
        }),
{
    map.remove(&guild).map(|entry| entry.1)
}

/// Calls `DashMap::get` and copies what the guard points to: the address
/// stored under `guild`, if there is one.
#[verifier::external_body]
fn lookup_route(map: &DashMap<u64, Address>, guild: u64) -> (r: Option<Address>)
    ensures
        r == (if route_entries(*map).contains_key(guild) {
            Some(route_entries(*map)[guild])
        } else {
            None
        }),
{
    map.get(&guild).map(|entry| *entry.value())
}

/// The routes that go with the given players: each guild that has a player
/// leads to the node that the player is bound to.
pub open spec fn routes_of(players: Map<u64, PlayerView>) -> Map<u64, Address> {
    Map::new(|guild: u64| players.contains_key(guild), |guild: u64| players[guild].node.address)
}

/// Whether the node at `address` is registered and no registered node has a
/// lower score.
pub open spec fn is_best(nodes: Map<Address, NodeRecordView>, address: Address) -> bool {
    &&& nodes.contains_key(address)
    &&& forall|other: Address| #[trigger]
        nodes.contains_key(other) ==> penalty_of(nodes[address].snapshot) <= penalty_of(
            nodes[other].snapshot,
        )
}

/// The nodes after the node at `address` reported `snapshot`: its record
/// holds the snapshot in place of the earlier one, every other record is as
/// before, and a report for an address that is not registered changes
/// nothing.
pub open spec fn with_snapshot(
    nodes: Map<Address, NodeRecordView>,
    address: Address,
    snapshot: Snapshot,
) -> Map<Address, NodeRecordView> {
    if nodes.contains_key(address) {
        nodes.insert(
            address,
            NodeRecordView { node: nodes[address].node, snapshot: Some(snapshot) },
        )
    } else {
        nodes
    }
}

/// The client that manages nodes and players and takes in what the nodes
/// report.
///
/// Players are retrieved with [`Lavalink::player`]. A player holds what is
/// known of the playback in a guild and sends commands to the node that the
/// guild is bound to.
#[derive(Debug)]
pub struct Lavalink {
    guilds: DashMap<u64, (u128, u16)>,
    nodes: DashMap<(u128, u16), NodeRecord>,
    players: PlayerManager,
    user_id: u64,
}

impl Lavalink {
    /// The registered nodes, by address.
    pub closed spec fn nodes(&self) -> Map<Address, NodeRecordView> {
        node_entries(self.nodes)
    }

    /// The node address that each guild is routed to.
    pub closed spec fn routes(&self) -> Map<u64, Address> {
        route_entries(self.guilds)
    }

    /// The player manager.
    pub closed spec fn manager(&self) -> PlayerManager {
        self.players
    }

    /// The identity of the caller, which every node is connected with.
    pub closed spec fn caller(&self) -> u64 {
        self.user_id
    }

    /// Every node is registered under its own address, every player under
    /// its own guild, and the routes are those of the players.
    pub open spec fn wf(&self) -> bool {
        &&& self.manager().wf()
        &&& self.routes() == routes_of(self.manager()@)
        &&& forall|a: Address| #[trigger]
            self.nodes().contains_key(a) ==> self.nodes()[a].node.address == a
    }

    /// Create a new client instance.
    ///
    /// The user ID is passed to every node that is added.
    pub fn new(user_id: u64) -> (r: Self)
        ensures
            r.wf(),
            r.nodes() == no_nodes(),
            r.manager()@ == crate::player::no_players(),
            r.caller() == user_id,
    {
        let client = Lavalink {
            guilds: empty_route_map(),
            nodes: empty_node_map(),
            players: PlayerManager::new(),
            user_id,
        };
        assert(client.routes() =~= routes_of(client.manager()@));
        client
    }

    /// The identity of the caller, which every node is connected with.
    pub fn user_id(&self) -> (r: u64)
        ensures
            r == self.caller(),
    {
        self.user_id
    }

    /// Add a new node to be managed by the client.
    ///
    /// If a node already exists with the provided address, then it will be
    /// replaced.
    pub fn add(
        &mut self,
        address: Address,
        authorization: String,
        sender: UnboundedSender<OutgoingEvent>,
    ) -> (r: Node)
        requires
            old(self).wf(),
        ensures
            final(self).wf(),
            r@ == (NodeView {
                address,
                authorization: authorization@,
                resume: None,
                user_id: old(self).caller(),
            }),
            final(self).nodes() == old(self).nodes().insert(
                address,
                NodeRecordView { node: r@, snapshot: None },
            ),
            final(self).manager() == old(self).manager(),
            final(self).caller() == old(self).caller(),
    {
        self.add_with_resume(address, authorization, None, sender)
    }

    /// Similar to [`Lavalink::add`], but allows you to specify resume
    /// capability.
    pub fn add_with_resume(
        &mut self,
        address: Address,
        authorization: String,
        resume: Option<Resume>,
        sender: UnboundedSender<OutgoingEvent>,
    ) -> (r: Node)
        requires
            old(self).wf(),
        ensures
            final(self).wf(),
            r@ == (NodeView {
                address,
                authorization: authorization@,
                resume,
                user_id: old(self).caller(),
            }),
            final(self).nodes() == old(self).nodes().insert(
                address,
                NodeRecordView { node: r@, snapshot: None },
            ),
            final(self).manager() == old(self).manager(),
            final(self).caller() == old(self).caller(),
    {
        let config = NodeConfig {
            ip: address.0,
            port: address.1,
            authorization,
            resume,
            user_id: self.user_id,
        };
        let node = Node::new(config, sender);
        let handle = node.duplicate();
        store_node(&mut self.nodes, address, NodeRecord { node, snapshot: None });
        handle
    }

    /// Register a node whose connection was attempted: `connected` holds
    /// the sending end of the node's outbound queue if the handshake
    /// succeeded and the error if it did not.
    ///
    /// # Errors
    ///
    /// Fails with the error of the handshake, and only then; nothing is
    /// registered or replaced in that case.
    pub fn add_connected(
        &mut self,
        address: Address,
        authorization: String,
        resume: Option<Resume>,
        connected: Result<UnboundedSender<OutgoingEvent>, ConnectionError>,
    ) -> (r: Result<Node, ConnectionError>)
        requires
            old(self).wf(),
        ensures
            final(self).wf(),
            final(self).manager() == old(self).manager(),
            final(self).caller() == old(self).caller(),
            r is Ok <==> connected is Ok,
            r matches Err(e) ==> connected.is_err() && connected.unwrap_err() == e && final(self).nodes() == old(self).nodes(),
            r matches Ok(node) ==> node@ == (NodeView {
                address,
                authorization: authorization@,
                resume,
                user_id: old(self).caller(),
            }) && final(self).nodes() == old(self).nodes().insert(
                address,
                NodeRecordView { node: node@, snapshot: None },
            ),
    {
        match connected {
            Ok(sender) => Ok(self.add_with_resume(address, authorization, resume, sender)),
            Err(e) => Err(e),
        }
    }

    /// Get a node with the address.
    pub fn get(&self, address: Address) -> (r: Option<Node>)
        ensures
            r.is_some() == self.nodes().contains_key(address),
            r matches Some(node) ==> node@ == self.nodes()[address].node,
    {
        match lookup_node(&self.nodes, address) {
            Some(record) => Some(record.node),
            None => None,
        }
    }

    /// The latest statistics that the node at the address reported, with the
    /// terms of its score.
    pub fn snapshot(&self, address: Address) -> (r: Option<Snapshot>)
        ensures
            r == if self.nodes().contains_key(address) {
                self.nodes()[address].snapshot
            } else {
                None
            },
    {
        match lookup_node(&self.nodes, address) {
            Some(record) => record.snapshot,
            None => None,
        }
    }

    /// The score of the node at the address, computed from the cached
    /// statistics: lower is better, and a node that has reported nothing
    /// yet has the worst score.
    pub fn penalty(&self, address: Address) -> (r: Option<i32>)
        ensures
            r.is_some() == self.nodes().contains_key(address),
            r matches Some(score) ==> score == penalty_of(self.nodes()[address].snapshot),
    {
        match lookup_node(&self.nodes, address) {
            Some(record) => Some(penalty(&record.snapshot)),
            None => None,
        }
    }

    /// Remove a node from the list of nodes being managed by the client.
    ///
    /// The node is returned if it existed. The players that are bound to it
    /// stay as they are.
    pub fn remove(&mut self, address: Address) -> (r: Option<(Address, Node)>)
        requires
            old(self).wf(),
        ensures
            final(self).wf(),
            final(self).nodes() == old(self).nodes().remove(address),
            final(self).manager() == old(self).manager(),
            final(self).caller() == old(self).caller(),
            r.is_some() == old(self).nodes().contains_key(address),
            r matches Some(entry) ==> entry.0 == address && entry.1@ == old(self).nodes()[address].node,
    {
        match take_node(&mut self.nodes, address) {
            Some(record) => Some((address, record.node)),
            None => None,
        }
    }

    /// Determine the "best" node for new players according to available
    /// nodes' penalty scores: a node whose score no other node undercuts.
    ///
    /// # Errors
    ///
    /// Returns [`ClientError::NodesUnconfigured`] if there are no configured
    /// nodes available in the client.
    pub fn best(&self) -> (r: Result<Node, ClientError>)
        requires
            self.wf(),
        ensures
            r is Ok <==> exists|a: Address| self.nodes().contains_key(a),
            r matches Ok(node) ==> is_best(self.nodes(), node@.address) && node@
                == self.nodes()[node@.address].node,
            r matches Err(e) ==> e is NodesUnconfigured && self.nodes() == no_nodes(),
    {
        let mut listed = list_nodes(&self.nodes);
        if listed.len() == 0 {
            assert forall|a: Address| !self.nodes().contains_key(a) by {
                if self.nodes().contains_key(a) {
                    let i = choose|i: int| 0 <= i < listed@.len() && (#[trigger] listed@[i]).0 == a;
                }
            }
            assert(self.nodes() =~= no_nodes());
            return Err(ClientError::NodesUnconfigured);
        }
        let mut lowest: i32 = penalty(&listed[0].1.snapshot);
        let mut best: usize = 0;
        let mut i: usize = 1;
        while i < listed.len()
            invariant
                1 <= i <= listed.len(),
                best < i,
                lowest == penalty_of(listed@[best as int].1@.snapshot),
                forall|j: int|
                    0 <= j < i ==> lowest <= penalty_of((#[trigger] listed@[j]).1@.snapshot),
            decreases listed.len() - i,
        {
            let score = penalty(&listed[i].1.snapshot);
            if score < lowest {
                lowest = score;
                best = i;
            }
            i = i + 1;
        }
        let ghost all = listed@;
        let found = listed.remove(best);
        proof {
            assert(found == all[best as int]);
            assert(self.nodes().contains_key(all[best as int].0));
            assert forall|other: Address| #[trigger]
                self.nodes().contains_key(other) implies penalty_of(found.1@.snapshot)
                <= penalty_of(self.nodes()[other].snapshot) by {
                let j = choose|j: int| 0 <= j < all.len() && (#[trigger] all[j]).0 == other;
                assert(self.nodes()[all[j].0] == all[j].1@);
            }
        }
        Ok(found.1.node)
    }

    /// Retrieve an immutable reference to the player manager.
    pub fn players(&self) -> (r: &PlayerManager)
        ensures
            *r == self.manager(),
    {
        &self.players
    }

    /// Retrieve a player for the guild.
    ///
    /// Creates a player configured to use the best available node if a player
    /// for the guild doesn't already exist. Use [`PlayerManager::get`] to only
    /// retrieve and not create.
    ///
    /// # Errors
    ///
    /// Returns [`ClientError::NodesUnconfigured`] if the guild has no player
    /// and no node has been configured via [`Lavalink::add`].
    pub fn player(&mut self, guild_id: u64) -> (r: Result<Player, ClientError>)
        requires
            old(self).wf(),
        ensures
            final(self).wf(),
            final(self).nodes() == old(self).nodes(),
            final(self).caller() == old(self).caller(),
            r is Ok <==> old(self).manager()@.contains_key(guild_id) || exists|a: Address|
                old(self).nodes().contains_key(a),
            r matches Err(e) ==> e is NodesUnconfigured && final(self).manager()@ == old(self).manager()@,
            r matches Ok(p) ==> final(self).manager()@.contains_key(guild_id) && p@ == final(self).manager()@[guild_id],
            old(self).manager()@.contains_key(guild_id) ==> final(self).manager()@ == old(self).manager()@,
            r matches Ok(p) ==> old(self).manager()@.contains_key(guild_id) || (is_best(
                old(self).nodes(),
                p@.node.address,
            ) && final(self).manager()@ == old(self).manager()@.insert(
                guild_id,
                PlayerView::fresh(guild_id, old(self).nodes()[p@.node.address].node),
            )),
    {
        match self.players.get(guild_id) {
            Some(player) => Ok(player),
            None => {
                match self.best() {
                    Ok(node) => {
                        let address = node.address();
                        let player = self.players.get_or_insert(guild_id, node);
                        store_route(&mut self.guilds, guild_id, address);
                        assert(self.routes() =~= routes_of(self.manager()@));
                        Ok(player)
                    },
                    Err(e) => Err(e),
                }
            },
        }
    }

    /// Remove the player of a guild, if it has one. The nodes stay as they
    /// are.
    pub fn remove_player(&mut self, guild_id: u64) -> (r: Option<(u64, Player)>)
        requires
            old(self).wf(),
        ensures
            final(self).wf(),
            final(self).nodes() == old(self).nodes(),
            final(self).caller() == old(self).caller(),
            final(self).manager()@ == old(self).manager()@.remove(guild_id),
            r.is_some() == old(self).manager()@.contains_key(guild_id),
            r matches Some(entry) ==> entry.0 == guild_id && entry.1@ == old(self).manager()@[guild_id],
    {
        let _ = take_route(&mut self.guilds, guild_id);
        let removed = self.players.remove(guild_id);
        assert(self.routes() =~= routes_of(self.manager()@));
        removed
    }

    /// The address of the node that a guild is routed to: the node that the
    /// guild's player is bound to, whether or not it is still registered.
    pub fn route(&self, guild_id: u64) -> (r: Option<Address>)
        requires
            self.wf(),
        ensures
            r == (if self.manager()@.contains_key(guild_id) {
                Some(self.manager()@[guild_id].node.address)
            } else {
                None
            }),
    {
        lookup_route(&self.guilds, guild_id)
    }

    /// Replace the cached statistics of the node at `address`. Returns
    /// whether a node is registered there.
    pub fn record_stats(&mut self, address: Address, stats: Stats, terms: PenaltyTerms) -> (found:
        bool)
        requires
            old(self).wf(),
        ensures
            final(self).wf(),
            found == old(self).nodes().contains_key(address),
            final(self).nodes() == with_snapshot(
                old(self).nodes(),
                address,
                Snapshot { stats, terms },
            ),
            final(self).manager() == old(self).manager(),
            final(self).caller() == old(self).caller(),
    {
        match take_node(&mut self.nodes, address) {
            Some(record) => {
                let updated = NodeRecord {
                    node: record.node,
                    snapshot: Some(Snapshot { stats, terms }),
                };
                store_node(&mut self.nodes, address, updated);
                assert(self.nodes() =~= with_snapshot(
                    old(self).nodes(),
                    address,
                    Snapshot { stats, terms },
                ));
                true
            },
            None => {
                assert(self.nodes() =~= old(self).nodes());
                false
            },
        }
    }

    /// Take in an event that the node at `address` sent.
    ///
    /// A player update changes the player of the guild that it names; new
    /// statistics replace the cached statistics of the node, together with
    /// `terms`, which are read for no other event; every other event changes
    /// nothing. Returns whether the event found what it is about.
    pub fn process(&mut self, address: Address, event: IncomingEvent, terms: PenaltyTerms) -> (handled:
        bool)
        requires
            old(self).wf(),
        ensures
            final(self).wf(),
            final(self).caller() == old(self).caller(),
            final(self).nodes() == (match event {
                IncomingEvent::Stats(stats) => with_snapshot(
                    old(self).nodes(),
                    address,
                    Snapshot { stats, terms },
                ),
                _ => old(self).nodes(),
            }),
            final(self).manager()@ == (match event {
                IncomingEvent::PlayerUpdate(update) => with_update(old(self).manager()@, update),
                _ => old(self).manager()@,
            }),
            handled == (match event {
                IncomingEvent::PlayerUpdate(update) => old(self).manager()@.contains_key(
                    update.guild_id,
                ),
                IncomingEvent::Stats(_) => old(self).nodes().contains_key(address),
                _ => true,
            }),
    {
        match event {
            IncomingEvent::PlayerUpdate(update) => {
                let found = self.players.update(update);
                assert(self.routes() =~= routes_of(self.manager()@));
                found
            },
            IncomingEvent::Stats(stats) => self.record_stats(address, stats, terms),
            _ => true,
        }
    }
}

/// A node that was removed is no longer a candidate for the best node, and
/// what is best among the others does not depend on it having been there.
pub proof fn removed_node_is_no_candidate(
    nodes: Map<Address, NodeRecordView>,
    removed: Address,
    chosen: Address,
)
    requires
        is_best(nodes.remove(removed), chosen),
    ensures
        chosen != removed,
        nodes.contains_key(chosen),
        !nodes.remove(removed).contains_key(removed),
{
}

/// Of two registered nodes with different scores, the one with the higher
/// score is not the best.
pub proof fn higher_score_is_not_best(
    nodes: Map<Address, NodeRecordView>,
    low: Address,
    high: Address,
)
    requires
        nodes.contains_key(low),
        nodes.contains_key(high),
        penalty_of(nodes[low].snapshot) < penalty_of(nodes[high].snapshot),
    ensures
        !is_best(nodes, high),
{
}

} // verus!
