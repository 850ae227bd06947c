//! The peer location table and the radio channel state of one node.
//!
//! The table holds at most one entry per peer id. Entries arrive from the
//! local position fix or from messages of other peers, and an entry is only
//! ever replaced by a strictly newer one for the same peer.
use vstd::prelude::*;
use crate::MAX_PEERS;
use crate::timers::ElapsedMs;

verus! {

/// Length of a network tag in bytes.
pub const NETWORK_HASH_LEN: usize = 16;

/// Shared tag of a deployment; messages that carry another one are discarded.
pub type NetworkHash = [u8; NETWORK_HASH_LEN];

/// The last reported position of one peer.
#[derive(Clone, Copy, Debug)]
pub struct PeerLocation {
    pub network_hash: NetworkHash,
    pub peer_id: usize,
    /// Seconds since the deployment's epoch.
    pub last_updated_at: u32,
    pub hue: u8,
    pub sat: u8,
    /// Latitude in degrees, as the bit pattern of an IEEE 754 single.
    pub lat: u32,
    /// Longitude in degrees, as the bit pattern of an IEEE 754 single.
    pub lon: u32,
}

/// A location update as it travels over the radio.
#[derive(Clone, Copy, Debug)]
pub struct Message {
    pub tx_peer_id: usize,
    pub tx_time: u32,
    pub tx_ms: u32,
    pub location: PeerLocation,
}

/// One slot of the peer table.
#[derive(Clone, Copy, Debug)]
pub struct PeerTableEntry {
    pub location: PeerLocation,
    /// The time segment in which the local node last broadcast this entry;
    /// `None` until it has been broadcast since it was last written.
    pub broadcast_slot: Option<usize>,
}

/// The peer table: one optional entry per peer id.
pub type PeerLocations = [Option<PeerTableEntry>; MAX_PEERS];

/// Why a message was not stored.
#[derive(Clone, Copy, Debug, PartialEq, Eq, Structural)]
pub enum Rejected {
    /// The message carries another deployment's tag.
    ForeignNetwork,
    /// The peer id does not index the table.
    PeerOutOfRange,
    /// The message describes the local node.
    SelfEcho,
    /// The table already holds data at least as new.
    Stale,
}

/// What became of a received message.
#[derive(Clone, Copy, Debug, PartialEq, Eq, Structural)]
pub enum MergeOutcome {
    Accepted,
    Rejected(Rejected),
}

/// The logical state of the radio.
#[derive(Clone, Copy, Debug, PartialEq, Eq, Structural)]
pub enum Mode {
    Sleep,
    Transmit,
    Receive,
}

/// Everything one node knows about itself and its peers.
pub struct NetworkData {
    pub my_peer_id: usize,
    pub my_hue: u8,
    pub my_saturation: u8,
    pub network_hash: NetworkHash,
    pub peer_locations: PeerLocations,
}

/// The mathematical model of [`NetworkData`].
pub struct NetworkView {
    pub my_peer_id: usize,
    pub my_hue: u8,
    pub my_saturation: u8,
    pub network_hash: Seq<u8>,
    pub peer_locations: Seq<Option<PeerTableEntry>>,
}

/// The entry a freshly arrived location is stored as.
pub open spec fn fresh_entry(location: PeerLocation) -> PeerTableEntry {
    PeerTableEntry { location, broadcast_slot: None }
}

/// The entries of `table` that are present, in the order of their peer ids.
pub open spec fn populated(table: Seq<Option<PeerTableEntry>>) -> Seq<PeerTableEntry>
    decreases table.len(),
{
    if table.len() == 0 {
        Seq::empty()
    } else {
        match table.last() {
            Some(entry) => populated(table.drop_last()).push(entry),
            None => populated(table.drop_last()),
        }
    }
}

impl NetworkView {
    /// The table has one slot per peer id, every entry sits in the slot of
    /// its own peer id and carries the local network tag.
    pub open spec fn wf(self) -> bool {
        &&& self.my_peer_id < MAX_PEERS
        &&& self.network_hash.len() == NETWORK_HASH_LEN
        &&& self.peer_locations.len() == MAX_PEERS
        &&& forall|i: int|
            0 <= i < MAX_PEERS ==> (#[trigger] self.peer_locations[i] matches Some(entry) ==> {
                &&& entry.location.peer_id == i
                &&& entry.location.network_hash@ == self.network_hash
            })
    }

    /// Whether `message` comes from this deployment and names another peer
    /// that the table has a slot for.
    pub open spec fn admits(self, message: Message) -> bool {
        &&& message.location.network_hash@ == self.network_hash
        &&& message.location.peer_id < MAX_PEERS
        &&& message.location.peer_id != self.my_peer_id
    }

    /// Whether the table holds data for the message's peer that is at least
    /// as new as the message.
    pub open spec fn is_stale(self, message: Message) -> bool {
        self.peer_locations[message.location.peer_id as int] matches Some(entry)
            && entry.location.last_updated_at >= message.location.last_updated_at
    }

    /// The answer that merging `message` gives.
    pub open spec fn merge_outcome(self, message: Message) -> MergeOutcome {
        if message.location.network_hash@ != self.network_hash {
            MergeOutcome::Rejected(Rejected::ForeignNetwork)
        } else if message.location.peer_id >= MAX_PEERS {
            MergeOutcome::Rejected(Rejected::PeerOutOfRange)
        } else if message.location.peer_id == self.my_peer_id {
            MergeOutcome::Rejected(Rejected::SelfEcho)
        } else if self.is_stale(message) {
            MergeOutcome::Rejected(Rejected::Stale)
        } else {
            MergeOutcome::Accepted
        }
    }

    /// The state after merging `message`.
    pub open spec fn merge(self, message: Message) -> NetworkView {
        if self.merge_outcome(message) == MergeOutcome::Accepted {
            NetworkView {
                peer_locations: self.peer_locations.update(
                    message.location.peer_id as int,
                    Some(fresh_entry(message.location)),
                ),
                ..self
            }
        } else {
            self
        }
    }

    /// The state after merging `messages` one after the other.
    pub open spec fn merge_all(self, messages: Seq<Message>) -> NetworkView
        decreases messages.len(),
    {
        if messages.len() == 0 {
            self
        } else {
            self.merge_all(messages.drop_last()).merge(messages.last())
        }
    }

    /// The local node's own location for a fix taken at `last_updated_at`.
    pub open spec fn own_location(self, network_hash: NetworkHash, last_updated_at: u32, lat: u32, lon: u32) -> PeerLocation {
        PeerLocation {
            network_hash,
            peer_id: self.my_peer_id,
            last_updated_at,
            hue: self.my_hue,
            sat: self.my_saturation,
            lat,
            lon,
        }
    }

    /// The local entry after a fix: a new entry where there was none, else
    /// the old one with time and position replaced. The entry counts as not
    /// yet broadcast when it is new or the position differs from the old one.
    pub open spec fn own_entry(self, network_hash: NetworkHash, last_updated_at: u32, lat: u32, lon: u32) -> PeerTableEntry {
        match self.peer_locations[self.my_peer_id as int] {
            Some(entry) => PeerTableEntry {
                location: PeerLocation { last_updated_at, lat, lon, ..entry.location },
                broadcast_slot: if entry.location.lat == lat && entry.location.lon == lon {
                    entry.broadcast_slot
                } else {
                    None
                },
            },
            None => fresh_entry(self.own_location(network_hash, last_updated_at, lat, lon)),
        }
    }

    /// The state after the local node has recorded a fix.
    pub open spec fn upsert_self(self, network_hash: NetworkHash, last_updated_at: u32, lat: u32, lon: u32) -> NetworkView {
        NetworkView {
            peer_locations: self.peer_locations.update(
                self.my_peer_id as int,
                Some(self.own_entry(network_hash, last_updated_at, lat, lon)),
            ),
            ..self
        }
    }

    /// Whether the entry of `peer_id` is due for broadcast in `slot`: it
    /// exists and has not been broadcast in this or a later slot.
    pub open spec fn due(self, slot: usize, peer_id: int) -> bool {
        self.peer_locations[peer_id] matches Some(entry) && (entry.broadcast_slot matches Some(sent)
            ==> sent < slot)
    }

    /// The state after the entry of `peer_id` has been broadcast in `slot`.
    pub open spec fn mark_broadcast(self, slot: usize, peer_id: int) -> NetworkView {
        NetworkView {
            peer_locations: self.peer_locations.update(
                peer_id,
                Some(
                    PeerTableEntry {
                        location: self.peer_locations[peer_id].unwrap().location,
                        broadcast_slot: Some(slot),
                    },
                ),
            ),
            ..self
        }
    }
}

impl View for NetworkData {
    type V = NetworkView;

    open spec fn view(&self) -> NetworkView {
        NetworkView {
            my_peer_id: self.my_peer_id,
            my_hue: self.my_hue,
            my_saturation: self.my_saturation,
            network_hash: self.network_hash@,
            peer_locations: self.peer_locations@,
        }
    }
}

/// Byte-wise equality of two network tags.
pub fn same_network(a: &NetworkHash, b: &NetworkHash) -> (same: bool)
    ensures
        same == (a@ == b@),
{
    let mut i: usize = 0;
    while i < NETWORK_HASH_LEN
        invariant
            i <= NETWORK_HASH_LEN,
            forall|j: int| 0 <= j < i ==> a@[j] == b@[j],
        decreases NETWORK_HASH_LEN - i,
    {
        if a[i] != b[i] {
            return false;
        }
        i += 1;
    }
    assert(a@ =~= b@);
    true
}

impl NetworkData {
    /// See [`NetworkView::wf`].
    pub open spec fn wf(&self) -> bool {
        self@.wf()
    }

    /// An empty table for the node `my_peer_id` of the deployment
    /// `network_hash`.
    pub fn new(network_hash: NetworkHash, my_peer_id: usize, my_hue: u8, my_saturation: u8) -> (data: Self)
        requires
            my_peer_id < MAX_PEERS,
        ensures
            data.wf(),
            data.my_peer_id == my_peer_id,
            data.my_hue == my_hue,
            data.my_saturation == my_saturation,
            data.network_hash == network_hash,
            forall|i: int| 0 <= i < MAX_PEERS ==> data.peer_locations@[i].is_none(),
    {
        NetworkData {
            my_peer_id,
            my_hue,
            my_saturation,
            network_hash,
            peer_locations: [None; MAX_PEERS],
        }
    }

    /// Creates or updates the local node's own entry from a position fix
    /// taken at `now_seconds`. An entry that exists keeps its colour and
    /// tag; it counts as not yet broadcast again once the position moved.
    pub fn upsert_self(&mut self, now_seconds: u32, lat: u32, lon: u32)
        requires
            old(self).wf(),
        ensures
            final(self).wf(),
            final(self)@ == old(self)@.upsert_self(old(self).network_hash, now_seconds, lat, lon),
    {
        let me = self.my_peer_id;
        let entry = match self.peer_locations[me] {
            Some(entry) => {
                let moved = entry.location.lat != lat || entry.location.lon != lon;
                PeerTableEntry {
                    location: PeerLocation {
                        network_hash: entry.location.network_hash,
                        peer_id: entry.location.peer_id,
                        last_updated_at: now_seconds,
                        hue: entry.location.hue,
                        sat: entry.location.sat,
                        lat,
                        lon,
                    },
                    broadcast_slot: if moved {
                        None
                    } else {
                        entry.broadcast_slot
                    },
                }
            },
            None => PeerTableEntry {
                location: PeerLocation {
                    network_hash: self.network_hash,
                    peer_id: me,
                    last_updated_at: now_seconds,
                    hue: self.my_hue,
                    sat: self.my_saturation,
                    lat,
                    lon,
                },
                broadcast_slot: None,
            },
        };
        self.peer_locations[me] = Some(entry);
    }

    /// Merges a message received from the radio under the freshness rule:
    /// it is stored when it comes from this deployment, names another peer
    /// of the table, and is strictly newer than what the table holds for
    /// that peer. Anything else leaves the table as it was.
    pub fn merge_remote(&mut self, message: &Message) -> (outcome: MergeOutcome)
        requires
            old(self).wf(),
        ensures
            final(self).wf(),
            outcome == old(self)@.merge_outcome(*message),
            final(self)@ == old(self)@.merge(*message),
            message.location.network_hash@ != old(self).network_hash@ ==> final(self)@ == old(self)@,
            message.location.peer_id == old(self).my_peer_id ==> final(self)@ == old(self)@,
            outcome != MergeOutcome::Accepted ==> final(self)@ == old(self)@,
    {
        let peer_id = message.location.peer_id;
        if !same_network(&self.network_hash, &message.location.network_hash) {
            return MergeOutcome::Rejected(Rejected::ForeignNetwork);
        }
        if peer_id >= MAX_PEERS {
            return MergeOutcome::Rejected(Rejected::PeerOutOfRange);
        }
        if peer_id == self.my_peer_id {
            return MergeOutcome::Rejected(Rejected::SelfEcho);
        }
        if let Some(old_entry) = self.peer_locations[peer_id] {
            if old_entry.location.last_updated_at >= message.location.last_updated_at {
                return MergeOutcome::Rejected(Rejected::Stale);
            }
        }
        self.peer_locations[peer_id] = Some(
            PeerTableEntry { location: message.location, broadcast_slot: None },
        );
        MergeOutcome::Accepted
    }

    /// The entry of `peer_id`, if the table has one.
    pub fn get(&self, peer_id: usize) -> (entry: Option<PeerTableEntry>)
        ensures
            entry == if peer_id < MAX_PEERS {
                self.peer_locations@[peer_id as int]
            } else {
                None
            },
    {
        if peer_id < MAX_PEERS {
            self.peer_locations[peer_id]
        } else {
            None
        }
    }

    /// The populated entries, ordered by peer id.
    pub fn iter(&self) -> (entries: Vec<PeerTableEntry>)
        ensures
            entries@ == populated(self.peer_locations@),
    {
        let mut entries: Vec<PeerTableEntry> = Vec::new();
        let mut i: usize = 0;
        while i < MAX_PEERS
            invariant
                i <= MAX_PEERS,
                entries@ == populated(self.peer_locations@.take(i as int)),
            decreases MAX_PEERS - i,
        {
            proof {
                let next = self.peer_locations@.take(i + 1);
                assert(next.drop_last() =~= self.peer_locations@.take(i as int));
                assert(next.last() == self.peer_locations@[i as int]);
            }
            if let Some(entry) = self.peer_locations[i] {
                entries.push(entry);
            }
            i += 1;
        }
        assert(self.peer_locations@.take(MAX_PEERS as int) =~= self.peer_locations@);
        entries
    }
}

/// The radio channel state of one node together with its peer table.
pub struct Network {
    pub current_mode: Mode,
    pub data: NetworkData,
}

impl Network {
    /// See [`NetworkView::wf`].
    pub open spec fn wf(&self) -> bool {
        self.data.wf()
    }

    /// The message that carries `location` from this node at `now` on the
    /// millisecond clock.
    pub open spec fn outgoing(&self, location: PeerLocation, now: u32) -> Message {
        Message { tx_peer_id: self.data.my_peer_id, tx_time: now, tx_ms: now, location }
    }

    /// Whether a call of `transmit` finds the channel free: no transmission
    /// was begun, or the one begun has completed.
    pub open spec fn channel_free(&self, transmit_complete: bool) -> bool {
        self.current_mode != Mode::Transmit || transmit_complete
    }

    /// Whether a transmit turn sends the entry of `peer_id`: the channel is
    /// free and the entry is due.
    pub open spec fn sends(&self, transmit_complete: bool, time_segment_id: usize, peer_id: int) -> bool {
        self.channel_free(transmit_complete) && self.data@.due(time_segment_id, peer_id)
    }

    /// The frame that a transmit turn hands to the radio, if any.
    pub open spec fn transmit_frame(
        &self,
        now: u32,
        transmit_complete: bool,
        time_segment_id: usize,
        peer_id: int,
    ) -> Option<Message> {
        if self.sends(transmit_complete, time_segment_id, peer_id) {
            Some(self.outgoing(self.data.peer_locations@[peer_id].unwrap().location, now))
        } else {
            None
        }
    }

    /// The table after a transmit turn.
    pub open spec fn transmit_data(&self, transmit_complete: bool, time_segment_id: usize, peer_id: int) -> NetworkView {
        if self.sends(transmit_complete, time_segment_id, peer_id) {
            self.data@.mark_broadcast(time_segment_id, peer_id)
        } else {
            self.data@
        }
    }

    /// The channel mode after a transmit turn: transmit mode once a frame
    /// has been handed out, else the mode as it was.
    pub open spec fn transmit_mode(&self, transmit_complete: bool, time_segment_id: usize, peer_id: int) -> Mode {
        if self.sends(transmit_complete, time_segment_id, peer_id) {
            Mode::Transmit
        } else {
            self.current_mode
        }
    }

    /// A node with an empty table and the radio asleep.
    pub fn new(network_hash: NetworkHash, my_peer_id: usize, my_hue: u8, my_saturation: u8) -> (network: Self)
        requires
            my_peer_id < MAX_PEERS,
        ensures
            network.wf(),
            network.current_mode == Mode::Sleep,
            network.data.my_peer_id == my_peer_id,
            network.data.my_hue == my_hue,
            network.data.my_saturation == my_saturation,
            network.data.network_hash == network_hash,
            forall|i: int| 0 <= i < MAX_PEERS ==> network.data.peer_locations@[i].is_none(),
    {
        Network {
            current_mode: Mode::Sleep,
            data: NetworkData::new(network_hash, my_peer_id, my_hue, my_saturation),
        }
    }

    /// Stores a decoded message under the rules of
    /// [`NetworkData::merge_remote`]. The radio state is not touched.
    pub fn save_message(&mut self, message: Message)
        requires
            old(self).wf(),
        ensures
            final(self).wf(),
            final(self).current_mode == old(self).current_mode,
            final(self).data@ == old(self).data@.merge(message),
    {
        let _ = self.data.merge_remote(&message);
    }

    /// Records the local node's own position; see
    /// [`NetworkData::upsert_self`].
    pub fn save_my_location(&mut self, last_updated_at: u32, lat: u32, lon: u32)
        requires
            old(self).wf(),
        ensures
            final(self).wf(),
            final(self).current_mode == old(self).current_mode,
            final(self).data@ == old(self).data@.upsert_self(
                old(self).data.network_hash,
                last_updated_at,
                lat,
                lon,
            ),
    {
        self.data.upsert_self(last_updated_at, lat, lon);
    }

    /// Decides a transmit turn in the time segment `time_segment_id`, in
    /// which the entry of `peer_id` is to be sent. `transmit_complete` is
    /// what the radio answers when asked whether the last transmission has
    /// ended; it is only looked at while the channel is in transmit mode.
    ///
    /// While an earlier transmission is pending nothing changes and nothing
    /// is sent. Otherwise the entry is sent exactly when it is due: the
    /// frame is handed out, the entry is marked as broadcast in this
    /// segment, and the channel is in transmit mode afterwards.
    pub fn transmit(
        &mut self,
        elapsed_ms: &ElapsedMs,
        transmit_complete: bool,
        time_segment_id: usize,
        peer_id: usize,
    ) -> (frame: Option<Message>)
        requires
            old(self).wf(),
            peer_id < MAX_PEERS,
        ensures
            final(self).wf(),
            frame == old(self).transmit_frame(
                elapsed_ms@,
                transmit_complete,
                time_segment_id,
                peer_id as int,
            ),
            final(self).data@ == old(self).transmit_data(
                transmit_complete,
                time_segment_id,
                peer_id as int,
            ),
            final(self).current_mode == old(self).transmit_mode(
                transmit_complete,
                time_segment_id,
                peer_id as int,
            ),
    {
        if self.current_mode == Mode::Transmit && !transmit_complete {
            return None;
        }
        match self.data.peer_locations[peer_id] {
            Some(entry) => {
                let already_sent = match entry.broadcast_slot {
                    Some(sent) => sent >= time_segment_id,
                    None => false,
                };
                if already_sent {
                    return None;
                }
                self.current_mode = Mode::Transmit;
                self.data.peer_locations[peer_id] = Some(
                    PeerTableEntry { location: entry.location, broadcast_slot: Some(time_segment_id) },
                );
                let now = elapsed_ms.now();
                Some(
                    Message {
                        tx_peer_id: self.data.my_peer_id,
                        tx_time: now,
                        tx_ms: now,
                        location: entry.location,
                    },
                )
            },
            None => None,
        }
    }

    /// Enters receive mode. The answer says whether the radio has to be
    /// switched to listening, which is the case unless it listens already.
    pub fn try_receive(&mut self) -> (start_receive: bool)
        ensures
            start_receive == (old(self).current_mode != Mode::Receive),
            final(self).current_mode == Mode::Receive,
            final(self).data == old(self).data,
    {
        let start_receive = self.current_mode != Mode::Receive;
        self.current_mode = Mode::Receive;
        start_receive
    }

    /// Enters sleep mode. The answer says whether the radio has to be
    /// powered down, which is the case unless it sleeps already.
    pub fn sleep(&mut self) -> (power_down: bool)
        ensures
            power_down == (old(self).current_mode != Mode::Sleep),
            final(self).current_mode == Mode::Sleep,
            final(self).data == old(self).data,
    {
        let power_down = self.current_mode != Mode::Sleep;
        self.current_mode = Mode::Sleep;
        power_down
    }
}

/// Merging a message keeps the table well formed and leaves the node's own
/// identity as it was.
pub proof fn lemma_merge_keeps_wf(table: NetworkView, message: Message)
    requires
        table.wf(),
    ensures
        table.merge(message).wf(),
        table.merge(message).my_peer_id == table.my_peer_id,
        table.merge(message).network_hash == table.network_hash,
{
}

/// A message that carries another deployment's tag changes nothing,
/// whatever else it holds.
pub proof fn lemma_foreign_network_rejected(table: NetworkView, message: Message)
    requires
        message.location.network_hash@ != table.network_hash,
    ensures
        table.merge(message) == table,
        table.merge_outcome(message) == MergeOutcome::Rejected(Rejected::ForeignNetwork),
{
}

/// A message about the local node itself changes nothing.
pub proof fn lemma_self_echo_rejected(table: NetworkView, message: Message)
    requires
        message.location.peer_id == table.my_peer_id,
    ensures
        table.merge(message) == table,
{
}

/// No entry is ever evicted: a peer that the table knows stays known
/// through a merge, through a fix of the local node and through a
/// broadcast, and stays in the slot of its own id.
pub proof fn lemma_entries_stay(
    table: NetworkView,
    message: Message,
    network_hash: NetworkHash,
    last_updated_at: u32,
    lat: u32,
    lon: u32,
    slot: usize,
    broadcast: int,
    peer: int,
)
    requires
        table.wf(),
        network_hash@ == table.network_hash,
        0 <= peer < MAX_PEERS,
        0 <= broadcast < MAX_PEERS,
        table.peer_locations[broadcast].is_some(),
        table.peer_locations[peer].is_some(),
    ensures
        table.merge(message).peer_locations[peer].is_some(),
        table.upsert_self(network_hash, last_updated_at, lat, lon).peer_locations[peer].is_some(),
        table.upsert_self(network_hash, last_updated_at, lat, lon).wf(),
        table.mark_broadcast(slot, broadcast).peer_locations[peer].is_some(),
        table.mark_broadcast(slot, broadcast).wf(),
{
}

/// Freshness over any sequence of merges, for every peer: the stored
/// timestamp never decreases; it is at least that of every message for the
/// peer that the table admits; and what is stored is either what was there
/// before or the location of one of those messages.
pub proof fn lemma_freshness_monotone(table: NetworkView, messages: Seq<Message>, peer: int)
    requires
        table.wf(),
        0 <= peer < MAX_PEERS,
    ensures
        table.merge_all(messages).wf(),
        table.merge_all(messages).my_peer_id == table.my_peer_id,
        table.merge_all(messages).network_hash == table.network_hash,
        table.peer_locations[peer] matches Some(before) ==> (table.merge_all(
            messages,
        ).peer_locations[peer] matches Some(after) && after.location.last_updated_at
            >= before.location.last_updated_at),
        forall|k: int|
            0 <= k < messages.len() && table.admits(#[trigger] messages[k])
                && messages[k].location.peer_id == peer ==> (table.merge_all(
                messages,
            ).peer_locations[peer] matches Some(after) && after.location.last_updated_at
                >= messages[k].location.last_updated_at),
        table.merge_all(messages).peer_locations[peer] == table.peer_locations[peer] || exists|
            k: int,
        |
            0 <= k < messages.len() && table.admits(#[trigger] messages[k])
                && messages[k].location.peer_id == peer && table.merge_all(
                messages,
            ).peer_locations[peer] == Some(fresh_entry(messages[k].location)),
    decreases messages.len(),
{
    if messages.len() > 0 {
        let earlier = messages.drop_last();
        let last = messages.last();
        let mid = table.merge_all(earlier);
        lemma_freshness_monotone(table, earlier, peer);
        lemma_merge_keeps_wf(mid, last);
        assert(forall|k: int| 0 <= k < earlier.len() ==> earlier[k] == messages[k]);
        assert(messages[messages.len() - 1] == last);
        let after = mid.merge(last);
        assert(mid.admits(last) == table.admits(last));
        if after.peer_locations[peer] != mid.peer_locations[peer] {
            assert(table.admits(messages[messages.len() - 1]));
        } else if mid.peer_locations[peer] != table.peer_locations[peer] {
            let k = choose|k: int|
                0 <= k < earlier.len() && table.admits(#[trigger] earlier[k])
                    && earlier[k].location.peer_id == peer && mid.peer_locations[peer] == Some(
                    fresh_entry(earlier[k].location),
                );
            assert(table.admits(messages[k]));
        }
    }
}

} // verus!
