//! Time-division access to the shared radio channel.
//!
//! Epoch time is cut into segments of equal length. Every node computes
//! from the time alone which peer may broadcast in the current segment and
//! whose entry it broadcasts, so that nodes with aligned clocks never
//! transmit at once.
use vstd::prelude::*;
use crate::MAX_PEERS;
use crate::network::{Message, Mode, Network};
use crate::timers::ElapsedMs;

verus! {

/// Length of one time segment in seconds.
pub const TIME_SEGMENT_S: usize = 2;

/// Number of time segments in one cycle: one for each pair of a
/// broadcasting peer and a peer whose entry is broadcast.
pub const NUM_TIME_SEGMENTS: usize = MAX_PEERS * MAX_PEERS;

/// What the schedule asks of a node in one tick.
#[derive(Clone, Copy, Debug, PartialEq, Eq, Structural)]
pub enum Turn {
    /// No epoch time is known: the radio stays asleep.
    Sleep,
    /// The segment is the local node's: it broadcasts the entry of `peer_id`.
    Transmit { time_segment_id: usize, peer_id: usize },
    /// The segment is another node's: the local node listens.
    Listen,
}

/// What the driver of the radio has to do after a tick.
#[derive(Clone, Copy, Debug)]
pub enum RadioCommand {
    /// Leave the radio as it is.
    Idle,
    /// Power the radio down.
    Sleep,
    /// Begin to transmit the message.
    Transmit(Message),
    /// Switch the radio to listening if `start_receive` is set, then poll it
    /// for a received frame.
    Listen { start_receive: bool },
}

/// The time segment that the epoch second `epoch_seconds` falls into.
pub open spec fn spec_time_segment_id(epoch_seconds: u32) -> int {
    (epoch_seconds as int / TIME_SEGMENT_S as int) % (NUM_TIME_SEGMENTS as int)
}

/// The peer that alone may transmit in `time_segment_id`.
pub open spec fn spec_broadcasting_peer_id(time_segment_id: int) -> int {
    time_segment_id / MAX_PEERS as int
}

/// The peer whose entry is transmitted in `time_segment_id`.
pub open spec fn spec_broadcasted_peer_id(time_segment_id: int) -> int {
    time_segment_id % MAX_PEERS as int
}

/// The turn of the node `my_peer_id` at `epoch_seconds`.
pub open spec fn spec_turn(epoch_seconds: Option<u32>, my_peer_id: usize) -> Turn {
    match epoch_seconds {
        None => Turn::Sleep,
        Some(t) => {
            let id = spec_time_segment_id(t);
            if spec_broadcasting_peer_id(id) == my_peer_id {
                Turn::Transmit {
                    time_segment_id: id as usize,
                    peer_id: spec_broadcasted_peer_id(id) as usize,
                }
            } else {
                Turn::Listen
            }
        },
    }
}

/// The time segment that the epoch second `epoch_seconds` falls into.
pub fn time_segment_id(epoch_seconds: u32) -> (id: usize)
    ensures
        id == spec_time_segment_id(epoch_seconds),
        id < NUM_TIME_SEGMENTS,
{
    (epoch_seconds as usize / TIME_SEGMENT_S) % NUM_TIME_SEGMENTS
}

/// The peer that alone may transmit in `time_segment_id`.
pub fn broadcasting_peer_id(time_segment_id: usize) -> (peer_id: usize)
    ensures
        peer_id == spec_broadcasting_peer_id(time_segment_id as int),
        time_segment_id < NUM_TIME_SEGMENTS ==> peer_id < MAX_PEERS,
{
    time_segment_id / MAX_PEERS
}

/// The peer whose entry is transmitted in `time_segment_id`.
pub fn broadcasted_peer_id(time_segment_id: usize) -> (peer_id: usize)
    ensures
        peer_id == spec_broadcasted_peer_id(time_segment_id as int),
        peer_id < MAX_PEERS,
{
    time_segment_id % MAX_PEERS
}

/// Decides what the node `my_peer_id` does at `epoch_seconds`, which is
/// `None` as long as no time fix is known. Without the time the node
/// sleeps: it never guesses a segment.
pub fn turn(epoch_seconds: Option<u32>, my_peer_id: usize) -> (turn: Turn)
    ensures
        turn == spec_turn(epoch_seconds, my_peer_id),
        epoch_seconds.is_none() ==> turn == Turn::Sleep,
        turn matches Turn::Transmit { time_segment_id, peer_id } ==> time_segment_id
            < NUM_TIME_SEGMENTS && peer_id < MAX_PEERS,
{
    match epoch_seconds {
        None => Turn::Sleep,
        Some(t) => {
            let id = time_segment_id(t);
            if broadcasting_peer_id(id) == my_peer_id {
                Turn::Transmit { time_segment_id: id, peer_id: broadcasted_peer_id(id) }
            } else {
                Turn::Listen
            }
        },
    }
}

/// The command that a tick gives to the radio driver.
pub open spec fn spec_tick_command(
    network: Network,
    now: u32,
    epoch_seconds: Option<u32>,
    transmit_complete: bool,
) -> RadioCommand {
    match spec_turn(epoch_seconds, network.data.my_peer_id) {
        Turn::Sleep => if network.current_mode != Mode::Sleep {
            RadioCommand::Sleep
        } else {
            RadioCommand::Idle
        },
        Turn::Transmit { time_segment_id, peer_id } => match network.transmit_frame(
            now,
            transmit_complete,
            time_segment_id,
            peer_id as int,
        ) {
            Some(message) => RadioCommand::Transmit(message),
            None => RadioCommand::Idle,
        },
        Turn::Listen => RadioCommand::Listen {
            start_receive: network.current_mode != Mode::Receive,
        },
    }
}

/// One tick of the scheduler: takes the node's turn and moves the channel
/// state accordingly. `transmit_complete` is the radio's answer to whether
/// the last transmission has ended. The result tells the driver what to do
/// with the radio; a frame that the driver receives while listening goes to
/// [`Network::save_message`].
///
/// Without epoch time the result is never a transmission.
pub fn tick(
    network: &mut Network,
    elapsed_ms: &ElapsedMs,
    epoch_seconds: Option<u32>,
    transmit_complete: bool,
) -> (command: RadioCommand)
    requires
        old(network).wf(),
    ensures
        final(network).wf(),
        command == spec_tick_command(*old(network), elapsed_ms@, epoch_seconds, transmit_complete),
        epoch_seconds.is_none() ==> !(command is Transmit) && final(network).data@ == old(network).data@,
        match spec_turn(epoch_seconds, old(network).data.my_peer_id) {
            Turn::Sleep => final(network).current_mode == Mode::Sleep && final(network).data@
                == old(network).data@,
            Turn::Transmit { time_segment_id, peer_id } => final(network).current_mode == old(network).transmit_mode(transmit_complete, time_segment_id, peer_id as int) && final(network).data@ == old(network).transmit_data(transmit_complete, time_segment_id, peer_id as int),
            Turn::Listen => final(network).current_mode == Mode::Receive && final(network).data@
                == old(network).data@,
        },
{
    match turn(epoch_seconds, network.data.my_peer_id) {
        Turn::Sleep => {
            if network.sleep() {
                RadioCommand::Sleep
            } else {
                RadioCommand::Idle
            }
        },
        Turn::Transmit { time_segment_id, peer_id } => {
            match network.transmit(elapsed_ms, transmit_complete, time_segment_id, peer_id) {
                Some(message) => RadioCommand::Transmit(message),
                None => RadioCommand::Idle,
            }
        },
        Turn::Listen => {
            let start_receive = network.try_receive();
            RadioCommand::Listen { start_receive }
        },
    }
}

/// Without epoch time a tick never asks the radio to transmit, whatever
/// state the node is in.
pub proof fn lemma_no_transmit_without_time(network: Network, now: u32, transmit_complete: bool)
    ensures
        !(spec_tick_command(network, now, None, transmit_complete) is Transmit),
{
}

/// At most one node transmits in a segment: when two different nodes look
/// at two moments of the same segment, they do not both find it their turn
/// to transmit.
pub proof fn lemma_one_broadcaster_per_segment(t1: u32, t2: u32, a: usize, b: usize)
    requires
        spec_time_segment_id(t1) == spec_time_segment_id(t2),
        a != b,
    ensures
        spec_broadcasting_peer_id(spec_time_segment_id(t1)) == spec_broadcasting_peer_id(
            spec_time_segment_id(t2),
        ),
        !(spec_turn(Some(t1), a) is Transmit && spec_turn(Some(t2), b) is Transmit),
{
}

/// Every segment of the cycle names a broadcasting peer and a broadcast
/// peer that both exist.
pub proof fn lemma_segment_names_peers(time_segment_id: int)
    requires
        0 <= time_segment_id < NUM_TIME_SEGMENTS,
    ensures
        0 <= spec_broadcasting_peer_id(time_segment_id) < MAX_PEERS,
        0 <= spec_broadcasted_peer_id(time_segment_id) < MAX_PEERS,
{
}

/// Each pair of a broadcasting peer and a broadcast peer has exactly one
/// segment in the cycle: the segment `broadcaster * MAX_PEERS + broadcasted`
/// names the pair, and no other segment of the cycle does.
pub proof fn lemma_pair_once_per_cycle(broadcaster: int, broadcasted: int, time_segment_id: int)
    requires
        0 <= broadcaster < MAX_PEERS,
        0 <= broadcasted < MAX_PEERS,
        0 <= time_segment_id < NUM_TIME_SEGMENTS,
    ensures
        0 <= broadcaster * MAX_PEERS + broadcasted < NUM_TIME_SEGMENTS,
        (spec_broadcasting_peer_id(time_segment_id) == broadcaster && spec_broadcasted_peer_id(
            time_segment_id,
        ) == broadcasted) <==> time_segment_id == broadcaster * MAX_PEERS + broadcasted,
{
}

/// The schedule repeats: a whole cycle later the segment is the same.
pub proof fn lemma_cycle_repeats(t: u32)
    requires
        t + NUM_TIME_SEGMENTS * TIME_SEGMENT_S <= u32::MAX,
    ensures
        spec_time_segment_id((t + NUM_TIME_SEGMENTS * TIME_SEGMENT_S) as u32)
            == spec_time_segment_id(t),
{
}

} // verus!
