use vstd::prelude::*;

use crate::timestamp::{compare, ts_after, Tai64N};

verus! {

/// Minimum interval between two accepted initiations on one peer, in
/// nanoseconds (20 milliseconds). Bounds how often a single peer identity
/// can force the expensive handshake-processing path to run.
pub const TIME_BETWEEN_INITIATIONS_NANOS: u64 = 20_000_000;

/// Per-message denial reasons of the admission gate. Both are recoverable
/// by design: the message is dropped and no peer state changes.
#[derive(Clone, Copy, PartialEq, Eq, Debug)]
pub enum HandshakeError {
    /// The candidate initiation timestamp is not newer than the last
    /// accepted one: treated as a replay attempt.
    StaleTimestamp,
    /// The candidate arrived before the minimum inter-initiation interval
    /// elapsed: treated as denial-of-service pressure.
    InitiationFlood,
}

/// Handshake phase of a peer: either no handshake is in flight, or an
/// initiation has been sent and its ephemeral material is retained.
///
/// The value is plain owned data, so every copy is independent: handing a
/// copy out can never alias the ephemeral secret stored in the peer.
#[derive(Clone, Copy, PartialEq, Eq, Debug)]
pub enum State {
    Reset,
    InitiationSent {
        /// Assigned sender identifier for the in-flight handshake.
        sender: u32,
        /// Ephemeral secret scalar generated for this handshake attempt.
        eph_sk: [u8; 32],
        /// Handshake-hash accumulator.
        hs: [u8; 32],
        /// Chaining-key accumulator.
        ck: [u8; 32],
    },
}

/// The external session-identifier registry, expressed as an injected
/// capability so the state machine stays testable without a real registry.
/// No return value of `release` is observed by this component.
pub trait SessionRegistry {
    /// The identifiers released so far, oldest first.
    spec fn released(&self) -> Seq<u32>;

    /// Release `id` back to the registry for reuse.
    fn release(&mut self, id: u32)
        ensures
            final(self).released() == old(self).released().push(id),
    ;
}

/// A registry that keeps every released identifier in order. A caller can
/// then forward those identifiers to the surrounding device.
pub struct RecordingRegistry {
    /// Identifiers released so far, oldest first.
    pub ids: Vec<u32>,
}

impl RecordingRegistry {
    /// A registry with no releases recorded yet.
    pub fn new() -> (r: RecordingRegistry)
        ensures
            r.released() == Seq::<u32>::empty(),
    {
        RecordingRegistry { ids: Vec::new() }
    }
}

impl SessionRegistry for RecordingRegistry {
    open spec fn released(&self) -> Seq<u32> {
        self.ids@
    }

    fn release(&mut self, id: u32) {
        self.ids.push(id);
    }
}

/// Replay check: the candidate is stale when a previous timestamp exists
/// and the candidate is not strictly newer than it.
pub open spec fn stale(prev: Option<Tai64N>, ts: Tai64N) -> bool {
    match prev {
        Some(p) => !ts_after(p, ts),
        None => false,
    }
}

/// Flood check: the candidate floods when an accepted initiation was
/// recorded at `marker` and less than the minimum interval has passed at
/// `now_nanos` (a clock that stepped backwards counts as no time passed).
pub open spec fn flooded(marker: Option<u64>, now_nanos: u64) -> bool {
    match marker {
        Some(m) => (now_nanos as int) < m + TIME_BETWEEN_INITIATIONS_NANOS,
        None => false,
    }
}

/// The registry's released sequence after reclaiming whatever session the
/// phase `st` held: exactly the superseded sender is released, once.
pub open spec fn released_after(prev: Seq<u32>, st: State) -> Seq<u32> {
    match st {
        State::InitiationSent { sender, .. } => prev.push(sender),
        State::Reset => prev,
    }
}

/// Per-peer handshake state: the current phase with its ephemeral material,
/// the replay-protection timestamp and the flood-protection marker, plus the
/// peer's constant key material.
pub struct Peer<T> {
    /// Opaque external identifier supplied by the owner; not interpreted here.
    pub identifier: T,
    /// Current handshake phase.
    pub state: State,
    /// Most recent accepted initiation timestamp, or none before the first
    /// accepted message.
    pub timestamp: Option<Tai64N>,
    /// Instant (in nanoseconds) of the most recent accepted initiation, or
    /// none before the first accepted message.
    pub last_initiation_consumption: Option<u64>,
    /// Public key of the peer.
    pub pk: [u8; 32],
    /// Precomputed DH(static, static) shared secret.
    pub ss: [u8; 32],
    /// Pre-shared symmetric key; all zero by default.
    pub psk: [u8; 32],
}

impl<T: Copy> Peer<T> {
    /// A fresh peer: phase `Reset`, no replay timestamp, no flood marker,
    /// all-zero pre-shared key. Pure value construction; cannot fail.
    pub fn new(identifier: T, pk: [u8; 32], ss: [u8; 32]) -> (r: Peer<T>)
        ensures
            r.identifier == identifier,
            r.state == State::Reset,
            r.timestamp is None,
            r.last_initiation_consumption is None,
            r.pk == pk,
            r.ss == ss,
            forall|i: int| 0 <= i < 32 ==> #[trigger] r.psk@[i] == 0u8,
    {
        Peer {
            identifier,
            state: State::Reset,
            timestamp: None,
            last_initiation_consumption: None,
            pk,
            ss,
            psk: [0u8; 32],
        }
    }

    /// Return an independent copy of the current phase, including an
    /// independent copy of any ephemeral secret and accumulators.
    pub fn get_state(&self) -> (r: State)
        ensures
            r == self.state,
    {
        self.state
    }

    /// Overwrite the phase unconditionally. The previous phase is not
    /// validated: the caller is responsible for releasing a discarded
    /// `InitiationSent` sender identifier first.
    pub fn set_state(&mut self, state_new: State)
        ensures
            final(self).state == state_new,
            final(self).timestamp == old(self).timestamp,
            final(self).last_initiation_consumption == old(self).last_initiation_consumption,
            final(self).identifier == old(self).identifier,
            final(self).pk == old(self).pk,
            final(self).ss == old(self).ss,
            final(self).psk == old(self).psk,
    {
        self.state = state_new;
    }

    /// Read back the replay-protection timestamp.
    pub fn get_timestamp(&self) -> (r: Option<Tai64N>)
        ensures
            r == self.timestamp,
    {
        self.timestamp
    }

    /// Read back the flood-protection marker.
    pub fn get_last_initiation(&self) -> (r: Option<u64>)
        ensures
            r == self.last_initiation_consumption,
    {
        self.last_initiation_consumption
    }

    /// Admission gate for an inbound initiation carrying `timestamp_new`,
    /// evaluated at instant `now_nanos`.
    ///
    /// The replay and flood checks are pure predicates evaluated before any
    /// mutation, so a denied message leaves the peer and the registry
    /// untouched. On acceptance the superseded in-flight session (if any) is
    /// released to `device`, the phase is reset, and both protection markers
    /// are updated as one unit.
    pub fn check_replay_flood<R: SessionRegistry>(
        &mut self,
        device: &mut R,
        timestamp_new: &Tai64N,
        now_nanos: u64,
    ) -> (r: Result<(), HandshakeError>)
        ensures
            r is Ok <==> !stale(old(self).timestamp, *timestamp_new) && !flooded(
                old(self).last_initiation_consumption,
                now_nanos,
            ),
            r == Err::<(), HandshakeError>(HandshakeError::StaleTimestamp) <==> stale(
                old(self).timestamp,
                *timestamp_new,
            ),
            r == Err::<(), HandshakeError>(HandshakeError::InitiationFlood) <==> !stale(
                old(self).timestamp,
                *timestamp_new,
            ) && flooded(old(self).last_initiation_consumption, now_nanos),
            r is Err ==> *final(self) == *old(self) && final(device).released() == old(
                device,
            ).released(),
            r is Ok ==> final(self).state == State::Reset,
            r is Ok ==> final(self).timestamp == Some(*timestamp_new),
            r is Ok ==> final(self).last_initiation_consumption == Some(now_nanos),
            r is Ok ==> final(device).released() == released_after(
                old(device).released(),
                old(self).state,
            ),
            r is Ok ==> match old(self).timestamp {
                Some(prev) => ts_after(prev, *timestamp_new),
                None => true,
            },
            final(self).identifier == old(self).identifier,
            final(self).pk == old(self).pk,
            final(self).ss == old(self).ss,
            final(self).psk == old(self).psk,
    {
        // Replay check: deny unless the candidate is strictly newer than any
        // previously accepted timestamp.
        match self.timestamp {
            Some(timestamp_old) => {
                if !compare(&timestamp_old, timestamp_new) {
                    return Err(HandshakeError::StaleTimestamp);
                }
            },
            None => {},
        }
        // Flood check: deny if the minimum interval has not elapsed since the
        // last accepted initiation.
        match self.last_initiation_consumption {
            Some(last) => {
                let long_enough: bool = match now_nanos.checked_sub(last) {
                    Some(elapsed) => elapsed >= TIME_BETWEEN_INITIATIONS_NANOS,
                    None => false,
                };
                if !long_enough {
                    return Err(HandshakeError::InitiationFlood);
                }
            },
            None => {},
        }
        // Reclaim the superseded in-flight session, if any.
        match self.state {
            State::InitiationSent { sender, .. } => device.release(sender),
            State::Reset => {},
        }
        // Commit: reset the phase and update both protection markers.
        self.state = State::Reset;
        self.timestamp = Some(*timestamp_new);
        self.last_initiation_consumption = Some(now_nanos);
        Ok(())
    }
}

/// Monotonic acceptance: a candidate that passes the replay check against a
/// stored timestamp is strictly newer than it, so the stored timestamp is
/// strictly increasing over any sequence of accepted initiations.
pub proof fn lemma_accepted_timestamp_monotonic(prev: Tai64N, ts: Tai64N)
    requires
        !stale(Some(prev), ts),
    ensures
        ts_after(prev, ts),
{
}

/// Replay rejection: a candidate equal to the stored timestamp is stale, so
/// presenting the same timestamp twice in a row is accepted at most once and
/// the second presentation is denied without mutation.
pub proof fn lemma_replay_rejected(ts: Tai64N)
    ensures
        stale(Some(ts), ts),
{
}

/// Flood rejection: with an accepted initiation recorded at `marker_nanos`,
/// a later candidate floods exactly when it arrives before the minimum
/// interval has elapsed, whatever its timestamp; once the interval has
/// elapsed the flood check no longer denies.
pub proof fn lemma_flood_window(marker_nanos: u64, now_nanos: u64)
    ensures
        (now_nanos as int) < marker_nanos + TIME_BETWEEN_INITIATIONS_NANOS ==> flooded(
            Some(marker_nanos),
            now_nanos,
        ),
        (now_nanos as int) >= marker_nanos + TIME_BETWEEN_INITIATIONS_NANOS ==> !flooded(
            Some(marker_nanos),
            now_nanos,
        ),
{
}

/// Session reclamation: accepting over an in-flight `InitiationSent` phase
/// releases exactly its sender identifier, once; accepting over `Reset`
/// releases nothing.
pub proof fn lemma_session_reclamation(
    prev: Seq<u32>,
    sender: u32,
    eph_sk: [u8; 32],
    hs: [u8; 32],
    ck: [u8; 32],
)
    ensures
        released_after(prev, (State::InitiationSent { sender, eph_sk, hs, ck })) == prev.push(
            sender,
        ),
        released_after(prev, State::Reset) == prev,
{
}

} // verus!
