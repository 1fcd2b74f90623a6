//! The action algebra: fixed-vocabulary flag sets with union-merge and
//! derived boolean queries.
//!
//! An [`ActionData`] value is a set of flags, one per operation the packet
//! pipeline may be asked to perform. [`Actions`] pairs the flags to apply
//! immediately (`data`) with the subset that stays terminal for the rest of
//! the connection (`terminal_actions`). [`MatchingActions`] pairs the
//! [`Actions`] for a terminal filter match with those for a partial match at
//! one pipeline stage. All merges are elementwise unions, so they are
//! associative, commutative, and idempotent.

use vstd::prelude::*;

verus! {

/// A set of operation flags for the packet pipeline, one boolean per flag.
#[derive(Clone, Copy, Debug, PartialEq, Eq, Structural)]
#[verifier::ext_equal]
pub struct ActionData {
    /// Forward the packet from the packet stage to the connection tracker.
    pub packet_continue: bool,
    /// Buffer packets of the connection until the filter resolves.
    pub packet_track: bool,
    /// Deliver packets of the connection to the callback.
    pub packet_deliver: bool,
    /// Probe for the application-layer protocol.
    pub proto_probe: bool,
    /// Re-apply the filter once the protocol is identified.
    pub proto_filter: bool,
    /// Buffer the parsed session for later delivery or filtering.
    pub session_track: bool,
    /// Deliver the parsed session to the callback.
    pub session_deliver: bool,
    /// Re-apply the filter once the session is parsed.
    pub session_filter: bool,
    /// Deliver connection data at connection termination.
    pub conn_deliver: bool,
    /// Invoke the `update` hook before reassembly.
    pub update_pdu: bool,
    /// Invoke the `update` hook after reassembly.
    pub reassembled_update_pdu: bool,
}

impl ActionData {
    /// The flag set with no flag raised.
    pub open spec fn empty() -> ActionData {
        ActionData {
            packet_continue: false,
            packet_track: false,
            packet_deliver: false,
            proto_probe: false,
            proto_filter: false,
            session_track: false,
            session_deliver: false,
            session_filter: false,
            conn_deliver: false,
            update_pdu: false,
            reassembled_update_pdu: false,
        }
    }

    /// The elementwise union of two flag sets.
    pub open spec fn union(self, other: ActionData) -> ActionData {
        ActionData {
            packet_continue: self.packet_continue || other.packet_continue,
            packet_track: self.packet_track || other.packet_track,
            packet_deliver: self.packet_deliver || other.packet_deliver,
            proto_probe: self.proto_probe || other.proto_probe,
            proto_filter: self.proto_filter || other.proto_filter,
            session_track: self.session_track || other.session_track,
            session_deliver: self.session_deliver || other.session_deliver,
            session_filter: self.session_filter || other.session_filter,
            conn_deliver: self.conn_deliver || other.conn_deliver,
            update_pdu: self.update_pdu || other.update_pdu,
            reassembled_update_pdu: self.reassembled_update_pdu
                || other.reassembled_update_pdu,
        }
    }

    /// Creates an empty flag set.
    pub fn new() -> (r: ActionData)
        ensures
            r == ActionData::empty(),
    {
        ActionData {
            packet_continue: false,
            packet_track: false,
            packet_deliver: false,
            proto_probe: false,
            proto_filter: false,
            session_track: false,
            session_deliver: false,
            session_filter: false,
            conn_deliver: false,
            update_pdu: false,
            reassembled_update_pdu: false,
        }
    }

    /// Merges `other` into `self` by elementwise union.
    pub fn merge(&mut self, other: &ActionData)
        ensures
            *final(self) == old(self).union(*other),
    {
        self.packet_continue = self.packet_continue || other.packet_continue;
        self.packet_track = self.packet_track || other.packet_track;
        self.packet_deliver = self.packet_deliver || other.packet_deliver;
        self.proto_probe = self.proto_probe || other.proto_probe;
        self.proto_filter = self.proto_filter || other.proto_filter;
        self.session_track = self.session_track || other.session_track;
        self.session_deliver = self.session_deliver || other.session_deliver;
        self.session_filter = self.session_filter || other.session_filter;
        self.conn_deliver = self.conn_deliver || other.conn_deliver;
        self.update_pdu = self.update_pdu || other.update_pdu;
        self.reassembled_update_pdu = self.reassembled_update_pdu
            || other.reassembled_update_pdu;
    }
}

/// The actions a subscription requires at one pipeline stage: `data` holds
/// every flag to apply, `terminal_actions` the subset that remains in force
/// for the rest of the connection once the filter has terminally matched.
#[derive(Clone, Copy, Debug, PartialEq, Eq, Structural)]
#[verifier::ext_equal]
pub struct Actions {
    /// All flags to apply at this stage.
    pub data: ActionData,
    /// Flags that stay active for the rest of the connection.
    pub terminal_actions: ActionData,
}

impl Actions {
    /// The action pair with no flag raised in either set.
    pub open spec fn empty() -> Actions {
        Actions { data: ActionData::empty(), terminal_actions: ActionData::empty() }
    }

    /// The elementwise union of two action pairs.
    pub open spec fn union(self, other: Actions) -> Actions {
        Actions {
            data: self.data.union(other.data),
            terminal_actions: self.terminal_actions.union(other.terminal_actions),
        }
    }

    /// Creates an empty action pair.
    pub fn new() -> (r: Actions)
        ensures
            r == Actions::empty(),
    {
        Actions { data: ActionData::new(), terminal_actions: ActionData::new() }
    }

    /// Merges `other` into `self` by elementwise union.
    pub fn push(&mut self, other: &Actions)
        ensures
            *final(self) == old(self).union(*other),
    {
        self.data.merge(&other.data);
        self.terminal_actions.merge(&other.terminal_actions);
    }

    /// True if these actions require identifying or parsing application-layer
    /// data: any of the probe, filter, track, or deliver flags that concern
    /// the protocol or the session.
    pub fn parse_any(&self) -> (r: bool)
        ensures
            r == (self.data.proto_probe || self.data.proto_filter
                || self.data.session_track || self.data.session_deliver
                || self.data.session_filter),
    {
        self.data.proto_probe || self.data.proto_filter || self.data.session_track
            || self.data.session_deliver || self.data.session_filter
    }

    /// True if these actions require invoking the pre-reassembly update hook.
    pub fn update_pdu(&self) -> (r: bool)
        ensures
            r == self.data.update_pdu,
    {
        self.data.update_pdu
    }

    /// True if these actions require buffering the connection's packets.
    pub fn buffer_frame(&self) -> (r: bool)
        ensures
            r == self.data.packet_track,
    {
        self.data.packet_track
    }

    /// True if these actions require delivering packets to the callback.
    pub fn packet_deliver(&self) -> (r: bool)
        ensures
            r == self.data.packet_deliver,
    {
        self.data.packet_deliver
    }
}

/// The actions a subscription requires at one pipeline stage, split by match
/// outcome: `if_matched` applies on a terminal match, `if_matching` while the
/// filter is still partially matching.
#[derive(Clone, Copy, Debug, PartialEq, Eq, Structural)]
#[verifier::ext_equal]
pub struct MatchingActions {
    /// Actions required on a terminal match.
    pub if_matched: Actions,
    /// Actions required on a non-terminal (partial) match.
    pub if_matching: Actions,
}

impl MatchingActions {
    /// The pair of empty action sets.
    pub open spec fn empty() -> MatchingActions {
        MatchingActions { if_matched: Actions::empty(), if_matching: Actions::empty() }
    }

    /// The elementwise union of two pairs.
    pub open spec fn union(self, other: MatchingActions) -> MatchingActions {
        MatchingActions {
            if_matched: self.if_matched.union(other.if_matched),
            if_matching: self.if_matching.union(other.if_matching),
        }
    }

    /// Creates a pair of empty action sets.
    pub fn new() -> (r: MatchingActions)
        ensures
            r == MatchingActions::empty(),
    {
        MatchingActions { if_matched: Actions::new(), if_matching: Actions::new() }
    }

    /// Merges `other` into `self` by elementwise union.
    pub fn push(&mut self, other: &MatchingActions)
        ensures
            *final(self) == old(self).union(*other),
    {
        self.if_matched.push(&other.if_matched);
        self.if_matching.push(&other.if_matching);
    }
}

/// The merge used to fold per-datatype action sets into one subscription-wide
/// set is a join: associative, commutative, and idempotent, with the empty
/// pair as identity. Derived per-stage actions therefore do not depend on the
/// order in which datatypes were added.
/// The elementwise union of flag sets is a join: associative, commutative,
/// and idempotent, with the empty set as identity.
#[verifier::rlimit(100)]
pub proof fn lemma_flag_union_is_join(a: ActionData, b: ActionData, c: ActionData)
    ensures
        a.union(b).union(c) == a.union(b.union(c)),
        a.union(b) == b.union(a),
        a.union(a) == a,
        a.union(ActionData::empty()) == a,
        ActionData::empty().union(a) == a,
{
    assert(a.union(b).union(c) =~= a.union(b.union(c)));
    assert(a.union(b) =~= b.union(a));
    assert(a.union(a) =~= a);
    assert(a.union(ActionData::empty()) =~= a);
    assert(ActionData::empty().union(a) =~= a);
}

/// The merge used to fold per-datatype action sets into one subscription-wide
/// set is a join: associative, commutative, and idempotent, with the empty
/// pair as identity. Derived per-stage actions therefore do not depend on the
/// order in which datatypes were added.
pub proof fn lemma_union_is_join(a: MatchingActions, b: MatchingActions, c: MatchingActions)
    ensures
        a.union(b).union(c) == a.union(b.union(c)),
        a.union(b) == b.union(a),
        a.union(a) == a,
        a.union(MatchingActions::empty()) == a,
        MatchingActions::empty().union(a) == a,
{
    lemma_flag_union_is_join(a.if_matched.data, b.if_matched.data, c.if_matched.data);
    lemma_flag_union_is_join(
        a.if_matched.terminal_actions,
        b.if_matched.terminal_actions,
        c.if_matched.terminal_actions,
    );
    lemma_flag_union_is_join(a.if_matching.data, b.if_matching.data, c.if_matching.data);
    lemma_flag_union_is_join(
        a.if_matching.terminal_actions,
        b.if_matching.terminal_actions,
        c.if_matching.terminal_actions,
    );
    assert(a.union(b).union(c) =~~= a.union(b.union(c)));
    assert(a.union(b) =~~= b.union(a));
    assert(a.union(a) =~~= a);
    assert(a.union(MatchingActions::empty()) =~~= a);
    assert(MatchingActions::empty().union(a) =~~= a);
}

} // verus!
