//! One complete subscription: a filter, a callback, and one or more
//! datatypes, with the aggregate-level bookkeeping, structural validation,
//! and the subscription-wide per-stage action derivation.

use vstd::prelude::*;
use vstd::string::StringExecFns;

use crate::actions::{ActionData, Actions, MatchingActions};
use crate::datatypes::{DataType, Level};
use crate::pipeline::{FilterLayer, Predicate};

verus! {

/// The error raised when a subscription's datatype combination violates a
/// structural invariant. Always fatal to that subscription's registration.
#[derive(Clone, Copy, Debug, PartialEq, Eq, Structural)]
pub enum ConfigurationError {
    /// A packet-level subscription with several datatypes must contain
    /// exactly one packet-level datatype.
    PacketDatatypeCount,
    /// Every other datatype beside a packet-level one must be static.
    NonStaticInPacketSubscription,
    /// A packet-level datatype appears in a non-packet subscription.
    PacketInNonPacketSubscription,
    /// More than one session-level datatype in one subscription.
    MultipleSessionDatatypes,
}

/// The number of datatypes at level `level` among the first `n` entries.
pub open spec fn count_level_upto(dts: Seq<DataType>, level: Level, n: int) -> int
    decreases n,
{
    if n <= 0 {
        0
    } else {
        count_level_upto(dts, level, n - 1) + if dts[n - 1].level == level {
            1int
        } else {
            0int
        }
    }
}

/// The number of datatypes at level `level` in the sequence.
pub open spec fn count_level(dts: Seq<DataType>, level: Level) -> int {
    count_level_upto(dts, level, dts.len() as int)
}

/// The aggregate level a subscription holding exactly these datatypes has:
/// starting from `Static`, each datatype raises the level by the precedence
/// `Connection > Session > Packet > Static`.
pub open spec fn derived_level(dts: Seq<DataType>) -> Level
    decreases dts.len(),
{
    if dts.len() == 0 {
        Level::Static
    } else {
        derived_level(dts.drop_last()).combine(dts.last().level)
    }
}

/// The names of the datatypes joined with `", "`, in insertion order.
pub open spec fn joined_names(dts: Seq<DataType>) -> Seq<char>
    decreases dts.len(),
{
    if dts.len() == 0 {
        Seq::<char>::empty()
    } else if dts.len() == 1 {
        dts[0].as_str@
    } else {
        joined_names(dts.drop_last()) + ", "@ + dts.last().as_str@
    }
}

/// Specification for one complete subscription: a filter, a callback, and
/// the datatypes the callback receives.
#[derive(Clone, Debug)]
pub struct SubscriptionSpec {
    /// Datatype(s) invoked in the callback.
    pub datatypes: Vec<DataType>,
    /// String representation of the filter used in this subscription.
    pub filter: String,
    /// The callback as a string, used in code generation and display.
    pub callback: String,
    /// The level of the full subscription: the earliest stage at which, if
    /// the filter has matched, all datatypes can be delivered. Derived from
    /// the datatypes, never set independently.
    pub level: Level,
}

impl SubscriptionSpec {
    /// Every packet-level datatype lives in a packet-level subscription.
    /// Validation enforces this shape; the per-stage derivations require it.
    pub open spec fn packet_consistent(self) -> bool {
        forall|i: int|
            0 <= i < self.datatypes@.len() ==> ((#[trigger] self.datatypes@[i]).level is Packet
                ==> self.level is Packet)
    }

    /// The outcome of structural validation: the first violated invariant,
    /// in the order the checks are applied, or `Ok`.
    pub open spec fn spec_validate(self) -> Result<(), ConfigurationError> {
        let dts = self.datatypes@;
        if self.level is Packet && dts.len() > 1 && count_level(dts, Level::Packet) != 1 {
            Err(ConfigurationError::PacketDatatypeCount)
        } else if self.level is Packet && dts.len() > 1 && count_level(dts, Level::Static)
            < dts.len() - 1 {
            Err(ConfigurationError::NonStaticInPacketSubscription)
        } else if !(self.level is Packet) && count_level(dts, Level::Packet) != 0 {
            Err(ConfigurationError::PacketInNonPacketSubscription)
        } else if count_level(dts, Level::Session) > 1 {
            Err(ConfigurationError::MultipleSessionDatatypes)
        } else {
            Ok(())
        }
    }

    /// Creates a new specification with no datatypes. The level starts at
    /// `Static` and is raised by every datatype added later.
    pub fn new(filter: String, callback: String) -> (r: SubscriptionSpec)
        ensures
            r.datatypes@.len() == 0,
            r.filter == filter,
            r.callback == callback,
            r.level is Static,
            r.level == derived_level(r.datatypes@),
    {
        let r = SubscriptionSpec { datatypes: vec![], filter, callback, level: Level::Static };
        proof {
            assert(derived_level(r.datatypes@) is Static);
        }
        r
    }

    /// Updates the subscription level for a newly added datatype: the later
    /// delivery point always takes priority.
    fn update_level(&mut self, next_level: &Level)
        ensures
            final(self).level == old(self).level.combine(*next_level),
            final(self).datatypes == old(self).datatypes,
            final(self).filter == old(self).filter,
            final(self).callback == old(self).callback,
    {
        if matches!(self.level, Level::Connection) || matches!(next_level, Level::Connection) {
            self.level = Level::Connection;
        } else if matches!(self.level, Level::Session) || matches!(next_level, Level::Session) {
            self.level = Level::Session;
        } else if matches!(self.level, Level::Packet) || matches!(next_level, Level::Packet) {
            self.level = Level::Packet;
        }
    }

    /// Adds a new datatype to the subscription, raising the aggregate level
    /// if the datatype's level takes precedence and preserving insertion
    /// order. Keeps the aggregate level the one derived from the datatypes.
    pub fn add_datatype(&mut self, datatype: DataType)
        ensures
            final(self).level == old(self).level.combine(datatype.level),
            final(self).datatypes@ == old(self).datatypes@.push(datatype),
            final(self).filter == old(self).filter,
            final(self).callback == old(self).callback,
            old(self).level == derived_level(old(self).datatypes@) ==> final(self).level
                == derived_level(final(self).datatypes@),
    {
        self.update_level(&datatype.level);
        self.datatypes.push(datatype);
        proof {
            assert(self.datatypes@.drop_last() =~= old(self).datatypes@);
            assert(self.datatypes@.last() == datatype);
        }
    }

    /// Counts the datatypes of this subscription at the given level.
    fn count_datatypes(&self, level: Level) -> (n: usize)
        ensures
            n as int == count_level(self.datatypes@, level),
    {
        let mut n: usize = 0;
        let mut i: usize = 0;
        while i < self.datatypes.len()
            invariant
                i <= self.datatypes@.len(),
                n <= i,
                n as int == count_level_upto(self.datatypes@, level, i as int),
            decreases self.datatypes@.len() - i,
        {
            if self.datatypes[i].level == level {
                n += 1;
            }
            i += 1;
        }
        n
    }

    /// Performs the structural checks on the subscription specification:
    /// - a packet-level subscription with several datatypes holds exactly
    ///   one packet-level datatype, and every other datatype is static;
    /// - a non-packet subscription holds no packet-level datatype;
    /// - at most one session-level datatype per subscription.
    ///
    /// Returns the first violated invariant, or `Ok`; never repairs.
    pub fn validate_spec(&self) -> (r: Result<(), ConfigurationError>)
        ensures
            r == self.spec_validate(),
    {
        if matches!(self.level, Level::Packet) {
            if self.datatypes.len() > 1 {
                if self.count_datatypes(Level::Packet) != 1 {
                    return Err(ConfigurationError::PacketDatatypeCount);
                }
                if self.count_datatypes(Level::Static) < self.datatypes.len() - 1 {
                    return Err(ConfigurationError::NonStaticInPacketSubscription);
                }
            }
        } else {
            if self.count_datatypes(Level::Packet) != 0 {
                return Err(ConfigurationError::PacketInNonPacketSubscription);
            }
        }
        if self.count_datatypes(Level::Session) > 1 {
            return Err(ConfigurationError::MultipleSessionDatatypes);
        }
        Ok(())
    }

    /// Creates a typical connection-level subscription, for exercising the
    /// engine: one connection-statistics datatype.
    pub fn new_default_connection() -> (r: SubscriptionSpec)
        ensures
            r.level is Connection,
            r.level == derived_level(r.datatypes@),
            r.datatypes@.len() == 1,
            r.datatypes@[0].level is Connection,
            !r.datatypes@[0].needs_parse,
            r.datatypes@[0].needs_update,
            !r.datatypes@[0].needs_update_reassembled,
            !r.datatypes@[0].track_packets,
    {
        let mut sub = Self::new(String::from_str("fil"), String::from_str("cb"));
        sub.level = Level::Connection;
        sub.datatypes.push(DataType::new_default_connection("Connection"));
        proof {
            assert(sub.datatypes@.drop_last() =~= Seq::<DataType>::empty());
            assert(derived_level(Seq::<DataType>::empty()) is Static);
        }
        sub
    }

    /// Creates a typical session-level subscription, for exercising the
    /// engine: one parsed-session datatype.
    pub fn new_default_session() -> (r: SubscriptionSpec)
        ensures
            r.level is Session,
            r.level == derived_level(r.datatypes@),
            r.datatypes@.len() == 1,
            r.datatypes@[0].level is Session,
            r.datatypes@[0].needs_parse,
            !r.datatypes@[0].needs_update,
            !r.datatypes@[0].needs_update_reassembled,
            !r.datatypes@[0].track_packets,
    {
        let mut sub = Self::new(String::from_str("fil"), String::from_str("cb"));
        sub.level = Level::Session;
        sub.datatypes.push(DataType::new_default_session("Session", vec![]));
        proof {
            assert(sub.datatypes@.drop_last() =~= Seq::<DataType>::empty());
            assert(derived_level(Seq::<DataType>::empty()) is Static);
        }
        sub
    }

    /// Creates a typical packet-level subscription, for exercising the
    /// engine: one raw-packet datatype.
    pub fn new_default_packet() -> (r: SubscriptionSpec)
        ensures
            r.level is Packet,
            r.level == derived_level(r.datatypes@),
            r.datatypes@.len() == 1,
            r.datatypes@[0].level is Packet,
            !r.datatypes@[0].needs_parse,
            !r.datatypes@[0].needs_update,
            !r.datatypes@[0].needs_update_reassembled,
            !r.datatypes@[0].track_packets,
    {
        let mut sub = Self::new(String::from_str("fil"), String::from_str("cb"));
        sub.level = Level::Packet;
        sub.datatypes.push(DataType::new_default_packet("Packet"));
        proof {
            assert(sub.datatypes@.drop_last() =~= Seq::<DataType>::empty());
            assert(derived_level(Seq::<DataType>::empty()) is Static);
        }
        sub
    }

    /// Formats the subscription as `"callback(datatype1, datatype2, ...)"`,
    /// with the datatypes in insertion order.
    pub fn as_str(&self) -> (r: String)
        ensures
            r@ == self.callback@ + "("@ + joined_names(self.datatypes@) + ")"@,
    {
        let mut out = self.callback.clone();
        out.append("(");
        proof {
            assert(out@ =~= self.callback@ + "("@ + joined_names(
                self.datatypes@.take(0),
            ));
        }
        let mut i: usize = 0;
        while i < self.datatypes.len()
            invariant
                i <= self.datatypes@.len(),
                out@ == self.callback@ + "("@ + joined_names(self.datatypes@.take(i as int)),
            decreases self.datatypes@.len() - i,
        {
            if i > 0 {
                out.append(", ");
            }
            out.append(self.datatypes[i].as_str);
            proof {
                let dts = self.datatypes@;
                let k = i as int;
                assert(dts.take(k + 1).drop_last() =~= dts.take(k));
                assert(dts.take(k + 1).last() == dts[k]);
                assert(out@ =~= self.callback@ + "("@ + joined_names(dts.take(k + 1)));
            }
            i += 1;
        }
        proof {
            assert(self.datatypes@.take(self.datatypes@.len() as int) =~= self.datatypes@);
        }
        out.append(")");
        out
    }

    /// Whether this subscription should be delivered if the filter matched
    /// terminally at `filter_layer`: at least one datatype has reached its
    /// natural delivery point, and every datatype's data is obtainable. The
    /// conjunction prevents delivering before all requested data exists; the
    /// disjunction fires as soon as any datatype is ready.
    pub open spec fn spec_should_deliver(
        self,
        filter_layer: FilterLayer,
        pred: Predicate,
    ) -> bool {
        let dts = self.datatypes@;
        (exists|i: int|
            0 <= i < dts.len() && (#[trigger] dts[i]).spec_should_deliver(
                filter_layer,
                pred,
                self.level,
            )) && (forall|i: int|
            0 <= i < dts.len() ==> (#[trigger] dts[i]).spec_can_deliver(filter_layer, pred))
    }

    /// Returns whether this subscription should be delivered on a terminal
    /// match at `filter_layer`; see [`Self::spec_should_deliver`]. True at
    /// the first stage at which all datatypes can be delivered.
    pub fn should_deliver(&self, filter_layer: FilterLayer, pred: &Predicate) -> (r: bool)
        ensures
            r == self.spec_should_deliver(filter_layer, *pred),
    {
        let mut any_ready: bool = false;
        let mut all_available: bool = true;
        let mut i: usize = 0;
        while i < self.datatypes.len()
            invariant
                i <= self.datatypes@.len(),
                any_ready == exists|j: int|
                    0 <= j < i && (#[trigger] self.datatypes@[j]).spec_should_deliver(
                        filter_layer,
                        *pred,
                        self.level,
                    ),
                all_available == forall|j: int|
                    0 <= j < i ==> (#[trigger] self.datatypes@[j]).spec_can_deliver(
                        filter_layer,
                        *pred,
                    ),
            decreases self.datatypes@.len() - i,
        {
            let dt = &self.datatypes[i];
            if dt.should_deliver(&filter_layer, pred, &self.level) {
                any_ready = true;
            }
            if !dt.can_deliver(&filter_layer, pred) {
                all_available = false;
            }
            i += 1;
        }
        any_ready && all_available
    }

    /// The actions for the packet-continue stage. A packet-level
    /// subscription delivers matched packets directly in the filter, so only
    /// a partial match forwards the packet; every other subscription
    /// forwards to the connection tracker whatever the outcome, since later
    /// stages are needed regardless.
    pub open spec fn spec_packet_continue(self) -> MatchingActions {
        if self.level is Packet {
            MatchingActions {
                if_matched: Actions::empty(),
                if_matching: Actions {
                    data: ActionData { packet_continue: true, ..ActionData::empty() },
                    terminal_actions: ActionData::empty(),
                },
            }
        } else {
            MatchingActions {
                if_matched: Actions {
                    data: ActionData { packet_continue: true, ..ActionData::empty() },
                    terminal_actions: ActionData::empty(),
                },
                if_matching: Actions {
                    data: ActionData { packet_continue: true, ..ActionData::empty() },
                    terminal_actions: ActionData::empty(),
                },
            }
        }
    }

    /// Returns the actions for the packet-continue stage; see
    /// [`Self::spec_packet_continue`].
    pub fn packet_continue(&self) -> (r: MatchingActions)
        ensures
            r == self.spec_packet_continue(),
    {
        let mut if_matched = Actions::new();
        let mut if_matching = Actions::new();

        match self.level {
            Level::Packet => {
                // A terminally matched packet-level subscription is
                // delivered in the callback directly.
                if_matching.data.packet_continue = true;
            },
            _ => {
                // Forward to the connection tracker.
                if_matched.data.packet_continue = true;
                if_matching.data.packet_continue = true;
            },
        }
        MatchingActions { if_matched, if_matching }
    }

    /// The fold of every datatype's packet-stage actions over the first `n`
    /// datatypes: a flag is raised exactly when some datatype raises it.
    pub open spec fn spec_fold_packet_filter(dts: Seq<DataType>, l: Level, n: int)
        -> MatchingActions {
        MatchingActions {
            if_matched: Actions {
                data: ActionData {
                    update_pdu: exists|i: int| 0 <= i < n && (#[trigger] dts[i]).needs_update,
                    reassembled_update_pdu: exists|i: int|
                        0 <= i < n && (#[trigger] dts[i]).needs_update_reassembled,
                    packet_track: exists|i: int| 0 <= i < n && (#[trigger] dts[i]).track_packets,
                    conn_deliver: l is Connection && n > 0,
                    proto_probe: exists|i: int| 0 <= i < n && (#[trigger] dts[i]).needs_parse,
                    session_track: l is Connection && exists|i: int|
                        0 <= i < n && (#[trigger] dts[i]).needs_parse,
                    session_deliver: exists|i: int|
                        0 <= i < n && (#[trigger] dts[i]).level is Session,
                    ..ActionData::empty()
                },
                terminal_actions: ActionData {
                    update_pdu: exists|i: int| 0 <= i < n && (#[trigger] dts[i]).needs_update,
                    reassembled_update_pdu: exists|i: int|
                        0 <= i < n && (#[trigger] dts[i]).needs_update_reassembled,
                    packet_track: exists|i: int| 0 <= i < n && (#[trigger] dts[i]).track_packets,
                    conn_deliver: l is Connection && n > 0,
                    proto_probe: exists|i: int| 0 <= i < n && (#[trigger] dts[i]).needs_parse,
                    session_track: l is Connection && exists|i: int|
                        0 <= i < n && (#[trigger] dts[i]).needs_parse,
                    session_deliver: exists|i: int|
                        0 <= i < n && (#[trigger] dts[i]).level is Session,
                    ..ActionData::empty()
                },
            },
            if_matching: Actions {
                data: ActionData {
                    packet_track: exists|i: int|
                        0 <= i < n && ((#[trigger] dts[i]).level is Packet
                            || dts[i].track_packets),
                    update_pdu: exists|i: int| 0 <= i < n && (#[trigger] dts[i]).needs_update,
                    reassembled_update_pdu: exists|i: int|
                        0 <= i < n && (#[trigger] dts[i]).needs_update_reassembled,
                    ..ActionData::empty()
                },
                terminal_actions: ActionData::empty(),
            },
        }
    }

    /// The actions for the packet-filter stage: the fold of every
    /// datatype's packet-stage actions, plus re-applying the filter at the
    /// protocol stage while the match is still partial.
    pub open spec fn spec_packet_filter(self) -> MatchingActions {
        let folded = Self::spec_fold_packet_filter(
            self.datatypes@,
            self.level,
            self.datatypes@.len() as int,
        );
        MatchingActions {
            if_matching: Actions {
                data: ActionData { proto_filter: true, ..folded.if_matching.data },
                terminal_actions: folded.if_matching.terminal_actions,
            },
            ..folded
        }
    }

    /// Returns the actions for the packet-filter stage; see
    /// [`Self::spec_packet_filter`].
    pub fn packet_filter(&self) -> (r: MatchingActions)
        requires
            self.packet_consistent(),
        ensures
            r == self.spec_packet_filter(),
    {
        let mut actions = MatchingActions::new();
        let mut i: usize = 0;
        while i < self.datatypes.len()
            invariant
                i <= self.datatypes@.len(),
                self.packet_consistent(),
                actions == Self::spec_fold_packet_filter(self.datatypes@, self.level, i as int),
            decreases self.datatypes@.len() - i,
        {
            let dt_actions = self.datatypes[i].packet_filter(&self.level);
            actions.push(&dt_actions);
            i += 1;
        }
        actions.if_matching.data.proto_filter = true;
        actions
    }

    /// The fold of every datatype's protocol-stage actions over the first
    /// `n` datatypes: a flag is raised exactly when some datatype raises it.
    pub open spec fn spec_fold_proto_filter(dts: Seq<DataType>, l: Level, n: int)
        -> MatchingActions {
        MatchingActions {
            if_matched: Actions {
                data: ActionData {
                    packet_deliver: exists|i: int|
                        0 <= i < n && (#[trigger] dts[i]).level is Packet,
                    update_pdu: exists|i: int| 0 <= i < n && (#[trigger] dts[i]).needs_update,
                    reassembled_update_pdu: exists|i: int|
                        0 <= i < n && (#[trigger] dts[i]).needs_update_reassembled,
                    packet_track: exists|i: int| 0 <= i < n && (#[trigger] dts[i]).track_packets,
                    session_track: l is Connection && exists|i: int|
                        0 <= i < n && ((#[trigger] dts[i]).level is Session
                            || dts[i].needs_parse),
                    conn_deliver: l is Connection && n > 0,
                    session_deliver: l is Session && n > 0,
                    ..ActionData::empty()
                },
                terminal_actions: ActionData {
                    packet_deliver: exists|i: int|
                        0 <= i < n && (#[trigger] dts[i]).level is Packet,
                    update_pdu: exists|i: int| 0 <= i < n && (#[trigger] dts[i]).needs_update,
                    reassembled_update_pdu: exists|i: int|
                        0 <= i < n && (#[trigger] dts[i]).needs_update_reassembled,
                    packet_track: exists|i: int| 0 <= i < n && (#[trigger] dts[i]).track_packets,
                    conn_deliver: l is Connection && n > 0,
                    ..ActionData::empty()
                },
            },
            if_matching: Actions {
                data: ActionData {
                    packet_track: exists|i: int|
                        0 <= i < n && ((#[trigger] dts[i]).level is Packet
                            || dts[i].track_packets),
                    update_pdu: exists|i: int| 0 <= i < n && (#[trigger] dts[i]).needs_update,
                    reassembled_update_pdu: exists|i: int|
                        0 <= i < n && (#[trigger] dts[i]).needs_update_reassembled,
                    ..ActionData::empty()
                },
                terminal_actions: ActionData::empty(),
            },
        }
    }

    /// The actions for the protocol-filter stage: the fold of every
    /// datatype's protocol-stage actions, plus connection delivery for a
    /// purely static subscription (it resolves as soon as the filter
    /// matches) and re-applying the filter at the session stage while the
    /// match is still partial.
    pub open spec fn spec_proto_filter(self) -> MatchingActions {
        let folded = Self::spec_fold_proto_filter(
            self.datatypes@,
            self.level,
            self.datatypes@.len() as int,
        );
        MatchingActions {
            if_matched: Actions {
                data: ActionData {
                    conn_deliver: folded.if_matched.data.conn_deliver || self.level is Static,
                    ..folded.if_matched.data
                },
                terminal_actions: ActionData {
                    conn_deliver: folded.if_matched.terminal_actions.conn_deliver || self.level
                        is Static,
                    ..folded.if_matched.terminal_actions
                },
            },
            if_matching: Actions {
                data: ActionData { session_filter: true, ..folded.if_matching.data },
                terminal_actions: folded.if_matching.terminal_actions,
            },
        }
    }

    /// Returns the actions for the protocol-filter stage; see
    /// [`Self::spec_proto_filter`].
    pub fn proto_filter(&self) -> (r: MatchingActions)
        requires
            self.packet_consistent(),
        ensures
            r == self.spec_proto_filter(),
    {
        let mut actions = MatchingActions::new();
        let mut i: usize = 0;
        while i < self.datatypes.len()
            invariant
                i <= self.datatypes@.len(),
                self.packet_consistent(),
                actions == Self::spec_fold_proto_filter(self.datatypes@, self.level, i as int),
            decreases self.datatypes@.len() - i,
        {
            let dt_actions = self.datatypes[i].proto_filter(&self.level);
            actions.push(&dt_actions);
            i += 1;
        }
        if matches!(self.level, Level::Static) {
            actions.if_matched.data.conn_deliver = true;
            actions.if_matched.terminal_actions.conn_deliver = true;
        }
        actions.if_matching.data.session_filter = true;
        actions
    }

    /// The fold of every datatype's session-stage actions over the first
    /// `n` datatypes: a flag is raised exactly when some datatype raises it.
    /// No partial-match bookkeeping survives the session stage.
    pub open spec fn spec_fold_session_filter(dts: Seq<DataType>, l: Level, n: int)
        -> MatchingActions {
        MatchingActions {
            if_matched: Actions {
                data: ActionData {
                    packet_deliver: exists|i: int|
                        0 <= i < n && (#[trigger] dts[i]).level is Packet,
                    update_pdu: exists|i: int| 0 <= i < n && (#[trigger] dts[i]).needs_update,
                    reassembled_update_pdu: exists|i: int|
                        0 <= i < n && (#[trigger] dts[i]).needs_update_reassembled,
                    packet_track: exists|i: int| 0 <= i < n && (#[trigger] dts[i]).track_packets,
                    session_track: l is Connection && exists|i: int|
                        0 <= i < n && ((#[trigger] dts[i]).level is Session
                            || dts[i].needs_parse),
                    conn_deliver: l is Connection && n > 0,
                    ..ActionData::empty()
                },
                terminal_actions: ActionData {
                    packet_deliver: exists|i: int|
                        0 <= i < n && (#[trigger] dts[i]).level is Packet,
                    update_pdu: exists|i: int| 0 <= i < n && (#[trigger] dts[i]).needs_update,
                    reassembled_update_pdu: exists|i: int|
                        0 <= i < n && (#[trigger] dts[i]).needs_update_reassembled,
                    packet_track: exists|i: int| 0 <= i < n && (#[trigger] dts[i]).track_packets,
                    conn_deliver: l is Connection && n > 0,
                    ..ActionData::empty()
                },
            },
            if_matching: Actions::empty(),
        }
    }

    /// The actions for the session-filter stage: the fold of every
    /// datatype's session-stage actions, plus connection delivery for a
    /// purely static subscription not resolved at an earlier stage. This is
    /// the pipeline's last decision stage, so `if_matching` is empty for
    /// every subscription shape.
    pub open spec fn spec_session_filter(self) -> MatchingActions {
        let folded = Self::spec_fold_session_filter(
            self.datatypes@,
            self.level,
            self.datatypes@.len() as int,
        );
        MatchingActions {
            if_matched: Actions {
                data: ActionData {
                    conn_deliver: folded.if_matched.data.conn_deliver || self.level is Static,
                    ..folded.if_matched.data
                },
                terminal_actions: ActionData {
                    conn_deliver: folded.if_matched.terminal_actions.conn_deliver || self.level
                        is Static,
                    ..folded.if_matched.terminal_actions
                },
            },
            if_matching: Actions::empty(),
        }
    }

    /// Returns the actions for the session-filter stage; see
    /// [`Self::spec_session_filter`]. Its `if_matching` is empty for every
    /// subscription shape.
    pub fn session_filter(&self) -> (r: MatchingActions)
        requires
            self.packet_consistent(),
        ensures
            r == self.spec_session_filter(),
            r.if_matching == Actions::empty(),
    {
        let mut actions = MatchingActions::new();
        let mut i: usize = 0;
        while i < self.datatypes.len()
            invariant
                i <= self.datatypes@.len(),
                self.packet_consistent(),
                actions == Self::spec_fold_session_filter(self.datatypes@, self.level, i as int),
            decreases self.datatypes@.len() - i,
        {
            let dt_actions = self.datatypes[i].session_filter(&self.level);
            actions.push(&dt_actions);
            i += 1;
        }
        if matches!(self.level, Level::Static) {
            actions.if_matched.data.conn_deliver = true;
            actions.if_matched.terminal_actions.conn_deliver = true;
        }
        actions
    }

    /// The actions the subscription requires at `filter_layer` when the
    /// filter has terminally matched there. At the session stage of a
    /// connection-level subscription whose filter needs session data, the
    /// session is additionally cached so the filter can be re-applied
    /// against full connection state at termination. The two pure delivery
    /// stages require no further derived action.
    pub open spec fn spec_with_term_filter(
        self,
        filter_layer: FilterLayer,
        pred: Predicate,
    ) -> Actions {
        match filter_layer {
            FilterLayer::PacketContinue => self.spec_packet_continue().if_matched,
            FilterLayer::Packet => self.spec_packet_filter().if_matched,
            FilterLayer::Protocol => self.spec_proto_filter().if_matched,
            FilterLayer::Session => {
                let base = self.spec_session_filter().if_matched;
                if self.level is Connection && pred.on_session {
                    Actions {
                        data: ActionData { session_track: true, ..base.data },
                        terminal_actions: base.terminal_actions,
                    }
                } else {
                    base
                }
            },
            FilterLayer::ConnectionDeliver | FilterLayer::PacketDeliver => Actions::empty(),
        }
    }

    /// Returns the actions the subscription requires at `filter_layer` if
    /// the filter has fully (terminally) matched; see
    /// [`Self::spec_with_term_filter`].
    pub fn with_term_filter(&self, filter_layer: FilterLayer, pred: &Predicate) -> (r: Actions)
        requires
            self.packet_consistent(),
        ensures
            r == self.spec_with_term_filter(filter_layer, *pred),
    {
        match filter_layer {
            FilterLayer::PacketContinue => self.packet_continue().if_matched,
            FilterLayer::Packet => self.packet_filter().if_matched,
            FilterLayer::Protocol => self.proto_filter().if_matched,
            FilterLayer::Session => {
                let mut actions = self.session_filter().if_matched;
                // Cache the session to re-apply the filter at termination.
                if matches!(self.level, Level::Connection) && pred.on_session {
                    actions.data.session_track = true;
                }
                actions
            },
            FilterLayer::ConnectionDeliver | FilterLayer::PacketDeliver => {
                // No further actions at a pure delivery stage.
                Actions::new()
            },
        }
    }

    /// The actions the subscription requires at `filter_layer` while the
    /// filter is still partially matching. There is no partial-match concept
    /// at the two pure delivery stages.
    pub open spec fn spec_with_nonterm_filter(self, filter_layer: FilterLayer) -> Actions {
        match filter_layer {
            FilterLayer::PacketContinue => self.spec_packet_continue().if_matching,
            FilterLayer::Packet => self.spec_packet_filter().if_matching,
            FilterLayer::Protocol => self.spec_proto_filter().if_matching,
            FilterLayer::Session => self.spec_session_filter().if_matching,
            FilterLayer::ConnectionDeliver | FilterLayer::PacketDeliver => Actions::empty(),
        }
    }

    /// Returns the actions the subscription requires at `filter_layer` if
    /// the filter has partially (non-terminally) matched; see
    /// [`Self::spec_with_nonterm_filter`].
    pub fn with_nonterm_filter(&self, filter_layer: FilterLayer) -> (r: Actions)
        requires
            self.packet_consistent(),
        ensures
            r == self.spec_with_nonterm_filter(filter_layer),
    {
        match filter_layer {
            FilterLayer::PacketContinue => self.packet_continue().if_matching,
            FilterLayer::Packet => self.packet_filter().if_matching,
            FilterLayer::Protocol => self.proto_filter().if_matching,
            FilterLayer::Session => self.session_filter().if_matching,
            FilterLayer::ConnectionDeliver | FilterLayer::PacketDeliver => Actions::new(),
        }
    }
}

} // verus!
