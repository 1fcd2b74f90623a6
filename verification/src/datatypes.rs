//! Delivery-timing semantics per datatype: the abstraction [`Level`] of a
//! subscribable datatype, the [`DataType`] description itself, and the
//! per-datatype derivation of the actions each pipeline stage requires.

use vstd::prelude::*;

use crate::actions::{ActionData, Actions, MatchingActions};
use crate::pipeline::{FilterLayer, Predicate};

verus! {

/// The abstraction levels for subscribable datatypes. The level dictates at
/// what point a datatype can and should be delivered.
#[derive(Clone, Copy, Debug, PartialEq, Eq, Structural)]
pub enum Level {
    /// Deliver per-packet. If needed, packets are cached by the framework
    /// until the filter matches: pre-reassembly for filters that can match
    /// at the packet layer, post-reassembly for all others.
    Packet,
    /// Deliver at connection termination.
    Connection,
    /// Deliver when the application session is parsed. Only one
    /// session-level datatype is permitted per subscription.
    Session,
    /// Deliverable at any point in the connection. Static-only subscriptions
    /// are delivered either on the first packet (if possible) or at
    /// connection termination (otherwise).
    Static,
}

impl Level {
    /// Delivery-precedence rank: `Connection` over `Session` over `Packet`
    /// over `Static`. A subscription's aggregate level is the highest rank
    /// among its datatypes.
    pub open spec fn rank(self) -> nat {
        match self {
            Level::Static => 0,
            Level::Packet => 1,
            Level::Session => 2,
            Level::Connection => 3,
        }
    }

    /// How a subscription's aggregate level changes when a datatype of level
    /// `next` is added: the later delivery point always takes priority, by
    /// the explicit precedence `Connection > Session > Packet > Static`.
    pub open spec fn combine(self, next: Level) -> Level {
        if self is Connection || next is Connection {
            Level::Connection
        } else if self is Session || next is Session {
            Level::Session
        } else if self is Packet || next is Packet {
            Level::Packet
        } else {
            self
        }
    }
}

/// Describes a single subscribable datatype and the operations it requires.
#[derive(Clone, Debug)]
pub struct DataType {
    /// The level of this datatype.
    pub level: Level,
    /// True if the datatype requires parsing application-level sessions.
    pub needs_parse: bool,
    /// True if the datatype requires the framework to buffer matched
    /// sessions. Declared for completeness; the derivation logic decides
    /// session tracking from `level` and `needs_parse` instead.
    pub track_sessions: bool,
    /// True if the datatype requires the `update` hook before reassembly.
    pub needs_update: bool,
    /// True if the datatype requires the `update` hook after reassembly.
    pub needs_update_reassembled: bool,
    /// True if the datatype requires the framework to buffer matched packets.
    pub track_packets: bool,
    /// The application-layer parsers required by this datatype. The
    /// framework loads the union of the parsers required by all datatypes.
    pub stream_protos: Vec<&'static str>,
    /// The name of the datatype, used in code generation and display.
    pub as_str: &'static str,
}

impl DataType {
    /// Creates a typical datatype for tracking per-connection statistics
    /// (connection-level, no parsing, pre-reassembly updates required).
    pub fn new_default_connection(as_str: &'static str) -> (r: DataType)
        ensures
            r.level is Connection,
            !r.needs_parse,
            !r.track_sessions,
            r.needs_update,
            !r.needs_update_reassembled,
            !r.track_packets,
            r.stream_protos@.len() == 0,
            r.as_str@ == as_str@,
    {
        DataType {
            level: Level::Connection,
            needs_parse: false,
            track_sessions: false,
            needs_update: true,
            needs_update_reassembled: false,
            track_packets: false,
            stream_protos: vec![],
            as_str,
        }
    }

    /// Creates a typical datatype for parsed application-layer data
    /// (session-level, parsing required).
    pub fn new_default_session(as_str: &'static str, stream_protos: Vec<&'static str>) -> (r:
        DataType)
        ensures
            r.level is Session,
            r.needs_parse,
            !r.track_sessions,
            !r.needs_update,
            !r.needs_update_reassembled,
            !r.track_packets,
            r.stream_protos@ == stream_protos@,
            r.as_str@ == as_str@,
    {
        DataType {
            level: Level::Session,
            needs_parse: true,
            track_sessions: false,
            needs_update: false,
            needs_update_reassembled: false,
            track_packets: false,
            stream_protos,
            as_str,
        }
    }

    /// Creates a typical datatype for packet data (packet-level, no
    /// operations required).
    pub fn new_default_packet(as_str: &'static str) -> (r: DataType)
        ensures
            r.level is Packet,
            !r.needs_parse,
            !r.track_sessions,
            !r.needs_update,
            !r.needs_update_reassembled,
            !r.track_packets,
            r.stream_protos@.len() == 0,
            r.as_str@ == as_str@,
    {
        DataType {
            level: Level::Packet,
            needs_parse: false,
            track_sessions: false,
            needs_update: false,
            needs_update_reassembled: false,
            track_packets: false,
            stream_protos: vec![],
            as_str,
        }
    }

    /// Creates a typical datatype for static data (static-level, no
    /// operations required).
    pub fn new_default_static(as_str: &'static str) -> (r: DataType)
        ensures
            r.level is Static,
            !r.needs_parse,
            !r.track_sessions,
            !r.needs_update,
            !r.needs_update_reassembled,
            !r.track_packets,
            r.stream_protos@.len() == 0,
            r.as_str@ == as_str@,
    {
        DataType {
            level: Level::Static,
            needs_parse: false,
            track_sessions: false,
            needs_update: false,
            needs_update_reassembled: false,
            track_packets: false,
            stream_protos: vec![],
            as_str,
        }
    }

    /// Whether `filter_layer` is the earliest stage at which this datatype,
    /// under a filter with capabilities `pred`, should be delivered, inside
    /// a subscription of aggregate level `sub_level`.
    ///
    /// Packet-level data is delivered as soon as the filter can terminally
    /// match (and always at the parallel per-packet delivery stage);
    /// connection-level data at termination; session-level data when the
    /// session is parsed. Static data is delivered only by a static-only
    /// subscription: on the first packet when the filter can be decided
    /// there, else at termination — the protocol and session stages can run
    /// more than once per connection, so they never deliver static data.
    pub open spec fn spec_should_deliver(
        self,
        filter_layer: FilterLayer,
        pred: Predicate,
        sub_level: Level,
    ) -> bool {
        match self.level {
            Level::Packet => match filter_layer {
                FilterLayer::PacketContinue => pred.on_packet,
                FilterLayer::Protocol => pred.on_proto,
                FilterLayer::Session => pred.on_session,
                FilterLayer::PacketDeliver => true,
                FilterLayer::ConnectionDeliver | FilterLayer::Packet => false,
            },
            Level::Connection => filter_layer is ConnectionDeliver,
            Level::Session => filter_layer is Session,
            Level::Static => sub_level is Static && (if pred.on_packet {
                filter_layer is Packet
            } else {
                filter_layer is ConnectionDeliver
            }),
        }
    }

    /// Returns whether `filter_layer` is the earliest stage at which this
    /// datatype should be delivered; see [`Self::spec_should_deliver`].
    pub fn should_deliver(
        &self,
        filter_layer: &FilterLayer,
        pred: &Predicate,
        subscription_level: &Level,
    ) -> (r: bool)
        ensures
            r == self.spec_should_deliver(*filter_layer, *pred, *subscription_level),
    {
        match self.level {
            Level::Packet => match filter_layer {
                FilterLayer::PacketContinue => pred.on_packet,
                FilterLayer::Protocol => pred.on_proto,
                FilterLayer::Session => pred.on_session,
                FilterLayer::PacketDeliver => true,
                FilterLayer::ConnectionDeliver | FilterLayer::Packet => {
                    // Packet: action-only stage.
                    // Connection deliver: packets were delivered when
                    // matched, not at termination.
                    false
                },
            },
            Level::Connection => matches!(filter_layer, FilterLayer::ConnectionDeliver),
            Level::Session => matches!(filter_layer, FilterLayer::Session),
            Level::Static => {
                // Delivered by static-only subscriptions, exactly once per
                // connection: on the first packet when possible, else at
                // termination. The protocol and session stages can run more
                // than once per connection, so they never deliver.
                if !matches!(subscription_level, Level::Static) {
                    false
                } else if pred.on_packet {
                    matches!(filter_layer, FilterLayer::Packet)
                } else {
                    matches!(filter_layer, FilterLayer::ConnectionDeliver)
                }
            },
        }
    }

    /// Whether this datatype's data is even obtainable at `filter_layer`
    /// under a filter with capabilities `pred` — a looser gate than
    /// [`Self::spec_should_deliver`].
    pub open spec fn spec_can_deliver(self, filter_layer: FilterLayer, pred: Predicate) -> bool {
        match self.level {
            Level::Packet => match filter_layer {
                FilterLayer::PacketContinue => pred.on_packet,
                FilterLayer::Protocol => pred.on_proto || pred.on_packet,
                _ => true,
            },
            Level::Connection => filter_layer is ConnectionDeliver,
            Level::Session => filter_layer is Session || filter_layer is ConnectionDeliver,
            Level::Static => true,
        }
    }

    /// Returns whether this datatype's data is obtainable at `filter_layer`;
    /// see [`Self::spec_can_deliver`].
    pub fn can_deliver(&self, filter_layer: &FilterLayer, pred: &Predicate) -> (r: bool)
        ensures
            r == self.spec_can_deliver(*filter_layer, *pred),
    {
        match self.level {
            Level::Packet => match filter_layer {
                FilterLayer::PacketContinue => pred.on_packet,
                FilterLayer::Protocol => pred.on_proto || pred.on_packet,
                _ => true,
            },
            Level::Connection => matches!(filter_layer, FilterLayer::ConnectionDeliver),
            Level::Session => matches!(
                filter_layer,
                FilterLayer::Session | FilterLayer::ConnectionDeliver
            ),
            Level::Static => true,
        }
    }

    /// Adds the update-hook flags this datatype requires: to the terminal
    /// sets and to the partial-match data set.
    #[verifier::rlimit(100)]
    fn needs_update(&self, actions: &mut MatchingActions)
        ensures
            final(actions).if_matched.data == (ActionData {
                update_pdu: old(actions).if_matched.data.update_pdu || self.needs_update,
                reassembled_update_pdu: old(actions).if_matched.data.reassembled_update_pdu
                    || self.needs_update_reassembled,
                ..old(actions).if_matched.data
            }),
            final(actions).if_matched.terminal_actions == (ActionData {
                update_pdu: old(actions).if_matched.terminal_actions.update_pdu
                    || self.needs_update,
                reassembled_update_pdu: old(
                    actions,
                ).if_matched.terminal_actions.reassembled_update_pdu
                    || self.needs_update_reassembled,
                ..old(actions).if_matched.terminal_actions
            }),
            final(actions).if_matching.data == (ActionData {
                update_pdu: old(actions).if_matching.data.update_pdu || self.needs_update,
                reassembled_update_pdu: old(actions).if_matching.data.reassembled_update_pdu
                    || self.needs_update_reassembled,
                ..old(actions).if_matching.data
            }),
            final(actions).if_matching.terminal_actions
                == old(actions).if_matching.terminal_actions,
    {
        if self.needs_update {
            actions.if_matched.data.update_pdu = true;
            actions.if_matched.terminal_actions.update_pdu = true;
            actions.if_matching.data.update_pdu = true;
        }
        if self.needs_update_reassembled {
            actions.if_matched.data.reassembled_update_pdu = true;
            actions.if_matched.terminal_actions.reassembled_update_pdu = true;
            actions.if_matching.data.reassembled_update_pdu = true;
        }
    }

    /// Adds the packet-buffering flag this datatype requires: to the
    /// terminal sets and to the partial-match data set.
    #[verifier::rlimit(100)]
    fn track_packets(&self, actions: &mut MatchingActions)
        ensures
            final(actions).if_matched.data == (ActionData {
                packet_track: old(actions).if_matched.data.packet_track || self.track_packets,
                ..old(actions).if_matched.data
            }),
            final(actions).if_matched.terminal_actions == (ActionData {
                packet_track: old(actions).if_matched.terminal_actions.packet_track
                    || self.track_packets,
                ..old(actions).if_matched.terminal_actions
            }),
            final(actions).if_matching.data == (ActionData {
                packet_track: old(actions).if_matching.data.packet_track || self.track_packets,
                ..old(actions).if_matching.data
            }),
            final(actions).if_matching.terminal_actions
                == old(actions).if_matching.terminal_actions,
    {
        if self.track_packets {
            actions.if_matched.data.packet_track = true;
            actions.if_matched.terminal_actions.packet_track = true;
            actions.if_matching.data.packet_track = true;
        }
    }

    /// Adds session tracking on a terminal match, for the protocol and
    /// session stages of a connection-level subscription. The flag is not
    /// terminal here: session tracking becomes terminal only when matched at
    /// the packet layer, and once parsing completes the session is tracked
    /// regardless of which later layer matched.
    fn track_sessions(&self, actions: &mut MatchingActions, sub_level: &Level)
        ensures
            final(actions).if_matched.data == (ActionData {
                session_track: old(actions).if_matched.data.session_track || (*sub_level
                    is Connection && (self.level is Session || self.needs_parse)),
                ..old(actions).if_matched.data
            }),
            final(actions).if_matched.terminal_actions
                == old(actions).if_matched.terminal_actions,
            final(actions).if_matching == old(actions).if_matching,
    {
        if matches!(sub_level, Level::Connection)
            && (matches!(self.level, Level::Session) || self.needs_parse) {
            actions.if_matched.data.session_track = true;
        }
    }

    /// Adds connection delivery on a terminal match of a connection-level
    /// subscription, as a terminal action.
    fn conn_deliver(&self, sub_level: &Level, actions: &mut MatchingActions)
        ensures
            final(actions).if_matched.data == (ActionData {
                conn_deliver: old(actions).if_matched.data.conn_deliver || *sub_level
                    is Connection,
                ..old(actions).if_matched.data
            }),
            final(actions).if_matched.terminal_actions == (ActionData {
                conn_deliver: old(actions).if_matched.terminal_actions.conn_deliver
                    || *sub_level is Connection,
                ..old(actions).if_matched.terminal_actions
            }),
            final(actions).if_matching == old(actions).if_matching,
    {
        if matches!(sub_level, Level::Connection) {
            actions.if_matched.data.conn_deliver = true;
            actions.if_matched.terminal_actions.conn_deliver = true;
        }
    }

    /// The actions this datatype requires at the packet stage (first packet
    /// of a connection), for a terminal and for a partial match.
    pub open spec fn spec_packet_filter(self, sub_level: Level) -> MatchingActions {
        MatchingActions {
            if_matched: Actions {
                data: ActionData {
                    update_pdu: self.needs_update,
                    reassembled_update_pdu: self.needs_update_reassembled,
                    packet_track: self.track_packets,
                    conn_deliver: sub_level is Connection,
                    proto_probe: self.needs_parse,
                    session_track: self.needs_parse && sub_level is Connection,
                    session_deliver: self.level is Session,
                    ..ActionData::empty()
                },
                terminal_actions: ActionData {
                    update_pdu: self.needs_update,
                    reassembled_update_pdu: self.needs_update_reassembled,
                    packet_track: self.track_packets,
                    conn_deliver: sub_level is Connection,
                    proto_probe: self.needs_parse,
                    session_track: self.needs_parse && sub_level is Connection,
                    session_deliver: self.level is Session,
                    ..ActionData::empty()
                },
            },
            if_matching: Actions {
                data: ActionData {
                    packet_track: self.level is Packet || self.track_packets,
                    update_pdu: self.needs_update,
                    reassembled_update_pdu: self.needs_update_reassembled,
                    ..ActionData::empty()
                },
                terminal_actions: ActionData::empty(),
            },
        }
    }

    /// Actions applied for the first packet in a connection if the filter is
    /// matching (non-terminal) or matched (terminal); see
    /// [`Self::spec_packet_filter`]. A packet-level datatype is only legal
    /// inside a packet-level subscription.
    pub fn packet_filter(&self, sub_level: &Level) -> (r: MatchingActions)
        requires
            self.level is Packet ==> *sub_level is Packet,
        ensures
            r == self.spec_packet_filter(*sub_level),
    {
        let mut actions = MatchingActions::new();

        // Packet-level datatypes are delivered as soon as possible
        // (per-packet) and tracked until then; a matched packet-level
        // subscription is delivered in the filter itself.
        if matches!(self.level, Level::Packet) {
            assert(*sub_level is Packet);
            actions.if_matching.data.packet_track = true;
        }

        // Connection- and session-level subscriptions depend on the actions
        // required.
        self.needs_update(&mut actions);
        self.track_packets(&mut actions);
        self.conn_deliver(sub_level, &mut actions);

        if self.needs_parse {
            // The framework must know it is at the probing stage, and that a
            // subscription requiring probing/parsing matched at the packet
            // stage.
            actions.if_matched.data.proto_probe = true;
            actions.if_matched.terminal_actions.proto_probe = true;
            // The session can be tracked when (and if) parsed. On a partial
            // match the protocol is probed anyway, because the protocol
            // filter stage is applied.
            if matches!(sub_level, Level::Connection) {
                actions.if_matched.data.session_track = true;
                actions.if_matched.terminal_actions.session_track = true;
            }
        }

        // A session-level datatype is delivered when the session is parsed.
        if matches!(self.level, Level::Session) {
            actions.if_matched.data.session_deliver = true;
            actions.if_matched.terminal_actions.session_deliver = true;
        }
        actions
    }

    /// The actions this datatype requires at the protocol stage (protocol
    /// identified), for a terminal and for a partial match.
    pub open spec fn spec_proto_filter(self, sub_level: Level) -> MatchingActions {
        MatchingActions {
            if_matched: Actions {
                data: ActionData {
                    packet_deliver: self.level is Packet,
                    update_pdu: self.needs_update,
                    reassembled_update_pdu: self.needs_update_reassembled,
                    packet_track: self.track_packets,
                    session_track: sub_level is Connection && (self.level is Session
                        || self.needs_parse),
                    conn_deliver: sub_level is Connection,
                    session_deliver: sub_level is Session,
                    ..ActionData::empty()
                },
                terminal_actions: ActionData {
                    packet_deliver: self.level is Packet,
                    update_pdu: self.needs_update,
                    reassembled_update_pdu: self.needs_update_reassembled,
                    packet_track: self.track_packets,
                    conn_deliver: sub_level is Connection,
                    ..ActionData::empty()
                },
            },
            if_matching: Actions {
                data: ActionData {
                    packet_track: self.level is Packet || self.track_packets,
                    update_pdu: self.needs_update,
                    reassembled_update_pdu: self.needs_update_reassembled,
                    ..ActionData::empty()
                },
                terminal_actions: ActionData::empty(),
            },
        }
    }

    /// Actions applied when the protocol is identified if the filter is
    /// matching (non-terminal) or matched (terminal); see
    /// [`Self::spec_proto_filter`].
    pub fn proto_filter(&self, sub_level: &Level) -> (r: MatchingActions)
        requires
            self.level is Packet ==> *sub_level is Packet,
        ensures
            r == self.spec_proto_filter(*sub_level),
    {
        let mut actions = MatchingActions::new();
        if matches!(self.level, Level::Packet) {
            assert(*sub_level is Packet);
            // Deliver all packets in the connection; keep tracking in case
            // of a match in the next filter.
            actions.if_matched.data.packet_deliver = true;
            actions.if_matched.terminal_actions.packet_deliver = true;
            actions.if_matching.data.packet_track = true;
        }

        // Connection- and session-level subscriptions depend on the actions
        // required.
        self.needs_update(&mut actions);
        self.track_packets(&mut actions);
        self.track_sessions(&mut actions, sub_level);
        self.conn_deliver(sub_level, &mut actions);

        if matches!(sub_level, Level::Session) {
            // Deliver the session when parsed (done in the session filter).
            actions.if_matched.data.session_deliver = true;
        }

        actions
    }

    /// The actions this datatype requires at the session stage (session
    /// fully parsed), for a terminal and for a partial match. The session
    /// stage is the pipeline's last decision stage, so no partial-match
    /// bookkeeping survives it: `if_matching` is always empty.
    pub open spec fn spec_session_filter(self, sub_level: Level) -> MatchingActions {
        MatchingActions {
            if_matched: Actions {
                data: ActionData {
                    packet_deliver: self.level is Packet,
                    update_pdu: self.needs_update,
                    reassembled_update_pdu: self.needs_update_reassembled,
                    packet_track: self.track_packets,
                    session_track: sub_level is Connection && (self.level is Session
                        || self.needs_parse),
                    conn_deliver: sub_level is Connection,
                    ..ActionData::empty()
                },
                terminal_actions: ActionData {
                    packet_deliver: self.level is Packet,
                    update_pdu: self.needs_update,
                    reassembled_update_pdu: self.needs_update_reassembled,
                    packet_track: self.track_packets,
                    conn_deliver: sub_level is Connection,
                    ..ActionData::empty()
                },
            },
            if_matching: Actions::empty(),
        }
    }

    /// Actions applied when the session is fully parsed if the filter is
    /// matching (non-terminal) or matched (terminal); see
    /// [`Self::spec_session_filter`].
    pub fn session_filter(&self, sub_level: &Level) -> (r: MatchingActions)
        requires
            self.level is Packet ==> *sub_level is Packet,
        ensures
            r == self.spec_session_filter(*sub_level),
    {
        let mut actions = MatchingActions::new();
        if matches!(self.level, Level::Packet) {
            assert(*sub_level is Packet);
            // Deliver all packets in the connection.
            actions.if_matched.data.packet_deliver = true;
            actions.if_matched.terminal_actions.packet_deliver = true;
        }

        self.needs_update(&mut actions);
        self.track_packets(&mut actions);
        self.track_sessions(&mut actions, sub_level);
        self.conn_deliver(sub_level, &mut actions);

        // Session-level subscriptions are delivered in the session filter
        // itself; this is the last filter applied, so nothing is carried for
        // a partial match.
        MatchingActions { if_matched: actions.if_matched, if_matching: Actions::new() }
    }
}

} // verus!
