//! The pipeline-stage tag and the filter-capability record consumed from the
//! surrounding framework.

use vstd::prelude::*;

verus! {

/// One stage of the packet/connection pipeline at which the filter predicate
/// may be (re-)evaluated. The first five stages are pipeline-ordered:
/// `PacketContinue`, `Packet`, `Protocol`, `Session`, `ConnectionDeliver`.
/// `PacketDeliver` is a parallel stage reached for later packets once a
/// packet-level filter has terminally matched.
#[derive(Clone, Copy, Debug, PartialEq, Eq, Structural)]
pub enum FilterLayer {
    /// First decision on a packet, before the connection tracker.
    PacketContinue,
    /// First packet of a tracked connection.
    Packet,
    /// The application-layer protocol has been identified.
    Protocol,
    /// The application-layer session has been parsed.
    Session,
    /// The connection has terminated.
    ConnectionDeliver,
    /// Per-packet delivery after a terminal packet-level match.
    PacketDeliver,
}

impl FilterLayer {
    /// True for the five pipeline-ordered stages a connection passes through
    /// exactly once each; false for the parallel per-packet delivery stage.
    pub open spec fn is_lifecycle_stage(self) -> bool {
        !(self is PacketDeliver)
    }
}

/// Reports whether a filter expression is structurally evaluable at each
/// granularity: from packet headers alone, once the protocol is identified,
/// or once the session is parsed.
#[derive(Clone, Copy, Debug, PartialEq, Eq, Structural)]
pub struct Predicate {
    /// The filter can be decided from packet headers alone.
    pub on_packet: bool,
    /// The filter can be decided once the protocol is identified.
    pub on_proto: bool,
    /// The filter can be decided once the session is parsed.
    pub on_session: bool,
}

impl Predicate {
    /// True if the filter is decidable at exactly one granularity, as a
    /// predicate over a single field of a real filter expression is.
    pub open spec fn single_granularity(self) -> bool {
        (self.on_packet && !self.on_proto && !self.on_session)
            || (!self.on_packet && self.on_proto && !self.on_session)
            || (!self.on_packet && !self.on_proto && self.on_session)
    }

    /// Creates a capability record.
    pub fn new(on_packet: bool, on_proto: bool, on_session: bool) -> (r: Predicate)
        ensures
            r == (Predicate { on_packet, on_proto, on_session }),
    {
        Predicate { on_packet, on_proto, on_session }
    }
}

} // verus!
