//! The engine's global guarantees, stated and proved over the contracts of
//! the derivation functions: level aggregation is a sticky precedence,
//! validation accepts and rejects exactly the documented shapes, and a
//! validated subscription is delivered at exactly one lifecycle stage.

use vstd::prelude::*;

use crate::datatypes::{DataType, Level};
use crate::pipeline::{FilterLayer, Predicate};
use crate::subscription::{
    count_level, count_level_upto, derived_level, ConfigurationError, SubscriptionSpec,
};

verus! {

/// Aggregating levels follows the explicit precedence
/// `Connection > Session > Packet > Static`, independent of arrival order:
/// the combination of two levels is the higher-ranked of the two, the
/// operation is commutative, and the result never ranks below either
/// argument. In particular a level of `Connection` is sticky: once reached,
/// no later datatype lowers it.
pub proof fn lemma_level_precedence(a: Level, b: Level)
    ensures
        a.combine(b) == (if a.rank() >= b.rank() {
            a
        } else {
            b
        }),
        a.combine(b) == b.combine(a),
        a.combine(b).rank() >= a.rank(),
        a.combine(b).rank() >= b.rank(),
        a is Connection ==> a.combine(b) is Connection,
        b is Connection ==> a.combine(b) is Connection,
{
}

/// The count of datatypes at one level among the first `n` lies between 0
/// and `n`.
pub proof fn lemma_count_bounds(dts: Seq<DataType>, level: Level, n: int)
    requires
        0 <= n,
    ensures
        0 <= count_level_upto(dts, level, n) <= n,
    decreases n,
{
    if n > 0 {
        lemma_count_bounds(dts, level, n - 1);
    }
}

/// The count of datatypes at one level among the first `n` is zero exactly
/// when none of them has that level.
pub proof fn lemma_count_zero(dts: Seq<DataType>, level: Level, n: int)
    requires
        0 <= n,
    ensures
        (count_level_upto(dts, level, n) == 0) <==> (forall|i: int|
            0 <= i < n ==> (#[trigger] dts[i]).level != level),
    decreases n,
{
    if n > 0 {
        lemma_count_zero(dts, level, n - 1);
        lemma_count_bounds(dts, level, n - 1);
    }
}

/// When every datatype among the first `n` is packet- or static-level, the
/// two counts partition: they sum to `n`.
pub proof fn lemma_count_packet_static_partition(dts: Seq<DataType>, n: int)
    requires
        0 <= n,
        forall|i: int|
            0 <= i < n ==> ((#[trigger] dts[i]).level is Packet || dts[i].level is Static),
    ensures
        count_level_upto(dts, Level::Packet, n) + count_level_upto(dts, Level::Static, n) == n,
    decreases n,
{
    if n > 0 {
        lemma_count_packet_static_partition(dts, n - 1);
    }
}

/// Validation accepts one packet-level datatype together with any number of
/// static datatypes: the canonical shape of a packet-level subscription.
pub proof fn lemma_validate_accepts_packet_with_statics(s: SubscriptionSpec)
    requires
        s.level is Packet,
        count_level(s.datatypes@, Level::Packet) == 1,
        forall|i: int|
            0 <= i < s.datatypes@.len() ==> ((#[trigger] s.datatypes@[i]).level is Packet
                || s.datatypes@[i].level is Static),
    ensures
        s.spec_validate() is Ok,
{
    let dts = s.datatypes@;
    let n = dts.len() as int;
    lemma_count_packet_static_partition(dts, n);
    lemma_count_zero(dts, Level::Session, n);
}

/// Validation rejects any packet-level datatype inside a subscription whose
/// aggregate level is not `Packet`, whatever else the subscription holds.
pub proof fn lemma_validate_rejects_packet_in_nonpacket(s: SubscriptionSpec)
    requires
        !(s.level is Packet),
        count_level(s.datatypes@, Level::Packet) != 0,
    ensures
        s.spec_validate() == Err::<(), _>(ConfigurationError::PacketInNonPacketSubscription),
{
}

/// Validation rejects every subscription holding more than one
/// session-level datatype, whatever its aggregate level.
pub proof fn lemma_validate_rejects_multiple_sessions(s: SubscriptionSpec)
    requires
        count_level(s.datatypes@, Level::Session) > 1,
    ensures
        !(s.spec_validate() is Ok),
{
}

/// What the derived aggregate level reveals about the datatypes it was
/// folded from: `Static` means all datatypes are static; `Connection` means
/// some datatype is connection-level; `Session` means some datatype is
/// session-level and none is connection-level; `Packet` means some datatype
/// is packet-level and the rest are static.
pub proof fn lemma_derived_level_cases(dts: Seq<DataType>)
    ensures
        (derived_level(dts) is Static) <==> (forall|i: int|
            0 <= i < dts.len() ==> (#[trigger] dts[i]).level is Static),
        (derived_level(dts) is Connection) <==> (exists|i: int|
            0 <= i < dts.len() && (#[trigger] dts[i]).level is Connection),
        (derived_level(dts) is Session) ==> ((exists|i: int|
            0 <= i < dts.len() && (#[trigger] dts[i]).level is Session) && (forall|i: int|
            0 <= i < dts.len() ==> !((#[trigger] dts[i]).level is Connection))),
        (derived_level(dts) is Packet) ==> ((exists|i: int|
            0 <= i < dts.len() && (#[trigger] dts[i]).level is Packet) && (forall|i: int|
            0 <= i < dts.len() ==> ((#[trigger] dts[i]).level is Packet
                || dts[i].level is Static))),
    decreases dts.len(),
{
    if dts.len() == 0 {
    } else {
        let n = dts.len() as int;
        let prefix = dts.drop_last();
        let d = dts.last();
        lemma_derived_level_cases(prefix);
        assert(prefix.len() == n - 1);
        assert(forall|i: int| 0 <= i < n - 1 ==> prefix[i] == #[trigger] dts[i]);
        assert(d == dts[n - 1]);
        assert(derived_level(dts) == derived_level(prefix).combine(d.level));

        // Static: both the prefix fold and the last datatype are static.
        if derived_level(dts) is Static {
            assert forall|i: int| 0 <= i < n implies (#[trigger] dts[i]).level is Static by {
                if i < n - 1 {
                    assert(prefix[i].level is Static);
                } else {
                    assert(dts[i] == d);
                }
            }
        }
        if forall|i: int| 0 <= i < n ==> (#[trigger] dts[i]).level is Static {
            assert forall|i: int|
                0 <= i < n - 1 implies (#[trigger] prefix[i]).level is Static by {
                assert(prefix[i] == dts[i]);
            }
            assert(derived_level(prefix) is Static);
            assert(derived_level(dts) is Static);
        }

        // Connection: exactly when some datatype is connection-level.
        if derived_level(dts) is Connection {
            if d.level is Connection {
                assert(dts[n - 1].level is Connection);
            } else {
                assert(derived_level(prefix) is Connection);
                let j = choose|i: int|
                    0 <= i < prefix.len() && (#[trigger] prefix[i]).level is Connection;
                assert(dts[j].level is Connection);
            }
            assert(exists|i: int| 0 <= i < n && (#[trigger] dts[i]).level is Connection);
        }
        if exists|i: int| 0 <= i < n && (#[trigger] dts[i]).level is Connection {
            let j = choose|i: int| 0 <= i < n && (#[trigger] dts[i]).level is Connection;
            if j < n - 1 {
                assert(prefix[j].level is Connection);
                assert(exists|i: int|
                    0 <= i < prefix.len() && (#[trigger] prefix[i]).level is Connection);
                assert(derived_level(prefix) is Connection);
            } else {
                assert(d.level is Connection);
            }
            assert(derived_level(dts) is Connection);
        }

        // Session: some session-level datatype, no connection-level one.
        if derived_level(dts) is Session {
            assert(!(derived_level(prefix) is Connection) && !(d.level is Connection));
            if d.level is Session {
                assert(dts[n - 1].level is Session);
            } else {
                assert(derived_level(prefix) is Session);
                let j = choose|i: int|
                    0 <= i < prefix.len() && (#[trigger] prefix[i]).level is Session;
                assert(dts[j].level is Session);
            }
            assert(exists|i: int| 0 <= i < n && (#[trigger] dts[i]).level is Session);
            assert forall|i: int|
                0 <= i < n implies !((#[trigger] dts[i]).level is Connection) by {
                if i < n - 1 {
                    assert(prefix[i] == dts[i]);
                    assert(!(exists|k: int|
                        0 <= k < prefix.len() && (#[trigger] prefix[k]).level is Connection));
                } else {
                    assert(dts[i] == d);
                }
            }
        }

        // Packet: some packet-level datatype, the rest static.
        if derived_level(dts) is Packet {
            assert(!(derived_level(prefix) is Connection) && !(d.level is Connection));
            assert(!(derived_level(prefix) is Session) && !(d.level is Session));
            if d.level is Packet {
                assert(dts[n - 1].level is Packet);
            } else {
                assert(derived_level(prefix) is Packet);
                let j = choose|i: int|
                    0 <= i < prefix.len() && (#[trigger] prefix[i]).level is Packet;
                assert(dts[j].level is Packet);
            }
            assert(exists|i: int| 0 <= i < n && (#[trigger] dts[i]).level is Packet);
            assert forall|i: int|
                0 <= i < n implies ((#[trigger] dts[i]).level is Packet
                || dts[i].level is Static) by {
                if i < n - 1 {
                    assert(prefix[i] == dts[i]);
                    if derived_level(prefix) is Packet {
                    } else {
                        assert(derived_level(prefix) is Static);
                        assert(prefix[i].level is Static);
                    }
                } else {
                    assert(dts[i] == d);
                }
            }
        }
    }
}

/// The single stage at which a subscription of this shape is delivered on a
/// terminal match: connection-level at termination, session-level when the
/// session is parsed, static-only on the first packet when the filter can
/// decide there and otherwise at termination, and packet-level at the
/// earliest stage whose granularity the filter supports.
pub open spec fn spec_delivery_stage(s: SubscriptionSpec, pred: Predicate) -> FilterLayer {
    match s.level {
        Level::Connection => FilterLayer::ConnectionDeliver,
        Level::Session => FilterLayer::Session,
        Level::Static => if pred.on_packet {
            FilterLayer::Packet
        } else {
            FilterLayer::ConnectionDeliver
        },
        Level::Packet => if pred.on_packet {
            FilterLayer::PacketContinue
        } else if pred.on_proto {
            FilterLayer::Protocol
        } else {
            FilterLayer::Session
        },
    }
}

/// No double and no missed delivery: for a validated, non-empty subscription
/// whose level is the one derived from its datatypes, and a filter predicate
/// decidable at exactly one granularity, `should_deliver` holds at exactly
/// one of the five lifecycle stages — the stage given by
/// [`spec_delivery_stage`] — over a connection's ordered stage sequence.
pub proof fn lemma_single_delivery_stage(s: SubscriptionSpec, pred: Predicate)
    requires
        s.datatypes@.len() > 0,
        s.level == derived_level(s.datatypes@),
        s.spec_validate() is Ok,
        pred.single_granularity(),
    ensures
        forall|layer: FilterLayer|
            layer.is_lifecycle_stage() ==> (s.spec_should_deliver(layer, pred) <==> layer
                == spec_delivery_stage(s, pred)),
{
    let dts = s.datatypes@;
    let n = dts.len() as int;
    lemma_derived_level_cases(dts);
    let w = spec_delivery_stage(s, pred);
    assert forall|layer: FilterLayer|
        layer.is_lifecycle_stage() implies (s.spec_should_deliver(layer, pred) <==> layer
        == w) by {
        match s.level {
            Level::Connection => {
                let j = choose|i: int|
                    0 <= i < dts.len() && (#[trigger] dts[i]).level is Connection;
                if layer is ConnectionDeliver {
                    assert(dts[j].spec_should_deliver(layer, pred, s.level));
                    assert forall|i: int|
                        0 <= i < n implies (#[trigger] dts[i]).spec_can_deliver(
                        layer,
                        pred,
                    ) by {}
                    assert(s.spec_should_deliver(layer, pred));
                } else {
                    // The connection-level datatype's data exists only at
                    // termination, which gates delivery everywhere earlier.
                    assert(!dts[j].spec_can_deliver(layer, pred));
                    assert(!s.spec_should_deliver(layer, pred));
                }
            },
            Level::Session => {
                let j = choose|i: int|
                    0 <= i < dts.len() && (#[trigger] dts[i]).level is Session;
                if layer is Session {
                    assert(dts[j].spec_should_deliver(layer, pred, s.level));
                    assert forall|i: int|
                        0 <= i < n implies (#[trigger] dts[i]).spec_can_deliver(
                        layer,
                        pred,
                    ) by {}
                    assert(s.spec_should_deliver(layer, pred));
                } else if layer is ConnectionDeliver {
                    // Nothing is left to deliver at termination: the parsed
                    // session was delivered at the session stage.
                    assert forall|i: int|
                        0 <= i < n implies !(#[trigger] dts[i]).spec_should_deliver(
                        layer,
                        pred,
                        s.level,
                    ) by {}
                    assert(!s.spec_should_deliver(layer, pred));
                } else {
                    // The session is not parsed yet, which gates delivery.
                    assert(!dts[j].spec_can_deliver(layer, pred));
                    assert(!s.spec_should_deliver(layer, pred));
                }
            },
            Level::Static => {
                assert(dts[0].level is Static);
                if layer == w {
                    assert(dts[0].spec_should_deliver(layer, pred, s.level));
                    assert forall|i: int|
                        0 <= i < n implies (#[trigger] dts[i]).spec_can_deliver(
                        layer,
                        pred,
                    ) by {}
                    assert(s.spec_should_deliver(layer, pred));
                } else {
                    assert forall|i: int|
                        0 <= i < n implies !(#[trigger] dts[i]).spec_should_deliver(
                        layer,
                        pred,
                        s.level,
                    ) by {}
                    assert(!s.spec_should_deliver(layer, pred));
                }
            },
            Level::Packet => {
                let j = choose|i: int|
                    0 <= i < dts.len() && (#[trigger] dts[i]).level is Packet;
                if layer == w {
                    assert(dts[j].spec_should_deliver(layer, pred, s.level));
                    assert forall|i: int|
                        0 <= i < n implies (#[trigger] dts[i]).spec_can_deliver(
                        layer,
                        pred,
                    ) by {}
                    assert(s.spec_should_deliver(layer, pred));
                } else {
                    // At every other lifecycle stage no datatype is at its
                    // delivery point: the filter's one granularity selects a
                    // single stage for the packet-level datatype, and static
                    // companions only deliver in static-only subscriptions.
                    assert forall|i: int|
                        0 <= i < n implies !(#[trigger] dts[i]).spec_should_deliver(
                        layer,
                        pred,
                        s.level,
                    ) by {}
                    assert(!s.spec_should_deliver(layer, pred));
                }
            },
        }
    }
}

} // verus!
