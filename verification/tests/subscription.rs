use retina_core::{
    Actions, ConfigurationError, DataType, FilterLayer, Level, Predicate, SubscriptionSpec,
};

fn empty_spec() -> SubscriptionSpec {
    SubscriptionSpec::new(String::from("fil"), String::from("cb"))
}

const LIFECYCLE: [FilterLayer; 5] = [
    FilterLayer::PacketContinue,
    FilterLayer::Packet,
    FilterLayer::Protocol,
    FilterLayer::Session,
    FilterLayer::ConnectionDeliver,
];

#[test]
fn level_precedence_is_sticky() {
    // Connection dominates whatever arrives afterwards.
    let mut sub = empty_spec();
    sub.add_datatype(DataType::new_default_connection("C"));
    assert!(matches!(sub.level, Level::Connection));
    sub.add_datatype(DataType::new_default_session("S", vec![]));
    assert!(matches!(sub.level, Level::Connection));
    sub.add_datatype(DataType::new_default_static("T"));
    assert!(matches!(sub.level, Level::Connection));

    // ... and regardless of arrival order.
    let mut sub = empty_spec();
    sub.add_datatype(DataType::new_default_static("T"));
    assert!(matches!(sub.level, Level::Static));
    sub.add_datatype(DataType::new_default_session("S", vec![]));
    assert!(matches!(sub.level, Level::Session));
    sub.add_datatype(DataType::new_default_connection("C"));
    assert!(matches!(sub.level, Level::Connection));

    // Session outranks Packet; Packet outranks Static.
    let mut sub = empty_spec();
    sub.add_datatype(DataType::new_default_packet("P"));
    assert!(matches!(sub.level, Level::Packet));
    sub.add_datatype(DataType::new_default_session("S", vec![]));
    assert!(matches!(sub.level, Level::Session));

    let mut sub = empty_spec();
    sub.add_datatype(DataType::new_default_static("T"));
    sub.add_datatype(DataType::new_default_packet("P"));
    assert!(matches!(sub.level, Level::Packet));
}

#[test]
fn validate_accepts_packet_with_statics() {
    let mut sub = empty_spec();
    sub.add_datatype(DataType::new_default_packet("P"));
    sub.add_datatype(DataType::new_default_static("T1"));
    sub.add_datatype(DataType::new_default_static("T2"));
    assert!(matches!(sub.level, Level::Packet));
    assert!(sub.validate_spec().is_ok());
}

#[test]
fn validate_accepts_single_session() {
    let mut sub = empty_spec();
    sub.add_datatype(DataType::new_default_session("S", vec![]));
    assert!(sub.validate_spec().is_ok());
}

#[test]
fn validate_rejects_packet_with_connection() {
    let mut sub = empty_spec();
    sub.add_datatype(DataType::new_default_packet("P"));
    sub.add_datatype(DataType::new_default_connection("C"));
    assert_eq!(
        sub.validate_spec(),
        Err(ConfigurationError::PacketInNonPacketSubscription)
    );
}

#[test]
fn validate_rejects_two_sessions() {
    let mut sub = empty_spec();
    sub.add_datatype(DataType::new_default_session("S1", vec![]));
    sub.add_datatype(DataType::new_default_session("S2", vec![]));
    assert_eq!(
        sub.validate_spec(),
        Err(ConfigurationError::MultipleSessionDatatypes)
    );
}

#[test]
fn validate_rejects_two_packet_datatypes() {
    let mut sub = empty_spec();
    sub.add_datatype(DataType::new_default_packet("P1"));
    sub.add_datatype(DataType::new_default_packet("P2"));
    assert!(matches!(sub.level, Level::Packet));
    assert_eq!(
        sub.validate_spec(),
        Err(ConfigurationError::PacketDatatypeCount)
    );
}

#[test]
fn validate_rejects_nonstatic_companion() {
    // A hand-assembled (not derivable) shape: a packet-level subscription
    // holding a non-static companion datatype.
    let sub = SubscriptionSpec {
        datatypes: vec![
            DataType::new_default_packet("P"),
            DataType::new_default_connection("C"),
        ],
        filter: String::from("fil"),
        callback: String::from("cb"),
        level: Level::Packet,
    };
    assert_eq!(
        sub.validate_spec(),
        Err(ConfigurationError::NonStaticInPacketSubscription)
    );
}

#[test]
fn session_filter_keeps_no_partial_state() {
    let mut shapes: Vec<SubscriptionSpec> = vec![
        SubscriptionSpec::new_default_connection(),
        SubscriptionSpec::new_default_session(),
        SubscriptionSpec::new_default_packet(),
        empty_spec(),
    ];
    let mut mixed = empty_spec();
    mixed.add_datatype(DataType::new_default_session("S", vec![]));
    mixed.add_datatype(DataType::new_default_connection("C"));
    mixed.add_datatype(DataType::new_default_static("T"));
    shapes.push(mixed);
    let mut stat = empty_spec();
    stat.add_datatype(DataType::new_default_static("T"));
    shapes.push(stat);

    for sub in &shapes {
        assert_eq!(sub.session_filter().if_matching, Actions::new());
    }
}

#[test]
fn packet_continue_forwards_unless_packet_level() {
    let packet = SubscriptionSpec::new_default_packet();
    let ma = packet.packet_continue();
    assert_eq!(ma.if_matched, Actions::new());
    assert!(ma.if_matching.data.packet_continue);

    let conn = SubscriptionSpec::new_default_connection();
    let ma = conn.packet_continue();
    assert!(ma.if_matched.data.packet_continue);
    assert!(ma.if_matching.data.packet_continue);
}

#[test]
fn static_subscription_resolves_on_match() {
    let mut sub = empty_spec();
    sub.add_datatype(DataType::new_default_static("T"));
    let ma = sub.proto_filter();
    assert!(ma.if_matched.data.conn_deliver);
    assert!(ma.if_matched.terminal_actions.conn_deliver);
    let ma = sub.session_filter();
    assert!(ma.if_matched.data.conn_deliver);
    assert!(ma.if_matched.terminal_actions.conn_deliver);
}

#[test]
fn term_filter_caches_session_for_connection_subscriptions() {
    let sub = SubscriptionSpec::new_default_connection();
    let needs_session = Predicate::new(false, false, true);
    let actions = sub.with_term_filter(FilterLayer::Session, &needs_session);
    assert!(actions.data.session_track);
    let packet_only = Predicate::new(true, false, false);
    let actions = sub.with_term_filter(FilterLayer::Session, &packet_only);
    assert!(!actions.data.session_track);
}

#[test]
fn delivery_stages_need_no_actions() {
    let shapes = [
        SubscriptionSpec::new_default_connection(),
        SubscriptionSpec::new_default_session(),
        SubscriptionSpec::new_default_packet(),
    ];
    let pred = Predicate::new(true, false, false);
    for sub in &shapes {
        for layer in [FilterLayer::ConnectionDeliver, FilterLayer::PacketDeliver] {
            assert_eq!(sub.with_term_filter(layer, &pred), Actions::new());
            assert_eq!(sub.with_nonterm_filter(layer), Actions::new());
        }
    }
}

#[test]
fn nonterm_filter_matches_stage_folds() {
    let sub = SubscriptionSpec::new_default_connection();
    assert_eq!(
        sub.with_nonterm_filter(FilterLayer::Packet),
        sub.packet_filter().if_matching
    );
    assert_eq!(
        sub.with_nonterm_filter(FilterLayer::Protocol),
        sub.proto_filter().if_matching
    );
    assert_eq!(
        sub.with_nonterm_filter(FilterLayer::Session),
        sub.session_filter().if_matching
    );
}

#[test]
fn exactly_one_delivery_stage() {
    let single_granularity = [
        Predicate::new(true, false, false),
        Predicate::new(false, true, false),
        Predicate::new(false, false, true),
    ];

    let mut shapes: Vec<(SubscriptionSpec, &str)> = Vec::new();
    shapes.push((SubscriptionSpec::new_default_connection(), "connection"));
    shapes.push((SubscriptionSpec::new_default_session(), "session"));
    shapes.push((SubscriptionSpec::new_default_packet(), "packet"));
    let mut stat = empty_spec();
    stat.add_datatype(DataType::new_default_static("T"));
    shapes.push((stat, "static"));
    let mut mixed = empty_spec();
    mixed.add_datatype(DataType::new_default_session("S", vec![]));
    mixed.add_datatype(DataType::new_default_connection("C"));
    shapes.push((mixed, "session+connection"));
    let mut pkt_static = empty_spec();
    pkt_static.add_datatype(DataType::new_default_packet("P"));
    pkt_static.add_datatype(DataType::new_default_static("T"));
    shapes.push((pkt_static, "packet+static"));

    for (sub, name) in &shapes {
        assert!(sub.validate_spec().is_ok(), "shape {} should validate", name);
        for pred in single_granularity {
            let delivering: Vec<FilterLayer> = LIFECYCLE
                .iter()
                .copied()
                .filter(|layer| sub.should_deliver(*layer, &pred))
                .collect();
            assert_eq!(
                delivering.len(),
                1,
                "shape {} with pred {:?} delivered at {:?}",
                name,
                pred,
                delivering
            );
        }
    }
}

#[test]
fn delivery_stage_placement() {
    let on_packet = Predicate::new(true, false, false);
    let on_proto = Predicate::new(false, true, false);
    let on_session = Predicate::new(false, false, true);

    let conn = SubscriptionSpec::new_default_connection();
    assert!(conn.should_deliver(FilterLayer::ConnectionDeliver, &on_packet));
    assert!(!conn.should_deliver(FilterLayer::Session, &on_session));

    let session = SubscriptionSpec::new_default_session();
    assert!(session.should_deliver(FilterLayer::Session, &on_proto));
    assert!(!session.should_deliver(FilterLayer::ConnectionDeliver, &on_proto));

    let packet = SubscriptionSpec::new_default_packet();
    assert!(packet.should_deliver(FilterLayer::PacketContinue, &on_packet));
    assert!(packet.should_deliver(FilterLayer::Protocol, &on_proto));
    assert!(packet.should_deliver(FilterLayer::Session, &on_session));
    assert!(!packet.should_deliver(FilterLayer::Packet, &on_packet));

    let mut stat = SubscriptionSpec::new(String::from("fil"), String::from("cb"));
    stat.add_datatype(DataType::new_default_static("T"));
    assert!(stat.should_deliver(FilterLayer::Packet, &on_packet));
    assert!(stat.should_deliver(FilterLayer::ConnectionDeliver, &on_proto));
    assert!(!stat.should_deliver(FilterLayer::Protocol, &on_proto));
}

#[test]
fn formats_callback_and_datatypes() {
    let mut sub = SubscriptionSpec::new(String::from("ipv4"), String::from("cb"));
    assert_eq!(sub.as_str(), "cb()");
    sub.add_datatype(DataType::new_default_session("Session", vec![]));
    assert_eq!(sub.as_str(), "cb(Session)");
    sub.add_datatype(DataType::new_default_connection("Connection"));
    assert_eq!(sub.as_str(), "cb(Session, Connection)");
}

#[test]
fn default_subscriptions() {
    let conn = SubscriptionSpec::new_default_connection();
    assert!(matches!(conn.level, Level::Connection));
    assert_eq!(conn.as_str(), "cb(Connection)");

    let session = SubscriptionSpec::new_default_session();
    assert!(matches!(session.level, Level::Session));
    assert_eq!(session.as_str(), "cb(Session)");

    let packet = SubscriptionSpec::new_default_packet();
    assert!(matches!(packet.level, Level::Packet));
    assert_eq!(packet.as_str(), "cb(Packet)");
}

#[test]
fn scenario_session_connection_folds() {
    // A session datatype with a connection datatype: parsing and PDU
    // updates are required while the filter is still matching, and the
    // session is tracked on a terminal match at the protocol stage.
    let mut sub = empty_spec();
    sub.add_datatype(DataType::new_default_session("Session", vec![]));
    sub.add_datatype(DataType::new_default_connection("Connection"));

    let ma = sub.packet_filter();
    assert!(ma.if_matched.data.proto_probe);
    assert!(ma.if_matched.data.session_track);
    assert!(ma.if_matched.data.conn_deliver);
    assert!(ma.if_matched.data.session_deliver);
    assert!(ma.if_matching.data.proto_filter);
    assert!(!ma.if_matching.data.packet_track);

    let ma = sub.proto_filter();
    assert!(ma.if_matched.data.session_track);
    assert!(!ma.if_matched.terminal_actions.session_track);
    assert!(ma.if_matched.data.conn_deliver);
    assert!(ma.if_matching.data.session_filter);
}
