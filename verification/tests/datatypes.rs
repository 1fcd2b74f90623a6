use retina_core::{DataType, FilterLayer, Level, Predicate, SubscriptionSpec};

const LAYERS: [FilterLayer; 6] = [
    FilterLayer::PacketContinue,
    FilterLayer::Packet,
    FilterLayer::Protocol,
    FilterLayer::Session,
    FilterLayer::ConnectionDeliver,
    FilterLayer::PacketDeliver,
];

#[test]
fn basic_multispec() {
    let datatype_session = DataType::new_default_session("Session", vec![]);
    let datatype_connection = DataType::new_default_connection("Connection");
    let mut sub = SubscriptionSpec::new(String::from(""), String::from("cb"));
    sub.add_datatype(datatype_session);
    assert!(matches!(sub.level, Level::Session));
    sub.add_datatype(datatype_connection);
    assert!(matches!(sub.level, Level::Connection));

    let matching_actions = sub.packet_filter();
    assert!(matching_actions.if_matching.parse_any());
    assert!(matching_actions.if_matching.update_pdu());

    let matching_actions = sub.proto_filter();
    assert!(matching_actions.if_matching.parse_any());
    assert!(matching_actions.if_matching.update_pdu());

    let mut sub = SubscriptionSpec::new(String::from(""), String::from("cb"));
    sub.add_datatype(DataType::new_default_packet("Packet"));
    assert!(sub.proto_filter().if_matched.packet_deliver());
    assert!(sub.proto_filter().if_matching.buffer_frame());
}

#[test]
fn default_constructor_shapes() {
    let conn = DataType::new_default_connection("Conn");
    assert!(matches!(conn.level, Level::Connection));
    assert!(!conn.needs_parse);
    assert!(conn.needs_update);
    assert!(!conn.needs_update_reassembled);
    assert!(!conn.track_packets);
    assert!(conn.stream_protos.is_empty());
    assert_eq!(conn.as_str, "Conn");

    let session = DataType::new_default_session("Sess", vec!["tls", "http"]);
    assert!(matches!(session.level, Level::Session));
    assert!(session.needs_parse);
    assert!(!session.needs_update);
    assert_eq!(session.stream_protos, vec!["tls", "http"]);

    let packet = DataType::new_default_packet("Pkt");
    assert!(matches!(packet.level, Level::Packet));
    assert!(!packet.needs_parse);
    assert!(!packet.needs_update);

    let stat = DataType::new_default_static("Stat");
    assert!(matches!(stat.level, Level::Static));
    assert!(!stat.needs_parse);
    assert!(!stat.needs_update);
}

fn preds() -> [Predicate; 4] {
    [
        Predicate::new(true, false, false),
        Predicate::new(false, true, false),
        Predicate::new(false, false, true),
        Predicate::new(false, false, false),
    ]
}

#[test]
fn packet_datatype_delivery_tables() {
    let dt = DataType::new_default_packet("Packet");
    let sub_level = Level::Packet;
    for pred in preds() {
        for layer in LAYERS {
            let should = dt.should_deliver(&layer, &pred, &sub_level);
            let expected_should = match layer {
                FilterLayer::PacketContinue => pred.on_packet,
                FilterLayer::Protocol => pred.on_proto,
                FilterLayer::Session => pred.on_session,
                FilterLayer::PacketDeliver => true,
                FilterLayer::Packet | FilterLayer::ConnectionDeliver => false,
            };
            assert_eq!(should, expected_should);

            let can = dt.can_deliver(&layer, &pred);
            let expected_can = match layer {
                FilterLayer::PacketContinue => pred.on_packet,
                FilterLayer::Protocol => pred.on_proto || pred.on_packet,
                _ => true,
            };
            assert_eq!(can, expected_can);
        }
    }
}

#[test]
fn connection_datatype_delivery_tables() {
    let dt = DataType::new_default_connection("Connection");
    let sub_level = Level::Connection;
    for pred in preds() {
        for layer in LAYERS {
            let at_termination = matches!(layer, FilterLayer::ConnectionDeliver);
            assert_eq!(dt.should_deliver(&layer, &pred, &sub_level), at_termination);
            assert_eq!(dt.can_deliver(&layer, &pred), at_termination);
        }
    }
}

#[test]
fn session_datatype_delivery_tables() {
    let dt = DataType::new_default_session("Session", vec![]);
    let sub_level = Level::Session;
    for pred in preds() {
        for layer in LAYERS {
            let at_session = matches!(layer, FilterLayer::Session);
            let obtainable = matches!(
                layer,
                FilterLayer::Session | FilterLayer::ConnectionDeliver
            );
            assert_eq!(dt.should_deliver(&layer, &pred, &sub_level), at_session);
            assert_eq!(dt.can_deliver(&layer, &pred), obtainable);
        }
    }
}

#[test]
fn static_datatype_delivery_tables() {
    let dt = DataType::new_default_static("Static");
    for pred in preds() {
        for layer in LAYERS {
            // In a static-only subscription: first packet when the filter
            // can decide there, connection termination otherwise.
            let expected = if pred.on_packet {
                matches!(layer, FilterLayer::Packet)
            } else {
                matches!(layer, FilterLayer::ConnectionDeliver)
            };
            assert_eq!(dt.should_deliver(&layer, &pred, &Level::Static), expected);
            // In a subscription of any higher level, never the trigger.
            for sub_level in [Level::Packet, Level::Connection, Level::Session] {
                assert!(!dt.should_deliver(&layer, &pred, &sub_level));
            }
            assert!(dt.can_deliver(&layer, &pred));
        }
    }
}
