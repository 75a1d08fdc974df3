use robustmq::command::{
    protocol_from_version, Action, Command, ConnectFailure, ConnectResponse, Connection,
    DisconnectReason, LoginCache, Packet, Protocol, Reply, ServiceOp, Step, CONNACK_SUCCESS,
};

fn logged_in(ids: &[u64]) -> Command {
    let mut cache = LoginCache::new();
    for id in ids {
        cache.login_success(*id);
    }
    Command::new(cache)
}

fn not_authorized() -> Step {
    Step {
        record_protocol: None,
        action: Action::Reply(Reply::Disconnect {
            protocol: Protocol::Mqtt5,
            reason: DisconnectReason::NotAuthorized,
        }),
    }
}

#[test]
fn versions_map_to_protocol_levels() {
    assert_eq!(protocol_from_version(3), Some(Protocol::Mqtt3));
    assert_eq!(protocol_from_version(4), Some(Protocol::Mqtt4));
    assert_eq!(protocol_from_version(5), Some(Protocol::Mqtt5));
    assert_eq!(protocol_from_version(2), None);
    assert_eq!(protocol_from_version(6), None);
}

#[test]
fn packets_from_unknown_connections_are_not_authorized() {
    let command = logged_in(&[1]);
    let conn = Connection { connection_id: 2, protocol: Some(Protocol::Mqtt4) };
    assert_eq!(command.apply(&conn, &Packet::Publish), not_authorized());
    assert_eq!(
        command.apply(&conn, &Packet::Connect { protocol_version: 4 }),
        not_authorized()
    );
}

#[test]
fn connect_is_served_by_the_level_of_its_version() {
    let command = logged_in(&[7]);
    let conn = Connection { connection_id: 7, protocol: None };
    for (v, p) in [(3u8, Protocol::Mqtt3), (4, Protocol::Mqtt4), (5, Protocol::Mqtt5)] {
        assert_eq!(
            command.apply(&conn, &Packet::Connect { protocol_version: v }),
            Step {
                record_protocol: Some(v),
                action: Action::Serve { service: p, op: ServiceOp::Connect }
            }
        );
    }
}

#[test]
fn connect_with_unknown_version_is_refused_after_recording_it() {
    let command = logged_in(&[7]);
    let conn = Connection { connection_id: 7, protocol: None };
    assert_eq!(
        command.apply(&conn, &Packet::Connect { protocol_version: 9 }),
        Step {
            record_protocol: Some(9),
            action: Action::Reply(Reply::ConnectFail {
                protocol: Protocol::Mqtt4,
                code: ConnectFailure::UnsupportedProtocolVersion
            })
        }
    );
}

#[test]
fn packets_go_to_the_service_of_the_connection_level() {
    let command = logged_in(&[7]);
    let conn = Connection { connection_id: 7, protocol: Some(Protocol::Mqtt3) };
    let cases = [
        (Packet::Publish, ServiceOp::Publish),
        (Packet::PubAck, ServiceOp::PublishAck),
        (Packet::PubRec, ServiceOp::PublishRec),
        (Packet::PubRel, ServiceOp::PublishRel),
        (Packet::PubComp, ServiceOp::PublishComp),
        (Packet::Subscribe, ServiceOp::Subscribe),
        (Packet::Unsubscribe, ServiceOp::Unsubscribe),
        (Packet::PingReq, ServiceOp::Ping),
        (Packet::Disconnect, ServiceOp::Disconnect),
    ];
    for (packet, op) in cases {
        assert_eq!(
            command.apply(&conn, &packet),
            Step {
                record_protocol: None,
                action: Action::Serve { service: Protocol::Mqtt3, op }
            }
        );
    }
}

#[test]
fn packets_without_a_level_are_refused_except_puback() {
    let command = logged_in(&[7]);
    let conn = Connection { connection_id: 7, protocol: None };
    assert_eq!(
        command.apply(&conn, &Packet::Subscribe).action,
        Action::Reply(Reply::ConnectFail {
            protocol: Protocol::Mqtt5,
            code: ConnectFailure::UnsupportedProtocolVersion
        })
    );
    assert_eq!(command.apply(&conn, &Packet::PubAck).action, Action::NoReply);
}

#[test]
fn unexpected_packets_are_malformed() {
    let command = logged_in(&[7]);
    let conn = Connection { connection_id: 7, protocol: Some(Protocol::Mqtt5) };
    for packet in [
        Packet::ConnAck,
        Packet::SubAck,
        Packet::UnsubAck,
        Packet::PingResp,
        Packet::Auth,
    ] {
        assert_eq!(
            command.apply(&conn, &packet).action,
            Action::Reply(Reply::ConnectFail {
                protocol: Protocol::Mqtt5,
                code: ConnectFailure::MalformedPacket
            })
        );
    }
}

#[test]
fn accepted_connect_logs_the_connection_in() {
    let mut command = logged_in(&[]);
    assert!(!command.check_login_status(3));
    command.record_connect_response(3, &ConnectResponse::ConnAck { code: CONNACK_SUCCESS });
    assert!(command.check_login_status(3));
    let conn = Connection { connection_id: 3, protocol: Some(Protocol::Mqtt5) };
    assert_ne!(command.apply(&conn, &Packet::PingReq), not_authorized());
}

#[test]
fn refused_connect_changes_nothing() {
    let mut command = logged_in(&[1]);
    command.record_connect_response(3, &ConnectResponse::ConnAck { code: 0x87 });
    command.record_connect_response(4, &ConnectResponse::Other);
    assert!(!command.check_login_status(3));
    assert!(!command.check_login_status(4));
    assert!(command.check_login_status(1));
}
