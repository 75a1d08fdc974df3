use vstd::hash_set::HashSetWithView;
use vstd::prelude::*;

verus! {

broadcast use vstd::std_specs::hash::group_hash_axioms;

/// The MQTT protocol levels that the broker serves.
#[derive(Clone, Copy, Debug, PartialEq, Eq, Structural)]
pub enum Protocol {
    Mqtt3,
    Mqtt4,
    Mqtt5,
}

/// The protocol level that a CONNECT packet's version byte names, if the broker serves it.
pub open spec fn protocol_of_version(version: u8) -> Option<Protocol> {
    if version == 3 {
        Some(Protocol::Mqtt3)
    } else if version == 4 {
        Some(Protocol::Mqtt4)
    } else if version == 5 {
        Some(Protocol::Mqtt5)
    } else {
        None
    }
}

/// The protocol level named by a CONNECT version byte (3, 4 or 5).
pub fn protocol_from_version(version: u8) -> (p: Option<Protocol>)
    ensures
        p == protocol_of_version(version),
{
    if version == 3 {
        Some(Protocol::Mqtt3)
    } else if version == 4 {
        Some(Protocol::Mqtt4)
    } else if version == 5 {
        Some(Protocol::Mqtt5)
    } else {
        None
    }
}

/// What the dispatcher reads of a network connection: its id and the protocol
/// level recorded for it when it connected, if any.
#[derive(Clone, Copy, Debug, PartialEq, Eq, Structural)]
pub struct Connection {
    pub connection_id: u64,
    pub protocol: Option<Protocol>,
}

/// The kind of an incoming MQTT control packet; a CONNECT carries its
/// protocol version byte.
#[derive(Clone, Copy, Debug, PartialEq, Eq, Structural)]
pub enum Packet {
    Connect { protocol_version: u8 },
    ConnAck,
    Publish,
    PubAck,
    PubRec,
    PubRel,
    PubComp,
    Subscribe,
    SubAck,
    Unsubscribe,
    UnsubAck,
    PingReq,
    PingResp,
    Disconnect,
    Auth,
}

/// The handler of a protocol service that a packet is given to.
#[derive(Clone, Copy, Debug, PartialEq, Eq, Structural)]
pub enum ServiceOp {
    Connect,
    Publish,
    PublishAck,
    PublishRec,
    PublishRel,
    PublishComp,
    Subscribe,
    Unsubscribe,
    Ping,
    Disconnect,
}

/// Reason codes that the dispatcher itself puts in a DISCONNECT.
#[derive(Clone, Copy, Debug, PartialEq, Eq, Structural)]
pub enum DisconnectReason {
    NotAuthorized,
}

/// Return codes that the dispatcher itself puts in a failed CONNACK.
#[derive(Clone, Copy, Debug, PartialEq, Eq, Structural)]
pub enum ConnectFailure {
    UnsupportedProtocolVersion,
    MalformedPacket,
}

/// A response that the dispatcher builds without consulting a service.
#[derive(Clone, Copy, Debug, PartialEq, Eq, Structural)]
pub enum Reply {
    Disconnect { protocol: Protocol, reason: DisconnectReason },
    ConnectFail { protocol: Protocol, code: ConnectFailure },
}

/// What is to be done with a packet.
#[derive(Clone, Copy, Debug, PartialEq, Eq, Structural)]
pub enum Action {
    /// Answer with this response.
    Reply(Reply),
    /// Hand the packet to the handler `op` of the service for `service`,
    /// and answer with what it returns.
    Serve { service: Protocol, op: ServiceOp },
    /// Answer nothing.
    NoReply,
}

/// The decision for one packet: the protocol version to record for the
/// connection first, if any, then the action.
#[derive(Clone, Copy, Debug, PartialEq, Eq, Structural)]
pub struct Step {
    pub record_protocol: Option<u8>,
    pub action: Action,
}

/// The response that a service returned to a CONNECT: a CONNACK with its
/// return code, or some other packet.
#[derive(Clone, Copy, Debug, PartialEq, Eq, Structural)]
pub enum ConnectResponse {
    ConnAck { code: u8 },
    Other,
}

/// The CONNACK return code that means the connection was accepted.
pub const CONNACK_SUCCESS: u8 = 0;

/// The answer to any packet on a connection that has not logged in.
pub open spec fn not_authorized_step() -> Step {
    Step {
        record_protocol: None,
        action: Action::Reply(
            Reply::Disconnect { protocol: Protocol::Mqtt5, reason: DisconnectReason::NotAuthorized },
        ),
    }
}

/// The service handler for a packet other than CONNECT, if it has one.
pub open spec fn handler_of(packet: Packet) -> Option<ServiceOp> {
    match packet {
        Packet::Publish => Some(ServiceOp::Publish),
        Packet::PubAck => Some(ServiceOp::PublishAck),
        Packet::PubRec => Some(ServiceOp::PublishRec),
        Packet::PubRel => Some(ServiceOp::PublishRel),
        Packet::PubComp => Some(ServiceOp::PublishComp),
        Packet::Subscribe => Some(ServiceOp::Subscribe),
        Packet::Unsubscribe => Some(ServiceOp::Unsubscribe),
        Packet::PingReq => Some(ServiceOp::Ping),
        Packet::Disconnect => Some(ServiceOp::Disconnect),
        _ => None,
    }
}

/// The decision for `packet` arriving on `connection`, given whether the
/// connection has logged in.
pub open spec fn step_for(logged_in: bool, connection: Connection, packet: Packet) -> Step {
    if !logged_in {
        not_authorized_step()
    } else {
        match packet {
            Packet::Connect { protocol_version } => Step {
                record_protocol: Some(protocol_version),
                action: match protocol_of_version(protocol_version) {
                    Some(p) => Action::Serve { service: p, op: ServiceOp::Connect },
                    None => Action::Reply(
                        Reply::ConnectFail {
                            protocol: Protocol::Mqtt4,
                            code: ConnectFailure::UnsupportedProtocolVersion,
                        },
                    ),
                },
            },
            _ => Step {
                record_protocol: None,
                action: match handler_of(packet) {
                    Some(op) => match connection.protocol {
                        Some(p) => Action::Serve { service: p, op },
                        None => if packet == Packet::PubAck {
                            Action::NoReply
                        } else {
                            Action::Reply(
                                Reply::ConnectFail {
                                    protocol: Protocol::Mqtt5,
                                    code: ConnectFailure::UnsupportedProtocolVersion,
                                },
                            )
                        },
                    },
                    None => Action::Reply(
                        Reply::ConnectFail {
                            protocol: Protocol::Mqtt5,
                            code: ConnectFailure::MalformedPacket,
                        },
                    ),
                },
            },
        }
    }
}

/// The logged-in connections after a service answered `response` to a
/// CONNECT from `connection_id`.
pub open spec fn logins_after_connect(
    logins: Set<u64>,
    connection_id: u64,
    response: ConnectResponse,
) -> Set<u64> {
    if response == (ConnectResponse::ConnAck { code: CONNACK_SUCCESS }) {
        logins.insert(connection_id)
    } else {
        logins
    }
}

/// The set of connections that have logged in.
pub struct LoginCache {
    logged_in: HashSetWithView<u64>,
}

impl View for LoginCache {
    type V = Set<u64>;

    closed spec fn view(&self) -> Set<u64> {
        self.logged_in@
    }
}

impl LoginCache {
    /// A cache in which no connection has logged in.
    pub fn new() -> (cache: LoginCache)
        ensures
            cache@ == Set::<u64>::empty(),
    {
        LoginCache { logged_in: HashSetWithView::new() }
    }

    /// Whether `connection_id` has logged in.
    pub fn is_login(&self, connection_id: u64) -> (b: bool)
        ensures
            b == self@.contains(connection_id),
    {
        self.logged_in.contains(&connection_id)
    }

    /// Records that `connection_id` has logged in.
    pub fn login_success(&mut self, connection_id: u64)
        ensures
            final(self)@ == old(self)@.insert(connection_id),
    {
        self.logged_in.insert(connection_id);
    }
}

/// Dispatches packets to the services of the three protocol levels. Each
/// service is identified by the protocol level it was built for.
pub struct Command {
    mqtt3_service: Protocol,
    mqtt4_service: Protocol,
    mqtt5_service: Protocol,
    metadata_cache: LoginCache,
}

impl View for Command {
    type V = Set<u64>;

    /// The connections that have logged in.
    closed spec fn view(&self) -> Set<u64> {
        self.metadata_cache@
    }
}

impl Command {
    #[verifier::type_invariant]
    spec fn services_match_levels(self) -> bool {
        &&& self.mqtt3_service == Protocol::Mqtt3
        &&& self.mqtt4_service == Protocol::Mqtt4
        &&& self.mqtt5_service == Protocol::Mqtt5
    }

    /// A dispatcher over services for MQTT 3, 4 and 5, sharing `cache_manager`
    /// as the record of logged-in connections.
    pub fn new(cache_manager: LoginCache) -> (command: Command)
        ensures
            command@ == cache_manager@,
    {
        Command {
            mqtt3_service: Protocol::Mqtt3,
            mqtt4_service: Protocol::Mqtt4,
            mqtt5_service: Protocol::Mqtt5,
            metadata_cache: cache_manager,
        }
    }

    /// The service built for protocol level `p`.
    fn service_for(&self, p: Protocol) -> (s: Protocol)
        ensures
            s == p,
    {
        proof {
            use_type_invariant(self);
        }
        match p {
            Protocol::Mqtt3 => self.mqtt3_service,
            Protocol::Mqtt4 => self.mqtt4_service,
            Protocol::Mqtt5 => self.mqtt5_service,
        }
    }

    /// Whether the connection `connection_id` has logged in.
    pub fn check_login_status(&self, connection_id: u64) -> (b: bool)
        ensures
            b == self@.contains(connection_id),
    {
        self.metadata_cache.is_login(connection_id)
    }

    /// Decides what to do with `packet`, which arrived on `tcp_connection`.
    pub fn apply(&self, tcp_connection: &Connection, packet: &Packet) -> (step: Step)
        ensures
            step == step_for(self@.contains(tcp_connection.connection_id), *tcp_connection, *packet),
            tcp_connection.protocol matches Some(p) ==> (self@.contains(tcp_connection.connection_id)
                && *packet == Packet::Publish ==> step == (Step {
                record_protocol: None,
                action: Action::Serve { service: p, op: ServiceOp::Publish },
            })),
            tcp_connection.protocol matches Some(p) ==> (self@.contains(tcp_connection.connection_id)
                && *packet == Packet::PubAck ==> step == (Step {
                record_protocol: None,
                action: Action::Serve { service: p, op: ServiceOp::PublishAck },
            })),
            tcp_connection.protocol matches Some(p) ==> (self@.contains(tcp_connection.connection_id)
                && *packet == Packet::PubRec ==> step == (Step {
                record_protocol: None,
                action: Action::Serve { service: p, op: ServiceOp::PublishRec },
            })),
            tcp_connection.protocol matches Some(p) ==> (self@.contains(tcp_connection.connection_id)
                && *packet == Packet::PubRel ==> step == (Step {
                record_protocol: None,
                action: Action::Serve { service: p, op: ServiceOp::PublishRel },
            })),
            tcp_connection.protocol matches Some(p) ==> (self@.contains(tcp_connection.connection_id)
                && *packet == Packet::PubComp ==> step == (Step {
                record_protocol: None,
                action: Action::Serve { service: p, op: ServiceOp::PublishComp },
            })),
            tcp_connection.protocol matches Some(p) ==> (self@.contains(tcp_connection.connection_id)
                && *packet == Packet::Subscribe ==> step == (Step {
                record_protocol: None,
                action: Action::Serve { service: p, op: ServiceOp::Subscribe },
            })),
            tcp_connection.protocol matches Some(p) ==> (self@.contains(tcp_connection.connection_id)
                && *packet == Packet::Unsubscribe ==> step == (Step {
                record_protocol: None,
                action: Action::Serve { service: p, op: ServiceOp::Unsubscribe },
            })),
            tcp_connection.protocol matches Some(p) ==> (self@.contains(tcp_connection.connection_id)
                && *packet == Packet::PingReq ==> step == (Step {
                record_protocol: None,
                action: Action::Serve { service: p, op: ServiceOp::Ping },
            })),
            tcp_connection.protocol matches Some(p) ==> (self@.contains(tcp_connection.connection_id)
                && *packet == Packet::Disconnect ==> step == (Step {
                record_protocol: None,
                action: Action::Serve { service: p, op: ServiceOp::Disconnect },
            })),
    {
        if !self.check_login_status(tcp_connection.connection_id) {
            return Step {
                record_protocol: None,
                action: Action::Reply(
                    Reply::Disconnect { protocol: Protocol::Mqtt5, reason: DisconnectReason::NotAuthorized },
                ),
            };
        }
        match *packet {
            Packet::Connect { protocol_version } => {
                let action = match protocol_from_version(protocol_version) {
                    Some(p) => Action::Serve { service: self.service_for(p), op: ServiceOp::Connect },
                    None => Action::Reply(
                        Reply::ConnectFail {
                            protocol: Protocol::Mqtt4,
                            code: ConnectFailure::UnsupportedProtocolVersion,
                        },
                    ),
                };
                Step { record_protocol: Some(protocol_version), action }
            },
            _ => {
                let handler = match *packet {
                    Packet::Publish => Some(ServiceOp::Publish),
                    Packet::PubAck => Some(ServiceOp::PublishAck),
                    Packet::PubRec => Some(ServiceOp::PublishRec),
                    Packet::PubRel => Some(ServiceOp::PublishRel),
                    Packet::PubComp => Some(ServiceOp::PublishComp),
                    Packet::Subscribe => Some(ServiceOp::Subscribe),
                    Packet::Unsubscribe => Some(ServiceOp::Unsubscribe),
                    Packet::PingReq => Some(ServiceOp::Ping),
                    Packet::Disconnect => Some(ServiceOp::Disconnect),
                    _ => None,
                };
                let action = match handler {
                    Some(op) => match tcp_connection.protocol {
                        Some(p) => Action::Serve { service: self.service_for(p), op },
                        None => match *packet {
                            Packet::PubAck => Action::NoReply,
                            _ => Action::Reply(
                                Reply::ConnectFail {
                                    protocol: Protocol::Mqtt5,
                                    code: ConnectFailure::UnsupportedProtocolVersion,
                                },
                            ),
                        },
                    },
                    None => Action::Reply(
                        Reply::ConnectFail {
                            protocol: Protocol::Mqtt5,
                            code: ConnectFailure::MalformedPacket,
                        },
                    ),
                };
                Step { record_protocol: None, action }
            },
        }
    }

    /// Takes note of the response that a service gave to a CONNECT from
    /// `connection_id`: a CONNACK with the success code logs the connection in.
    pub fn record_connect_response(&mut self, connection_id: u64, response: &ConnectResponse)
        ensures
            final(self)@ == logins_after_connect(old(self)@, connection_id, *response),
            *response == (ConnectResponse::ConnAck { code: 0 }) ==> final(self)@ == old(self)@.insert(
                connection_id,
            ),
            *response != (ConnectResponse::ConnAck { code: 0 }) ==> final(self)@ == old(self)@,
    {
        match *response {
            ConnectResponse::ConnAck { code } => {
                if code == CONNACK_SUCCESS {
                    proof {
                        use_type_invariant(&*self);
                    }
                    let mut cache = LoginCache::new();
                    std::mem::swap(&mut cache, &mut self.metadata_cache);
                    cache.login_success(connection_id);
                    std::mem::swap(&mut cache, &mut self.metadata_cache);
                }
            },
            ConnectResponse::Other => {},
        }
    }
}

/// A connection that has not logged in is answered with a DISCONNECT
/// (MQTT 5, not authorized), whatever the packet, and nothing is recorded.
pub proof fn lemma_unauthenticated_rejected(logins: Set<u64>, connection: Connection, packet: Packet)
    requires
        !logins.contains(connection.connection_id),
    ensures
        step_for(logins.contains(connection.connection_id), connection, packet) == not_authorized_step(),
{
}

/// After a service accepts a CONNECT (CONNACK with the success code), the
/// connection is logged in, and no later packet on it is refused as not authorized.
pub proof fn lemma_accepted_connect_logs_in(
    logins: Set<u64>,
    connection: Connection,
    later: Packet,
)
    ensures
        logins_after_connect(
            logins,
            connection.connection_id,
            ConnectResponse::ConnAck { code: CONNACK_SUCCESS },
        ).contains(connection.connection_id),
        step_for(
            logins_after_connect(
                logins,
                connection.connection_id,
                ConnectResponse::ConnAck { code: CONNACK_SUCCESS },
            ).contains(connection.connection_id),
            connection,
            later,
        ) != not_authorized_step(),
{
}

/// Recording a CONNECT response never logs a connection out, and a response
/// other than an accepting CONNACK changes nothing.
pub proof fn lemma_logins_only_grow(logins: Set<u64>, connection_id: u64, response: ConnectResponse)
    ensures
        logins.subset_of(logins_after_connect(logins, connection_id, response)),
        response != (ConnectResponse::ConnAck { code: CONNACK_SUCCESS }) ==> logins_after_connect(
            logins,
            connection_id,
            response,
        ) == logins,
{
}

/// On a logged-in connection, a packet with a handler goes to the service of
/// the protocol level recorded for the connection; with no level recorded, it
/// is answered "unsupported protocol version" (a PUBACK is not answered).
pub proof fn lemma_dispatch_follows_connection_protocol(connection: Connection, packet: Packet)
    requires
        handler_of(packet) is Some,
    ensures
        connection.protocol matches Some(p) ==> step_for(true, connection, packet).action == (
        Action::Serve { service: p, op: handler_of(packet)->0 }),
        connection.protocol is None && packet != Packet::PubAck ==> step_for(
            true,
            connection,
            packet,
        ).action == Action::Reply(
            Reply::ConnectFail {
                protocol: Protocol::Mqtt5,
                code: ConnectFailure::UnsupportedProtocolVersion,
            },
        ),
        step_for(true, connection, packet).record_protocol is None,
{
}

/// On a logged-in connection, a CONNECT always records its version byte, and
/// goes to the service of that level exactly when the level is 3, 4 or 5.
pub proof fn lemma_connect_uses_its_version(connection: Connection, protocol_version: u8)
    ensures
        step_for(true, connection, Packet::Connect { protocol_version }).record_protocol == Some(
            protocol_version,
        ),
        (step_for(true, connection, Packet::Connect { protocol_version }).action is Serve) <==> (3
            <= protocol_version <= 5),
        step_for(true, connection, Packet::Connect { protocol_version }).action is Serve
            ==> protocol_of_version(protocol_version) == Some(
            step_for(true, connection, Packet::Connect { protocol_version }).action->service,
        ),
{
}

/// On a logged-in connection whose recorded level is `p`, each packet kind
/// with a handler goes to the service of level `p`, to its own handler:
/// PUBLISH to publish, PUBACK to the acknowledgement handler, PUBREC,
/// PUBREL and PUBCOMP to theirs, SUBSCRIBE and UNSUBSCRIBE to theirs, PINGREQ
/// to ping, and DISCONNECT to disconnect; nothing is recorded.
pub proof fn lemma_handled_packets_reach_connection_service(connection: Connection, p: Protocol)
    requires
        connection.protocol == Some(p),
    ensures
        step_for(true, connection, Packet::Publish) == (Step {
            record_protocol: None,
            action: Action::Serve { service: p, op: ServiceOp::Publish },
        }),
        step_for(true, connection, Packet::PubAck) == (Step {
            record_protocol: None,
            action: Action::Serve { service: p, op: ServiceOp::PublishAck },
        }),
        step_for(true, connection, Packet::PubRec) == (Step {
            record_protocol: None,
            action: Action::Serve { service: p, op: ServiceOp::PublishRec },
        }),
        step_for(true, connection, Packet::PubRel) == (Step {
            record_protocol: None,
            action: Action::Serve { service: p, op: ServiceOp::PublishRel },
        }),
        step_for(true, connection, Packet::PubComp) == (Step {
            record_protocol: None,
            action: Action::Serve { service: p, op: ServiceOp::PublishComp },
        }),
        step_for(true, connection, Packet::Subscribe) == (Step {
            record_protocol: None,
            action: Action::Serve { service: p, op: ServiceOp::Subscribe },
        }),
        step_for(true, connection, Packet::Unsubscribe) == (Step {
            record_protocol: None,
            action: Action::Serve { service: p, op: ServiceOp::Unsubscribe },
        }),
        step_for(true, connection, Packet::PingReq) == (Step {
            record_protocol: None,
            action: Action::Serve { service: p, op: ServiceOp::Ping },
        }),
        step_for(true, connection, Packet::Disconnect) == (Step {
            record_protocol: None,
            action: Action::Serve { service: p, op: ServiceOp::Disconnect },
        }),
{
}

/// Recording a CONNECT response changes the login status of no connection
/// other than the one that connected, and logs that one in exactly when the
/// response is a CONNACK with return code 0.
pub proof fn lemma_connect_response_touches_only_its_connection(
    logins: Set<u64>,
    connection_id: u64,
    response: ConnectResponse,
    other: u64,
)
    ensures
        other != connection_id ==> (logins_after_connect(logins, connection_id, response).contains(
            other,
        ) == logins.contains(other)),
        logins_after_connect(logins, connection_id, response).contains(connection_id) == (
        logins.contains(connection_id) || response == (ConnectResponse::ConnAck { code: 0 })),
{
}

} // verus!
