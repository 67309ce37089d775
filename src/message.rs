//! The outbound messages of a probe: a closed union over the handshake
//! message and the status-state messages.
use vstd::prelude::*;

verus! {

/// The wire-protocol revision declared in every handshake.
pub const PROTOCOL_NUMBER: u32 = 754;

/// The sub-protocol that a handshake announces.
#[derive(Clone, Copy, Debug, PartialEq, Eq, Structural)]
pub enum ConnectionIntent {
    Game,
    Status,
    Login,
}

/// The protocol state a message belongs to; the wire encoder frames a
/// message according to it.
#[derive(Clone, Copy, Debug, PartialEq, Eq, Structural)]
pub enum ProtocolState {
    Handshake,
    Status,
}

/// The endpoint that every connection goes to.
#[derive(Clone, Debug)]
pub struct Endpoint {
    pub hostname: String,
    pub port: u16,
}

/// The endpoint as plain values.
pub struct EndpointModel {
    pub hostname: Seq<char>,
    pub port: u16,
}

impl View for Endpoint {
    type V = EndpointModel;

    open spec fn view(&self) -> EndpointModel {
        EndpointModel { hostname: self.hostname@, port: self.port }
    }
}

impl Endpoint {
    pub fn new(hostname: String, port: u16) -> (r: Endpoint)
        ensures
            r@ == (EndpointModel { hostname: hostname@, port }),
    {
        Endpoint { hostname, port }
    }
}

/// The connection-intention (handshake) message.
#[derive(Clone, Debug)]
pub struct ClientIntention {
    pub protocol_version: u32,
    pub hostname: String,
    pub port: u16,
    pub intention: ConnectionIntent,
}

/// A message of the status state.
#[derive(Clone, Copy, Debug, PartialEq, Eq, Structural)]
pub enum StatusMessage {
    StatusRequest,
    PingRequest { time: i64 },
}

/// The envelope that lets either kind of message go through one write path.
#[derive(Clone, Debug)]
pub enum OutboundMessage {
    Handshake(ClientIntention),
    Status(StatusMessage),
}

/// An outbound message as plain values.
pub enum MessageModel {
    Intention { protocol_version: u32, hostname: Seq<char>, port: u16, intention: ConnectionIntent },
    StatusRequest,
    PingRequest { time: i64 },
}

impl View for OutboundMessage {
    type V = MessageModel;

    open spec fn view(&self) -> MessageModel {
        match self {
            OutboundMessage::Handshake(i) => MessageModel::Intention {
                protocol_version: i.protocol_version,
                hostname: i.hostname@,
                port: i.port,
                intention: i.intention,
            },
            OutboundMessage::Status(StatusMessage::StatusRequest) => MessageModel::StatusRequest,
            OutboundMessage::Status(StatusMessage::PingRequest { time }) => MessageModel::PingRequest {
                time: *time,
            },
        }
    }
}

/// The handshake that opens every probe: the fixed protocol revision, the
/// endpoint's host and port, and the status sub-protocol.
pub open spec fn probe_intention(ep: EndpointModel) -> MessageModel {
    MessageModel::Intention {
        protocol_version: PROTOCOL_NUMBER,
        hostname: ep.hostname,
        port: ep.port,
        intention: ConnectionIntent::Status,
    }
}

/// The three messages written on each connection, in order.
pub open spec fn probe_messages(ep: EndpointModel) -> Seq<MessageModel> {
    seq![probe_intention(ep), MessageModel::StatusRequest, MessageModel::PingRequest { time: 0 }]
}

/// The state a message is framed in.
pub open spec fn state_of(m: MessageModel) -> ProtocolState {
    match m {
        MessageModel::Intention { .. } => ProtocolState::Handshake,
        _ => ProtocolState::Status,
    }
}

/// The wire identifier of a message within its protocol state: the
/// handshake and the status request are packet 0 of their states, the ping
/// is packet 1 of the status state.
pub open spec fn message_id(m: MessageModel) -> u32 {
    match m {
        MessageModel::Intention { .. } => 0,
        MessageModel::StatusRequest => 0,
        MessageModel::PingRequest { .. } => 1,
    }
}

impl OutboundMessage {
    /// The wire identifier of the wrapped message; the encoder writes it in
    /// front of the message's fields.
    pub fn id(&self) -> (r: u32)
        ensures
            r == message_id(self@),
    {
        match self {
            OutboundMessage::Handshake(_) => 0,
            OutboundMessage::Status(StatusMessage::StatusRequest) => 0,
            OutboundMessage::Status(StatusMessage::PingRequest { .. }) => 1,
        }
    }

    /// The protocol state the wrapped message belongs to.
    pub fn state(&self) -> (r: ProtocolState)
        ensures
            r == state_of(self@),
    {
        match self {
            OutboundMessage::Handshake(_) => ProtocolState::Handshake,
            OutboundMessage::Status(_) => ProtocolState::Status,
        }
    }
}

/// The handshake for `ep`.
pub fn handshake_message(ep: &Endpoint) -> (r: OutboundMessage)
    ensures
        r@ == probe_intention(ep@),
{
    OutboundMessage::Handshake(
        ClientIntention {
            protocol_version: PROTOCOL_NUMBER,
            hostname: ep.hostname.clone(),
            port: ep.port,
            intention: ConnectionIntent::Status,
        },
    )
}

/// The status request, which carries no fields.
pub fn status_request_message() -> (r: OutboundMessage)
    ensures
        r@ == MessageModel::StatusRequest,
{
    OutboundMessage::Status(StatusMessage::StatusRequest)
}

/// The ping sent right after the status request; its time is always zero.
pub fn ping_message() -> (r: OutboundMessage)
    ensures
        r@ == (MessageModel::PingRequest { time: 0 }),
{
    OutboundMessage::Status(StatusMessage::PingRequest { time: 0 })
}

/// The message at position `index` of the probe for `ep`.
pub fn probe_message(ep: &Endpoint, index: usize) -> (r: OutboundMessage)
    requires
        index < 3,
    ensures
        r@ == probe_messages(ep@)[index as int],
{
    if index == 0 {
        handshake_message(ep)
    } else if index == 1 {
        status_request_message()
    } else {
        ping_message()
    }
}

/// All three messages of the probe for `ep`, in the order they are written.
pub fn probe_sequence(ep: &Endpoint) -> (r: Vec<OutboundMessage>)
    ensures
        r@.len() == 3,
        forall|i: int| 0 <= i < 3 ==> #[trigger] r@[i]@ == probe_messages(ep@)[i],
{
    let mut r: Vec<OutboundMessage> = Vec::new();
    let mut i: usize = 0;
    while i < 3
        invariant
            i <= 3,
            r@.len() == i,
            forall|j: int| 0 <= j < i ==> #[trigger] r@[j]@ == probe_messages(ep@)[j],
        decreases 3 - i,
    {
        r.push(probe_message(ep, i));
        i = i + 1;
    }
    r
}

} // verus!
