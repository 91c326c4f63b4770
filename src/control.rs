//! Control-channel session logic: which clients are connected, and what
//! the server does with each message a client sends.
use vstd::prelude::*;
use crate::clock::{network_time, ClockManager, ClockView};
use crate::messages::{
    ClockSyncMessage, ClockSyncResponse, ErrorMessage, HeartbeatMessage, HelloMessage,
    MediaControlMessage, Message,
};
use crate::protocol::{is_v4_uuid, new_uuid, ErrorCode, MessageHeader, NodeType};
use crate::sync::ClockSync;

verus! {

broadcast use vstd::string::to_string_from_display_ensures_for_str;

/// Protocol version announced in the welcome.
pub open spec fn server_protocol_version() -> Seq<char> {
    seq!['0', '.', '1', '.', '0']
}

/// Capabilities announced in the welcome.
pub open spec fn server_capabilities() -> Seq<Seq<char>> {
    seq![
        seq!['c', 'l', 'o', 'c', 'k', '_', 's', 'y', 'n', 'c'],
        seq!['m', 'e', 'd', 'i', 'a', '_', 's', 't', 'r', 'e', 'a', 'm', 'i', 'n', 'g'],
        seq!['c', 'l', 'u', 's', 't', 'e', 'r'],
    ]
}

/// What the transport must do after a client message.
#[derive(Debug)]
pub enum ControlAction {
    /// Register the client with the media server, then send it the message.
    Welcome(Message),
    /// Send the message back to the client.
    Reply(Message),
    /// Hand the playback command to the media server.
    Forward(MediaControlMessage),
    /// Nothing to do for this kind of message.
    Ignore,
}

/// Mathematical state of one connection.
pub ghost struct ConnectionView {
    pub client_id: u128,
    pub node_type: NodeType,
    pub capabilities: Seq<Seq<char>>,
}

/// Mathematical state of a [`ControlServer`].
pub ghost struct ControlView {
    pub server_id: u128,
    pub clients: Seq<ConnectionView>,
}

pub open spec fn is_connected(c: Seq<ConnectionView>, id: u128) -> bool {
    exists|i: int| 0 <= i < c.len() && c[i].client_id == id
}

/// Position of the connection of client `id`.
pub open spec fn connection_index(c: Seq<ConnectionView>, id: u128) -> int {
    choose|i: int| 0 <= i < c.len() && c[i].client_id == id
}

pub open spec fn distinct_connections(c: Seq<ConnectionView>) -> bool {
    forall|i: int, j: int| 0 <= i < j < c.len() ==> c[i].client_id != c[j].client_id
}

/// Connections after a client said hello: its entry is replaced, or added.
pub open spec fn after_hello(c: Seq<ConnectionView>, v: ConnectionView) -> Seq<ConnectionView> {
    if is_connected(c, v.client_id) {
        c.update(connection_index(c, v.client_id), v)
    } else {
        c.push(v)
    }
}

struct ClientConnection {
    client_id: u128,
    node_type: NodeType,
    capabilities: Vec<String>,
}

spec fn connection_view(c: ClientConnection) -> ConnectionView {
    ConnectionView {
        client_id: c.client_id,
        node_type: c.node_type,
        capabilities: c.capabilities@.map_values(|s: String| s@),
    }
}

/// Connected clients of the control channel.
pub struct ControlServer {
    server_id: u128,
    clients: Vec<ClientConnection>,
}

impl View for ControlServer {
    type V = ControlView;

    closed spec fn view(&self) -> ControlView {
        ControlView {
            server_id: self.server_id,
            clients: self.clients@.map_values(|c: ClientConnection| connection_view(c)),
        }
    }
}

impl ControlServer {
    /// Well-formedness: one entry per client.
    pub open spec fn wf(&self) -> bool {
        distinct_connections(self@.clients)
    }

    /// A server with a fresh random identifier and no client.
    pub fn new() -> (r: Self)
        ensures
            r.wf(),
            is_v4_uuid(r@.server_id),
            r@.clients == Seq::<ConnectionView>::empty(),
    {
        let r = ControlServer { server_id: new_uuid(), clients: Vec::new() };
        assert(r@.clients =~= Seq::<ConnectionView>::empty());
        r
    }

    /// Identifier of this server.
    pub fn server_id(&self) -> (r: u128)
        ensures
            r == self@.server_id,
    {
        self.server_id
    }

    /// Number of connected clients.
    pub fn client_count(&self) -> (r: usize)
        ensures
            r == self@.clients.len(),
    {
        self.clients.len()
    }

    /// Identifiers of the connected clients, in order of connection.
    pub fn connected_clients(&self) -> (r: Vec<u128>)
        ensures
            r@.len() == self@.clients.len(),
            forall|i: int| 0 <= i < r@.len() ==> r@[i] == self@.clients[i].client_id,
    {
        let mut out: Vec<u128> = Vec::new();
        let mut i: usize = 0;
        while i < self.clients.len()
            invariant
                i <= self.clients@.len(),
                out@.len() == i,
                forall|k: int| 0 <= k < i ==> out@[k] == self@.clients[k].client_id,
            decreases self.clients@.len() - i,
        {
            out.push(self.clients[i].client_id);
            i = i + 1;
        }
        out
    }

    fn find_client(&self, client_id: u128) -> (r: Option<usize>)
        ensures
            match r {
                Some(i) => i < self@.clients.len() && self@.clients[i as int].client_id == client_id,
                None => !is_connected(self@.clients, client_id),
            },
    {
        let mut i: usize = 0;
        while i < self.clients.len()
            invariant
                i <= self.clients@.len(),
                forall|k: int| 0 <= k < i ==> self@.clients[k].client_id != client_id,
            decreases self.clients@.len() - i,
        {
            if self.clients[i].client_id == client_id {
                return Some(i);
            }
            i = i + 1;
        }
        None
    }

    /// Whether a client is connected.
    pub fn is_client_connected(&self, client_id: u128) -> (r: bool)
        ensures
            r == is_connected(self@.clients, client_id),
    {
        self.find_client(client_id).is_some()
    }

    /// The server's hello: protocol version 0.1.0, its capabilities, the
    /// master role and no token.
    fn welcome(&self) -> (r: HelloMessage)
        ensures
            r.header.node_id == self@.server_id,
            r.header.sequence == 0,
            r.protocol_version@ == server_protocol_version(),
            r.capabilities@.map_values(|s: String| s@) == server_capabilities(),
            r.node_type == NodeType::Master,
            r.auth_token.is_none(),
    {
        let clock_sync = "clock_sync".to_string();
        let media_streaming = "media_streaming".to_string();
        let cluster = "cluster".to_string();
        let version = "0.1.0".to_string();
        proof {
            reveal_strlit("clock_sync");
            reveal_strlit("media_streaming");
            reveal_strlit("cluster");
            reveal_strlit("0.1.0");
            assert(clock_sync@ =~= server_capabilities()[0]);
            assert(media_streaming@ =~= server_capabilities()[1]);
            assert(cluster@ =~= server_capabilities()[2]);
            assert(version@ =~= server_protocol_version());
        }
        let mut capabilities: Vec<String> = Vec::new();
        capabilities.push(clock_sync);
        capabilities.push(media_streaming);
        capabilities.push(cluster);
        assert(capabilities@.map_values(|s: String| s@) =~= server_capabilities());
        HelloMessage {
            header: MessageHeader::new(self.server_id, 0),
            protocol_version: version,
            capabilities,
            node_type: NodeType::Master,
            auth_token: None,
        }
    }

    /// Registers a client from its hello (replacing an earlier entry of the
    /// same client) and returns the server's welcome.
    pub fn handle_hello(&mut self, client_id: u128, hello: HelloMessage) -> (r: HelloMessage)
        requires
            old(self).wf(),
        ensures
            final(self).wf(),
            final(self)@.server_id == old(self)@.server_id,
            final(self)@.clients == after_hello(
                old(self)@.clients,
                ConnectionView {
                    client_id,
                    node_type: hello.node_type,
                    capabilities: hello.capabilities@.map_values(|s: String| s@),
                },
            ),
            r.header.node_id == old(self)@.server_id,
            r.header.sequence == 0,
            r.protocol_version@ == server_protocol_version(),
            r.capabilities@.map_values(|s: String| s@) == server_capabilities(),
            r.node_type == NodeType::Master,
            r.auth_token.is_none(),
    {
        let c = ClientConnection { client_id, node_type: hello.node_type, capabilities: hello.capabilities };
        match self.find_client(client_id) {
            Some(i) => {
                proof {
                    let j = connection_index(old(self)@.clients, client_id);
                    assert(old(self)@.clients[j].client_id == client_id);
                }
                self.clients.set(i, c);
                assert(self@.clients =~= old(self)@.clients.update(i as int, connection_view(c)));
            },
            None => {
                self.clients.push(c);
                assert(self@.clients =~= old(self)@.clients.push(connection_view(c)));
            },
        }
        self.welcome()
    }

    /// Forgets a client, if connected.
    pub fn remove_client(&mut self, client_id: u128)
        requires
            old(self).wf(),
        ensures
            final(self).wf(),
            final(self)@.server_id == old(self)@.server_id,
            final(self)@.clients == if is_connected(old(self)@.clients, client_id) {
                old(self)@.clients.remove(connection_index(old(self)@.clients, client_id))
            } else {
                old(self)@.clients
            },
    {
        match self.find_client(client_id) {
            Some(i) => {
                proof {
                    let j = connection_index(old(self)@.clients, client_id);
                    assert(old(self)@.clients[j].client_id == client_id);
                }
                let _ = self.clients.remove(i);
                assert(self@.clients =~= old(self)@.clients.remove(i as int));
            },
            None => {},
        }
    }

    /// The reply to a clock synchronization request, stamped with the
    /// network clock on receipt and again just before sending.
    pub fn handle_clock_sync(&self, sync: &ClockSyncMessage, clock: &mut ClockManager) -> (r: ClockSyncResponse)
        ensures
            r.header.node_id == sync.header.node_id,
            r.header.sequence == 0,
            r.t1 == sync.t1,
            r.t2 <= r.t3,
            final(clock)@ == (ClockView { last_local: final(clock)@.last_local, ..old(clock)@ }),
            final(clock).wf() == old(clock).wf(),
            exists|received: int|
                old(clock)@.last_local <= received <= final(clock)@.last_local && r.t2 == network_time(
                    old(clock)@,
                    received,
                ),
            r.t3 == network_time(final(clock)@, final(clock)@.last_local as int),
    {
        ClockSync::create_response(sync, clock)
    }

    /// The heartbeat echoed back with the server's network time.
    pub fn handle_heartbeat(&self, heartbeat: HeartbeatMessage, clock: &mut ClockManager) -> (r: HeartbeatMessage)
        ensures
            r.header == heartbeat.header,
            r.client_time == heartbeat.client_time,
            final(clock)@ == (ClockView { last_local: final(clock)@.last_local, ..old(clock)@ }),
            final(clock).wf() == old(clock).wf(),
            final(clock)@.last_local >= old(clock)@.last_local,
            r.server_time == Some(network_time(final(clock)@, final(clock)@.last_local as int)),
    {
        HeartbeatMessage { server_time: Some(clock.now()), ..heartbeat }
    }

    /// An error report for a connected client; `None` when the client is
    /// not connected.
    pub fn error_for(&self, client_id: u128, code: ErrorCode, message: String) -> (r: Option<ErrorMessage>)
        ensures
            r is Some <==> is_connected(self@.clients, client_id),
            r matches Some(e) ==> e.header.node_id == self@.server_id && e.header.sequence == 0
                && e.code == code && e.message@ == message@ && e.details.is_none(),
    {
        if self.find_client(client_id).is_none() {
            return None;
        }
        Some(
            ErrorMessage {
                header: MessageHeader::new(self.server_id, 0),
                code,
                message,
                details: None,
            },
        )
    }

    /// Decides what to do with a message from a client: a hello registers
    /// the client and is answered with the welcome, a clock synchronization
    /// request and a heartbeat are answered at once, a playback command goes
    /// to the media server, and every other kind is ignored.
    pub fn handle_message(&mut self, client_id: u128, message: Message, clock: &mut ClockManager) -> (r: ControlAction)
        requires
            old(self).wf(),
        ensures
            final(self).wf(),
            final(self)@.server_id == old(self)@.server_id,
            final(clock).wf() == old(clock).wf(),
            match message {
                Message::Hello(h) => {
                    &&& final(self)@.clients == after_hello(
                        old(self)@.clients,
                        ConnectionView {
                            client_id,
                            node_type: h.node_type,
                            capabilities: h.capabilities@.map_values(|s: String| s@),
                        },
                    )
                    &&& (r matches ControlAction::Welcome(Message::Hello(w)) && w.header.node_id
                        == old(self)@.server_id && w.header.sequence == 0 && w.protocol_version@
                        == server_protocol_version() && w.capabilities@.map_values(|s: String| s@)
                        == server_capabilities() && w.node_type == NodeType::Master
                        && w.auth_token.is_none())
                    &&& final(clock)@ == old(clock)@
                },
                Message::ClockSync(s) => {
                    &&& final(self)@ == old(self)@
                    &&& (r matches ControlAction::Reply(Message::ClockSyncResponse(x)) && x.t1 == s.t1
                        && x.header.node_id == s.header.node_id && x.header.sequence == 0
                        && x.t2 <= x.t3 && (exists|received: int|
                        old(clock)@.last_local <= received <= final(clock)@.last_local && x.t2
                            == network_time(old(clock)@, received)) && x.t3 == network_time(
                        final(clock)@,
                        final(clock)@.last_local as int,
                    ))
                    &&& final(clock)@ == (ClockView { last_local: final(clock)@.last_local, ..old(clock)@ })
                },
                Message::MediaControl(c) => {
                    &&& final(self)@ == old(self)@
                    &&& (r matches ControlAction::Forward(f) && f.header == c.header && f.action
                        == c.action && f.track_id@ == c.track_id@ && f.start_at == c.start_at
                        && f.params == c.params)
                    &&& final(clock)@ == old(clock)@
                },
                Message::Heartbeat(b) => {
                    &&& final(self)@ == old(self)@
                    &&& (r matches ControlAction::Reply(Message::Heartbeat(x)) && x.header == b.header
                        && x.client_time == b.client_time && x.server_time == Some(
                        network_time(final(clock)@, final(clock)@.last_local as int),
                    ))
                    &&& final(clock)@ == (ClockView { last_local: final(clock)@.last_local, ..old(clock)@ })
                    &&& final(clock)@.last_local >= old(clock)@.last_local
                },
                _ => final(self)@ == old(self)@ && r is Ignore && final(clock)@ == old(clock)@,
            },
    {
        match message {
            Message::Hello(hello) => {
                let welcome = self.handle_hello(client_id, hello);
                ControlAction::Welcome(Message::Hello(welcome))
            },
            Message::ClockSync(sync) => {
                let response = self.handle_clock_sync(&sync, clock);
                ControlAction::Reply(Message::ClockSyncResponse(response))
            },
            Message::MediaControl(control) => ControlAction::Forward(control),
            Message::Heartbeat(heartbeat) => {
                let response = self.handle_heartbeat(heartbeat, clock);
                ControlAction::Reply(Message::Heartbeat(response))
            },
            _ => ControlAction::Ignore,
        }
    }
}

} // verus!
