use crate::packet_mapping::{spec_report_of, spec_starts_with, PacketMap};
use crate::packets::HandshakePacket;
use crate::handlers::handshake::spec_next_state;
use crate::protocol::{spec_version_for_number, ProtocolVersion, State};
use crate::text::{concat, contains_str, parse_u64, spec_occurs_at, spec_parse_u64, spec_words, split_whitespace, str_eq};
use vstd::prelude::*;

verus! {

/// The state of the backend server that is woken up on demand.
#[derive(Clone, Copy, Debug, PartialEq, Eq, Structural)]
pub enum ServerStatus {
    Offline,
    Starting,
    Online,
}

impl ServerStatus {
    /// The status of the backend: offline without a process, online once it
    /// printed that it is done starting, starting in between.
    pub fn of(process_running: bool, done: bool) -> (s: ServerStatus)
        ensures
            !process_running ==> s == ServerStatus::Offline,
            process_running && done ==> s == ServerStatus::Online,
            process_running && !done ==> s == ServerStatus::Starting,
    {
        if !process_running {
            ServerStatus::Offline
        } else if done {
            ServerStatus::Online
        } else {
            ServerStatus::Starting
        }
    }
}

/// What a line the backend prints once it is done starting holds.
pub const DONE_MESSAGE: &'static str = "Done";

/// Whether a line the backend printed says that it is done starting: it
/// holds "Done".
pub fn line_marks_done(line: &str) -> (b: bool)
    ensures
        b == exists|i: int| #[trigger] spec_occurs_at(line@, "Done"@, i),
{
    contains_str(line, DONE_MESSAGE)
}

/// The version line the server list shows while the backend is asleep or
/// waking up: its text and a protocol number of 0.
pub fn status_version(status: ServerStatus) -> (v: (&'static str, i32))
    ensures
        status == ServerStatus::Offline ==> v.0@ == "§5Sleeping"@,
        status == ServerStatus::Starting ==> v.0@ == "§6Starting…"@,
        status == ServerStatus::Online ==> v.0@ == "§4Error"@,
        v.1 == 0,
{
    match status {
        ServerStatus::Offline => ("§5Sleeping", 0),
        ServerStatus::Starting => ("§6Starting…", 0),
        ServerStatus::Online => ("§4Error", 0),
    }
}

/// The reason a player who tries to join a sleeping backend is disconnected
/// with.
pub fn login_wait_message(name: &str) -> (m: String)
    ensures
        m@ == "Hello "@ + name@ + "! This server was automatically started and will be online soon."@,
{
    let head = concat("Hello ", name);
    concat(head.as_str(), "! This server was automatically started and will be online soon.")
}

/// Whether a handshake should wake the backend up: a client that wants to
/// log in, while the backend does not answer.
pub fn should_start_server(next_state: State, backend_available: bool) -> (b: bool)
    ensures
        b == (next_state == State::Login && !backend_available),
{
    next_state == State::Login && !backend_available
}

/// Whether the backend should be stopped after a client left: when no
/// player is connected any more and it is not already offline.
pub fn should_schedule_stop(connected_players: usize, status: ServerStatus) -> (b: bool)
    ensures
        b == (connected_players == 0 && status != ServerStatus::Offline),
{
    connected_players == 0 && status != ServerStatus::Offline
}

/// The program and the arguments of the command that starts the backend:
/// its first word, then the others; none for a command without words.
pub fn split_command(command: &str) -> (r: Option<(String, Vec<String>)>)
    ensures
        spec_words(command@).len() == 0 ==> r is None,
        spec_words(command@).len() > 0 ==> (r matches Some((program, args)) && {
            &&& program@ == spec_words(command@)[0]
            &&& args@.len() == spec_words(command@).len() - 1
            &&& forall|k: int| 0 <= k < args@.len() ==> #[trigger] args@[k]@ == spec_words(command@)[k + 1]
        }),
{
    let mut words = split_whitespace(command);
    if words.len() == 0 {
        None
    } else {
        let ghost all = words@;
        let program = words.remove(0);
        assert forall|k: int| 0 <= k < words@.len() implies #[trigger] words@[k]@ == spec_words(command@)[k + 1] by {
            assert(words@[k] == all[k + 1]);
        }
        Some((program, words))
    }
}

/// Where the wake-up proxy reads its settings from.
#[derive(Clone, Debug, PartialEq, Eq)]
pub struct WakeSettings {
    /// The directory of the generated game data.
    pub data_dir: String,
    /// The command that starts the backend.
    pub startup: String,
    /// How long the backend keeps running once nobody is connected, in seconds.
    pub sleep_delay_secs: u64,
}

/// The settings are missing the command that starts the backend.
#[derive(Clone, Copy, Debug, PartialEq, Eq, Structural)]
pub struct MissingStartupCommand;

impl WakeSettings {
    /// Reads the settings from the values of the environment variables
    /// `DATA_DIR` (default `./data/generated`), `STARTUP` (required) and
    /// `SLEEP_DELAY` (seconds; 3600 when absent or not a number).
    pub fn from_values(data_dir: Option<String>, startup: Option<String>, sleep_delay: Option<String>) -> (r: Result<WakeSettings, MissingStartupCommand>)
        ensures
            startup is None ==> r == Err::<WakeSettings, MissingStartupCommand>(MissingStartupCommand),
            startup matches Some(command) ==> (r matches Ok(w) && {
                &&& w.startup == command
                &&& w.data_dir@ == match data_dir {
                    Some(d) => d@,
                    None => "./data/generated"@,
                }
                &&& w.sleep_delay_secs == match sleep_delay {
                    Some(v) => match spec_parse_u64(v@) {
                        Some(secs) => secs,
                        None => 3600,
                    },
                    None => 3600,
                }
            }),
    {
        let data_dir = match data_dir {
            Some(d) => d,
            None => "./data/generated".to_owned(),
        };
        let startup = match startup {
            Some(s) => s,
            None => return Err(MissingStartupCommand),
        };
        let sleep_delay_secs = match sleep_delay {
            Some(v) => match parse_u64(v.as_str()) {
                Some(secs) => secs,
                None => 3600,
            },
            None => 3600,
        };
        Ok(WakeSettings { data_dir, startup, sleep_delay_secs })
    }
}

/// The packets the wake-up proxy answers itself.
#[derive(Clone, Copy, Debug, PartialEq, Eq, Structural)]
pub enum WakePacket {
    Handshake,
    LoginStart,
    StatusRequest,
    PingRequest,
    Other,
}

impl WakePacket {
    /// The packet that a report name designates.
    pub fn from_name(name: &str) -> (p: WakePacket)
        ensures
            name@ == "handshake/serverbound/minecraft:intention"@ ==> p == WakePacket::Handshake,
            name@ == "login/serverbound/minecraft:hello"@ ==> p == WakePacket::LoginStart,
            name@ == "status/serverbound/minecraft:status_request"@ ==> p == WakePacket::StatusRequest,
            name@ == "status/serverbound/minecraft:ping_request"@ ==> p == WakePacket::PingRequest,
            name@ != "handshake/serverbound/minecraft:intention"@ && name@ != "login/serverbound/minecraft:hello"@
                && name@ != "status/serverbound/minecraft:status_request"@ && name@ != "status/serverbound/minecraft:ping_request"@
                ==> p == WakePacket::Other,
    {
        proof {
            reveal_strlit("handshake/serverbound/minecraft:intention");
            reveal_strlit("login/serverbound/minecraft:hello");
            reveal_strlit("status/serverbound/minecraft:status_request");
            reveal_strlit("status/serverbound/minecraft:ping_request");
            assert("handshake/serverbound/minecraft:intention"@[0] != "login/serverbound/minecraft:hello"@[0]);
            assert("handshake/serverbound/minecraft:intention"@[0] != "status/serverbound/minecraft:status_request"@[0]);
            assert("handshake/serverbound/minecraft:intention"@[0] != "status/serverbound/minecraft:ping_request"@[0]);
            assert("login/serverbound/minecraft:hello"@[0] != "status/serverbound/minecraft:status_request"@[0]);
            assert("login/serverbound/minecraft:hello"@[0] != "status/serverbound/minecraft:ping_request"@[0]);
            assert("status/serverbound/minecraft:status_request"@.len() != "status/serverbound/minecraft:ping_request"@.len());
        }
        if str_eq(name, "handshake/serverbound/minecraft:intention") {
            WakePacket::Handshake
        } else if str_eq(name, "login/serverbound/minecraft:hello") {
            WakePacket::LoginStart
        } else if str_eq(name, "status/serverbound/minecraft:status_request") {
            WakePacket::StatusRequest
        } else if str_eq(name, "status/serverbound/minecraft:ping_request") {
            WakePacket::PingRequest
        } else {
            WakePacket::Other
        }
    }
}

/// What the wake-up proxy knows of one client connection.
pub struct WakeClient {
    pub state: State,
    pub version: Option<ProtocolVersion>,
    pub backend_server_available: bool,
    /// The handshake to replay to the backend once it answers.
    pub handshake_packet_replay: Option<HandshakePacket>,
}

impl WakeClient {
    /// A client that has just connected.
    pub fn new() -> (c: WakeClient)
        ensures
            c.state == State::Handshake,
            c.version is None,
            !c.backend_server_available,
            c.handshake_packet_replay is None,
    {
        WakeClient { state: State::Handshake, version: None, backend_server_available: false, handshake_packet_replay: None }
    }

    pub fn update_state(&mut self, new_state: State)
        ensures
            final(self).state == new_state,
            final(self).version == old(self).version,
            final(self).backend_server_available == old(self).backend_server_available,
            final(self).handshake_packet_replay == old(self).handshake_packet_replay,
    {
        self.state = new_state;
    }

    pub fn set_protocol(&mut self, protocol_version: ProtocolVersion)
        ensures
            final(self).version == Some(protocol_version),
            final(self).state == old(self).state,
            final(self).backend_server_available == old(self).backend_server_available,
            final(self).handshake_packet_replay == old(self).handshake_packet_replay,
    {
        self.version = Some(protocol_version);
    }

    /// The client's version, or any version before it said.
    pub fn protocol_version(&self) -> (v: ProtocolVersion)
        ensures
            v == match self.version {
                Some(w) => w,
                None => ProtocolVersion::Any,
            },
    {
        match self.version {
            Some(v) => v,
            None => ProtocolVersion::Any,
        }
    }

    /// Records that the backend answers, and the handshake to replay to it.
    pub fn set_backend_server_available(&mut self, packet: HandshakePacket)
        ensures
            final(self).backend_server_available,
            final(self).handshake_packet_replay == Some(packet),
            final(self).state == old(self).state,
            final(self).version == old(self).version,
    {
        self.backend_server_available = true;
        self.handshake_packet_replay = Some(packet);
    }

    pub fn get_handshake_packet_replay(&self) -> (p: &Option<HandshakePacket>)
        ensures
            *p == self.handshake_packet_replay,
    {
        &self.handshake_packet_replay
    }

    pub fn is_backend_server_available(&self) -> (b: bool)
        ensures
            b == self.backend_server_available,
    {
        self.backend_server_available
    }

    /// The name of a packet the client sent, looked up in the packet report
    /// of its version among the serverbound packets of its state; none when
    /// the report is not loaded or has no such packet.
    pub fn get_packet_name_from_id(&self, packet_map: &PacketMap, packet_id: u8) -> (name: Option<String>)
        ensures
            ({
                let v = match self.version {
                    Some(w) => w,
                    None => ProtocolVersion::Any,
                };
                match spec_report_of(packet_map.reports(), v) {
                    None => name is None,
                    Some(m) => match name {
                        Some(n) => m.contains_key(n@) && m[n@] == packet_id && spec_starts_with(n@, self.state.spec_name() + "/serverbound"@),
                        None => forall|k: Seq<char>| #[trigger] m.contains_key(k) ==> !(m[k] == packet_id && spec_starts_with(k, self.state.spec_name() + "/serverbound"@)),
                    },
                }
            }),
    {
        match packet_map.get_packet_name(self.protocol_version(), self.state, packet_id) {
            Ok(name) => name,
            Err(_) => None,
        }
    }
}

/// What a client of the wake-up proxy sent, with what the proxy learned
/// around it.
#[derive(Clone, Debug, PartialEq, Eq)]
pub enum WakeEvent {
    /// A handshake, and whether the backend answered a ping made with it.
    Handshake { packet: HandshakePacket, backend_reachable: bool },
    /// A login start of the player with this name.
    LoginStart { name: String },
    /// A status request, with the backend's status when it came.
    StatusRequest { status: ServerStatus },
    /// A ping with its timestamp.
    PingRequest { timestamp: i64 },
    /// Any other packet, which the proxy ignores.
    Other,
}

/// What the wake-up proxy does in answer to an event.
#[derive(Clone, Debug, PartialEq, Eq)]
pub enum WakeAction {
    /// Nothing to send.
    Nothing,
    /// Start the backend, which a player wants to join.
    StartBackend,
    /// Disconnect the client during login, with this reason.
    Disconnect { message: String },
    /// Answer the server list with this version line and description.
    Status { version_name: &'static str, version_protocol: i32, description: &'static str },
    /// Answer a ping with its timestamp.
    Pong { timestamp: i64 },
}

/// Handles one packet of a client of the wake-up proxy. A handshake records
/// the client's version and the state it asks for; when the backend answered
/// the ping, the client is to be proxied and its handshake kept for replay,
/// and otherwise a client that wants to log in wakes the backend up. A login
/// is refused with a message to come back soon, a status request is answered
/// with the backend's status, a ping with its timestamp. A status request
/// never comes once the backend is available: such a client is proxied.
pub fn wake_step(client: &mut WakeClient, event: WakeEvent) -> (a: WakeAction)
    requires
        old(client).backend_server_available ==> !(event is StatusRequest),
    ensures
        match event {
            WakeEvent::Handshake { packet, backend_reachable } => {
                &&& final(client).version matches Some(v) && spec_version_for_number(packet.protocol, v)
                &&& final(client).state == match spec_next_state(packet.next_state) {
                    Some(s) => s,
                    None => old(client).state,
                }
                &&& final(client).backend_server_available == (old(client).backend_server_available || backend_reachable)
                &&& final(client).handshake_packet_replay == if backend_reachable {
                    Some(packet)
                } else {
                    old(client).handshake_packet_replay
                }
                &&& a == if !backend_reachable && spec_next_state(packet.next_state) == Some(State::Login) {
                    WakeAction::StartBackend
                } else {
                    WakeAction::Nothing
                }
            },
            WakeEvent::LoginStart { name } => {
                &&& a matches WakeAction::Disconnect { message }
                    && message@ == "Hello "@ + name@ + "! This server was automatically started and will be online soon."@
                &&& *final(client) == *old(client)
            },
            WakeEvent::StatusRequest { status } => {
                &&& a matches WakeAction::Status { version_name, version_protocol, description } && {
                    &&& version_name@ == match status {
                        ServerStatus::Offline => "§5Sleeping"@,
                        ServerStatus::Starting => "§6Starting…"@,
                        ServerStatus::Online => "§4Error"@,
                    }
                    &&& version_protocol == 0
                    &&& description@ == "A Minecraft Server"@
                }
                &&& *final(client) == *old(client)
            },
            WakeEvent::PingRequest { timestamp } => {
                &&& a == WakeAction::Pong { timestamp }
                &&& *final(client) == *old(client)
            },
            WakeEvent::Other => {
                &&& a == WakeAction::Nothing
                &&& *final(client) == *old(client)
            },
        },
{
    match event {
        WakeEvent::Handshake { packet, backend_reachable } => {
            client.set_protocol(ProtocolVersion::from_number(packet.protocol));
            let mut action = WakeAction::Nothing;
            match packet.get_next_state() {
                Ok(state) => {
                    client.update_state(state);
                    if should_start_server(state, backend_reachable) {
                        action = WakeAction::StartBackend;
                    }
                },
                Err(_) => {},
            }
            if backend_reachable {
                client.set_backend_server_available(packet);
            }
            action
        },
        WakeEvent::LoginStart { name } => WakeAction::Disconnect { message: login_wait_message(name.as_str()) },
        WakeEvent::StatusRequest { status } => {
            let (version_name, version_protocol) = status_version(status);
            WakeAction::Status { version_name, version_protocol, description: "A Minecraft Server" }
        },
        WakeEvent::PingRequest { timestamp } => WakeAction::Pong { timestamp },
        WakeEvent::Other => WakeAction::Nothing,
    }
}

} // verus!
