use crate::fifo::Fifo;
use crate::packets::{LegacyChatMessagePacket, LoginStartPacket, PacketRegistry, Property, SystemChatMessagePacket};
use crate::protocol::{ProtocolVersion, State};
use vstd::prelude::*;
use vstd::string::*;
use vstd::utf8::{encode_utf8, is_char_boundary};

verus! {

impl Property {
    /// A copy of the property.
    pub fn duplicate(&self) -> (p: Property)
        ensures
            p == *self,
    {
        Property {
            name: self.name.clone(),
            value: self.value.clone(),
            signature: match &self.signature {
                Some(s) => Some(s.clone()),
                None => None,
            },
        }
    }
}

/// The UTF-8 bytes that a player name is cut to: its first 16 bytes when they
/// end on a character boundary, else the whole name.
pub open spec fn spec_truncated_name_bytes(bytes: Seq<u8>) -> Seq<u8> {
    if bytes.len() >= 16 && is_char_boundary(bytes, 16) {
        bytes.take(16)
    } else {
        bytes
    }
}

/// A name that is cut keeps its beginning: what is kept is a prefix of the
/// name, and is the whole name or its first 16 bytes.
pub proof fn lemma_truncated_name_is_prefix(bytes: Seq<u8>)
    ensures
        spec_truncated_name_bytes(bytes).len() <= bytes.len(),
        spec_truncated_name_bytes(bytes) == bytes.take(spec_truncated_name_bytes(bytes).len() as int),
        spec_truncated_name_bytes(bytes) == bytes || spec_truncated_name_bytes(bytes).len() == 16,
{
    assert(bytes.take(bytes.len() as int) =~= bytes);
}

/// What a game profile holds.
pub struct GameProfileView {
    pub username: String,
    pub uuid: u128,
    pub textures: Option<Property>,
}

/// The name, unique id and skin of a player.
pub struct GameProfile {
    username: String,
    uuid: u128,
    textures: Option<Property>,
}

impl View for GameProfile {
    type V = GameProfileView;

    closed spec fn view(&self) -> GameProfileView {
        GameProfileView { username: self.username, uuid: self.uuid, textures: self.textures }
    }
}

impl GameProfile {
    /// A profile whose name is cut to 16 bytes when that falls on a character
    /// boundary.
    pub fn new(username: &str, uuid: u128, textures: Option<Property>) -> (p: GameProfile)
        ensures
            encode_utf8(p@.username@) == spec_truncated_name_bytes(encode_utf8(username@)),
            p@.uuid == uuid,
            p@.textures == textures,
    {
        let byte_len = username.as_bytes().len();
        let name = if byte_len >= 16 && username.is_char_boundary(16) {
            let (head, _) = username.split_at(16);
            let h = head.to_owned();
            assert(head.spec_bytes() =~= username.spec_bytes().take(16));
            assert(encode_utf8(h@) == head.spec_bytes());
            assert(username.spec_bytes() == encode_utf8(username@));
            assert(spec_truncated_name_bytes(encode_utf8(username@)) == username.spec_bytes().take(16));
            h
        } else {
            let h = username.to_owned();
            assert(encode_utf8(h@) == username.spec_bytes());
            assert(username.spec_bytes() == encode_utf8(username@));
            assert(spec_truncated_name_bytes(encode_utf8(username@)) == username.spec_bytes());
            h
        };
        GameProfile { username: name, uuid, textures }
    }

    /// A profile without a name.
    pub fn anonymous(uuid: u128, textures: Option<Property>) -> (p: GameProfile)
        ensures
            p@.username@ == Seq::<char>::empty(),
            p@.uuid == uuid,
            p@.textures == textures,
    {
        GameProfile { username: String::new(), uuid, textures }
    }

    /// The profile a login start packet announces, with the name as sent.
    pub fn from_login_start(packet: &LoginStartPacket) -> (p: GameProfile)
        ensures
            p@.username == packet.name,
            p@.uuid == packet.uuid,
            p@.textures is None,
    {
        GameProfile { username: packet.name.clone(), uuid: packet.uuid, textures: None }
    }

    pub fn username(&self) -> (s: &str)
        ensures
            s@ == self@.username@,
    {
        self.username.as_str()
    }

    /// A copy of the name.
    pub fn username_string(&self) -> (s: String)
        ensures
            s == self@.username,
    {
        self.username.clone()
    }

    pub fn is_anonymous(&self) -> (b: bool)
        ensures
            b == (self@.username@.len() == 0),
    {
        self.username.as_str().is_empty()
    }

    pub fn set_name(&mut self, name: &str)
        ensures
            final(self)@.username@ == name@,
            final(self)@ == (GameProfileView { username: final(self)@.username, ..old(self)@ }),
    {
        self.username = name.to_owned();
    }

    pub fn uuid(&self) -> (u: u128)
        ensures
            u == self@.uuid,
    {
        self.uuid
    }

    pub fn textures(&self) -> (t: Option<&Property>)
        ensures
            self@.textures is None ==> t is None,
            self@.textures matches Some(p) ==> t == Some(&p),
    {
        match &self.textures {
            Some(p) => Some(p),
            None => None,
        }
    }

    /// A copy of the profile.
    pub fn duplicate(&self) -> (p: GameProfile)
        ensures
            p@ == self@,
    {
        GameProfile {
            username: self.username.clone(),
            uuid: self.uuid,
            textures: match &self.textures {
                Some(t) => Some(t.duplicate()),
                None => None,
            },
        }
    }
}

/// Whether the server should send keep-alive packets to a client.
#[derive(Clone, Copy, Debug, PartialEq, Eq, Structural)]
pub enum KeepAliveStatus {
    Disabled,
    ShouldEnable,
    Enabled,
}

/// What a client state holds.
pub struct ClientStateView {
    pub state: State,
    pub protocol_version: ProtocolVersion,
    pub kick_message: Option<String>,
    pub pending_packets: Seq<PacketRegistry>,
    pub message_id: i32,
    pub game_profile: Option<GameProfileView>,
    pub keep_alive: KeepAliveStatus,
}

/// What the server knows of one client connection.
pub struct ClientState {
    state: State,
    protocol_version: ProtocolVersion,
    kick_message: Option<String>,
    pending_packets: Fifo<PacketRegistry>,
    message_id: i32,
    game_profile: Option<GameProfile>,
    keep_alive_enabled: KeepAliveStatus,
}

impl View for ClientState {
    type V = ClientStateView;

    closed spec fn view(&self) -> ClientStateView {
        ClientStateView {
            state: self.state,
            protocol_version: self.protocol_version,
            kick_message: self.kick_message,
            pending_packets: self.pending_packets@,
            message_id: self.message_id,
            game_profile: match self.game_profile {
                Some(p) => Some(p@),
                None => None,
            },
            keep_alive: self.keep_alive_enabled,
        }
    }
}

/// The state of a client that has just connected.
pub open spec fn initial_client_view() -> ClientStateView {
    ClientStateView {
        state: State::Handshake,
        protocol_version: ProtocolVersion::Any,
        kick_message: None,
        pending_packets: Seq::empty(),
        message_id: -1i32,
        game_profile: None,
        keep_alive: KeepAliveStatus::Disabled,
    }
}

impl Default for ClientState {
    fn default() -> (c: ClientState)
        ensures
            c@ == initial_client_view(),
    {
        ClientState {
            state: State::Handshake,
            protocol_version: ProtocolVersion::Any,
            kick_message: None,
            pending_packets: Fifo::new(),
            message_id: -1i32,
            game_profile: None,
            keep_alive_enabled: KeepAliveStatus::Disabled,
        }
    }
}

impl ClientState {
    /// Marks the client to be disconnected with the given reason.
    pub fn kick(&mut self, kick_message: &str)
        ensures
            final(self)@.kick_message matches Some(m) && m@ == kick_message@,
            final(self)@ == (ClientStateView { kick_message: final(self)@.kick_message, ..old(self)@ }),
    {
        self.kick_message = Some(kick_message.to_owned());
    }

    /// The reason the client is to be disconnected with, if it is.
    pub fn should_kick(&self) -> (m: Option<String>)
        ensures
            m == self@.kick_message,
    {
        match &self.kick_message {
            Some(m) => Some(m.clone()),
            None => None,
        }
    }

    pub fn state(&self) -> (s: State)
        ensures
            s == self@.state,
    {
        self.state
    }

    pub fn set_state(&mut self, new_state: State)
        ensures
            final(self)@ == (ClientStateView { state: new_state, ..old(self)@ }),
    {
        self.state = new_state;
    }

    pub fn protocol_version(&self) -> (v: ProtocolVersion)
        ensures
            v == self@.protocol_version,
    {
        self.protocol_version
    }

    pub fn set_protocol_version(&mut self, new_protocol_version: ProtocolVersion)
        ensures
            final(self)@ == (ClientStateView { protocol_version: new_protocol_version, ..old(self)@ }),
    {
        self.protocol_version = new_protocol_version;
    }

    /// Queues a packet to be sent to the client.
    pub fn queue_packet(&mut self, packet: PacketRegistry)
        ensures
            final(self)@ == (ClientStateView { pending_packets: old(self)@.pending_packets.push(packet), ..old(self)@ }),
    {
        self.pending_packets.push(packet);
    }

    /// The queue of packets waiting to be sent, to take them from; what is
    /// left in it stays queued.
    pub fn pending_packets(&mut self) -> (q: &mut Fifo<PacketRegistry>)
        ensures
            (*q)@ == old(self)@.pending_packets,
            final(self)@ == (ClientStateView { pending_packets: (*final(q))@, ..old(self)@ }),
    {
        &mut self.pending_packets
    }

    /// Takes the oldest queued packet, if any.
    pub fn next_packet(&mut self) -> (p: Option<PacketRegistry>)
        ensures
            old(self)@.pending_packets.len() == 0 ==> p is None && final(self)@ == old(self)@,
            old(self)@.pending_packets.len() > 0 ==> p == Some(old(self)@.pending_packets[0])
                && final(self)@ == (ClientStateView { pending_packets: old(self)@.pending_packets.drop_first(), ..old(self)@ }),
    {
        self.pending_packets.pop()
    }

    /// Whether no packet is queued.
    pub fn has_no_more_packets(&self) -> (b: bool)
        ensures
            b == (self@.pending_packets.len() == 0),
    {
        self.pending_packets.is_empty()
    }

    /// Remembers the id of the Velocity query sent to the client's proxy.
    pub fn set_velocity_login_message_id(&mut self, message_id: i32)
        ensures
            final(self)@ == (ClientStateView { message_id, ..old(self)@ }),
    {
        self.message_id = message_id;
    }

    pub fn get_velocity_login_message_id(&self) -> (id: i32)
        ensures
            id == self@.message_id,
    {
        self.message_id
    }

    pub fn set_game_profile(&mut self, game_profile: GameProfile)
        ensures
            final(self)@ == (ClientStateView { game_profile: Some(game_profile@), ..old(self)@ }),
    {
        self.game_profile = Some(game_profile);
    }

    pub fn game_profile(&self) -> (p: Option<GameProfile>)
        ensures
            self@.game_profile is None ==> p is None,
            self@.game_profile matches Some(g) ==> (p matches Some(q) && q@ == g),
    {
        match &self.game_profile {
            Some(p) => Some(p.duplicate()),
            None => None,
        }
    }

    /// The player's name, or "Anonymous" before the login.
    pub fn get_username(&self) -> (s: String)
        ensures
            s@ == match self@.game_profile {
                Some(p) => p.username@,
                None => "Anonymous"@,
            },
    {
        match &self.game_profile {
            Some(p) => p.username().to_owned(),
            None => "Anonymous".to_owned(),
        }
    }

    /// The player's unique id, or the nil id (0) before the login.
    pub fn get_unique_id(&self) -> (u: u128)
        ensures
            u == match self@.game_profile {
                Some(p) => p.uuid,
                None => 0,
            },
    {
        match &self.game_profile {
            Some(p) => p.uuid(),
            None => 0,
        }
    }

    /// The player's skin textures, if known.
    pub fn get_textures(&self) -> (t: Option<Property>)
        ensures
            t == match self@.game_profile {
                Some(p) => p.textures,
                None => None,
            },
    {
        match &self.game_profile {
            Some(p) => match p.textures() {
                Some(t) => Some(t.duplicate()),
                None => None,
            },
            None => None,
        }
    }

    pub fn should_enable_keep_alive(&self) -> (b: bool)
        ensures
            b == (self@.keep_alive == KeepAliveStatus::ShouldEnable),
    {
        self.keep_alive_enabled == KeepAliveStatus::ShouldEnable
    }

    /// Asks for keep-alive packets, unless they were asked for already.
    pub fn set_keep_alive_should_enable(&mut self)
        ensures
            final(self)@ == (ClientStateView {
                keep_alive: if old(self)@.keep_alive == KeepAliveStatus::Disabled {
                    KeepAliveStatus::ShouldEnable
                } else {
                    old(self)@.keep_alive
                },
                ..old(self)@
            }),
    {
        if self.keep_alive_enabled == KeepAliveStatus::Disabled {
            self.keep_alive_enabled = KeepAliveStatus::ShouldEnable;
        }
    }

    /// Records that keep-alive packets are now sent, when they were asked for.
    pub fn set_keep_alive_enabled(&mut self)
        ensures
            final(self)@ == (ClientStateView {
                keep_alive: if old(self)@.keep_alive == KeepAliveStatus::ShouldEnable {
                    KeepAliveStatus::Enabled
                } else {
                    old(self)@.keep_alive
                },
                ..old(self)@
            }),
    {
        if self.keep_alive_enabled == KeepAliveStatus::ShouldEnable {
            self.keep_alive_enabled = KeepAliveStatus::Enabled;
        }
    }

    /// Queues a system chat message in the form the client's version reads.
    pub fn send_message(&mut self, message: String)
        ensures
            final(self)@ == (ClientStateView {
                pending_packets: old(self)@.pending_packets.push(
                    if old(self)@.protocol_version.spec_number() >= ProtocolVersion::V1_19.spec_number() {
                        PacketRegistry::SystemChatMessage(SystemChatMessagePacket { message })
                    } else {
                        PacketRegistry::LegacyChatMessage(LegacyChatMessagePacket { message })
                    },
                ),
                ..old(self)@
            }),
    {
        if self.protocol_version.is_after_inclusive(ProtocolVersion::V1_19) {
            self.queue_packet(PacketRegistry::SystemChatMessage(SystemChatMessagePacket { message }));
        } else {
            self.queue_packet(PacketRegistry::LegacyChatMessage(LegacyChatMessagePacket { message }));
        }
    }
}

/// The keep-alive status only moves forward: from disabled to should-enable
/// to enabled, whatever is asked of it and in whatever order.
pub proof fn lemma_keep_alive_only_advances(before: KeepAliveStatus)
    ensures
        keep_alive_rank(advance_should_enable(before)) >= keep_alive_rank(before),
        keep_alive_rank(advance_enabled(before)) >= keep_alive_rank(before),
        advance_enabled(advance_should_enable(KeepAliveStatus::Disabled)) == KeepAliveStatus::Enabled,
        advance_should_enable(advance_enabled(before)) != KeepAliveStatus::Disabled || before == KeepAliveStatus::Disabled,
{
}

pub open spec fn keep_alive_rank(s: KeepAliveStatus) -> int {
    match s {
        KeepAliveStatus::Disabled => 0,
        KeepAliveStatus::ShouldEnable => 1,
        KeepAliveStatus::Enabled => 2,
    }
}

/// The status after `set_keep_alive_should_enable`.
pub open spec fn advance_should_enable(s: KeepAliveStatus) -> KeepAliveStatus {
    if s == KeepAliveStatus::Disabled { KeepAliveStatus::ShouldEnable } else { s }
}

/// The status after `set_keep_alive_enabled`.
pub open spec fn advance_enabled(s: KeepAliveStatus) -> KeepAliveStatus {
    if s == KeepAliveStatus::ShouldEnable { KeepAliveStatus::Enabled } else { s }
}

} // verus!
