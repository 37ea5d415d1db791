use crate::text::concat;
use vstd::prelude::*;

verus! {

/// Why a packet could not be handled.
#[derive(Debug, Clone, PartialEq, Eq)]
pub enum PacketHandlerError {
    /// An unexpected failure, with its reason.
    Custom(String),
    /// The client or the server is not in a state that allows the packet.
    InvalidState(String),
}

impl PacketHandlerError {
    /// A custom error with the given reason.
    pub fn custom(message: &str) -> (e: PacketHandlerError)
        ensures
            e matches PacketHandlerError::Custom(m) && m@ == message@,
    {
        PacketHandlerError::Custom(message.to_owned())
    }

    /// An invalid-state error with the given reason.
    pub fn invalid_state(message: &str) -> (e: PacketHandlerError)
        ensures
            e matches PacketHandlerError::InvalidState(m) && m@ == message@,
    {
        PacketHandlerError::InvalidState(message.to_owned())
    }

    pub open spec fn spec_message(self) -> Seq<char> {
        match self {
            PacketHandlerError::Custom(m) => "An error occurred while handling a packet: "@ + m@,
            PacketHandlerError::InvalidState(m) => m@,
        }
    }

    /// The text that the error is shown with.
    pub fn message(&self) -> (s: String)
        ensures
            s@ == self.spec_message(),
    {
        match self {
            PacketHandlerError::Custom(m) => concat("An error occurred while handling a packet: ", m.as_str()),
            PacketHandlerError::InvalidState(m) => m.clone(),
        }
    }
}

} // verus!
