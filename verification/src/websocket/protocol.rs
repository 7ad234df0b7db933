//! Protocol messages exchanged between chat clients and the server.

use vstd::prelude::*;
use crate::{Message, ZkChatError};

verus! {

/// Protocol messages for chat communication.
#[derive(Debug)]
pub enum ProtocolMessage {
    /// Client joins the chat room.
    Join { user_id: u64, username: String },
    /// Client leaves the chat room.
    Leave { user_id: u64 },
    /// Client sends a message with a serialized proof.
    SendMessage { message: Message, proof: Vec<u8> },
    /// Server broadcasts a verified message; `local_id` is the per-sender
    /// sequential id, starting at 1.
    MessageBroadcast { message: Message, verified: bool, local_id: u64 },
    /// Server sends a user list update.
    UserListUpdate { users: Vec<(u64, String)> },
    /// Error message.
    Error { code: u32, message: String },
    /// Keep-alive ping.
    Ping,
    /// Keep-alive pong.
    Pong,
}

impl ProtocolMessage {
    /// Creates an error message.
    pub fn error(code: u32, message: String) -> (r: Self)
        ensures
            r == (ProtocolMessage::Error { code, message }),
    {
        ProtocolMessage::Error { code, message }
    }
}

/// Error code for an invalid message hash.
pub const CODE_INVALID_MESSAGE_HASH: u32 = 1001;

/// Error code for a non-increasing timestamp.
pub const CODE_INVALID_TIMESTAMP: u32 = 1002;

/// Error code for an invalid sender.
pub const CODE_INVALID_SENDER: u32 = 1003;

/// Error code for a failed proof verification.
pub const CODE_PROOF_VERIFICATION_FAILED: u32 = 1004;

/// Error code for an unauthorized request.
pub const CODE_UNAUTHORIZED: u32 = 1005;

/// Error code for a rate-limited client.
pub const CODE_RATE_LIMITED: u32 = 1006;

/// Error code for any other server-side failure.
pub const CODE_INTERNAL_ERROR: u32 = 5000;

/// The protocol error that reports a core error to the peer.
pub open spec fn protocol_error_of(error: ZkChatError) -> (u32, Seq<char>) {
    match error {
        ZkChatError::InvalidMessageHash => (CODE_INVALID_MESSAGE_HASH, "Invalid message hash"@),
        ZkChatError::InvalidTimestamp => (
            CODE_INVALID_TIMESTAMP,
            "Invalid timestamp sequence"@,
        ),
        ZkChatError::InvalidSender => (CODE_INVALID_SENDER, "Invalid sender ID"@),
        ZkChatError::ProofVerificationFailed => (
            CODE_PROOF_VERIFICATION_FAILED,
            "Proof verification failed"@,
        ),
        _ => (CODE_INTERNAL_ERROR, "Internal server error"@),
    }
}

impl vstd::std_specs::convert::FromSpecImpl<ZkChatError> for ProtocolMessage {
    open spec fn obeys_from_spec() -> bool {
        false
    }

    open spec fn from_spec(t: ZkChatError) -> Self {
        vstd::pervasive::arbitrary()
    }
}

impl From<ZkChatError> for ProtocolMessage {
    /// Maps a core error to the protocol error message that reports it.
    fn from(error: ZkChatError) -> (r: Self)
        ensures
            r matches ProtocolMessage::Error { code, message } && (code, message@)
                == protocol_error_of(error),
    {
        let (code, text): (u32, &'static str) = match &error {
            ZkChatError::InvalidMessageHash => (CODE_INVALID_MESSAGE_HASH, "Invalid message hash"),
            ZkChatError::InvalidTimestamp => (CODE_INVALID_TIMESTAMP, "Invalid timestamp sequence"),
            ZkChatError::InvalidSender => (CODE_INVALID_SENDER, "Invalid sender ID"),
            ZkChatError::ProofVerificationFailed => (
                CODE_PROOF_VERIFICATION_FAILED,
                "Proof verification failed",
            ),
            _ => (CODE_INTERNAL_ERROR, "Internal server error"),
        };
        ProtocolMessage::error(code, text.to_owned())
    }
}

} // verus!
