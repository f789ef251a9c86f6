//! The error kinds of the handlers and of the host context.
use vstd::prelude::*;

use crate::client::{ClientError, Height};
use crate::identifiers::{ChannelId, ConnectionId, IdentifierError, PortId};

verus! {

/// Errors of the connection subsystem.
#[derive(Clone, Debug, PartialEq, Eq)]
pub enum ConnectionError {
    /// No connection end is stored under the identifier.
    ConnectionNotFound { connection_id: ConnectionId },
    /// The connection end is not in the state the step requires.
    ConnectionMismatch { connection_id: ConnectionId },
    /// The counterparty's connection identifier is not known.
    InvalidCounterparty,
    /// The connection counter cannot grow further.
    CounterOverflow,
    /// The proof of the counterparty's connection end did not verify.
    VerifyConnectionState,
    /// No version is supported by both ends.
    VersionNegotiationFailed,
    /// A consensus height beyond the host's own height.
    InvalidConsensusHeight,
}

/// Errors of the channel subsystem.
#[derive(Clone, Debug, PartialEq, Eq)]
pub enum ChannelError {
    /// No channel end is stored under the port and channel.
    ChannelNotFound { port_id: PortId, channel_id: ChannelId },
    /// The channel end is not in the state the step requires.
    InvalidChannelState,
    /// The channel's connection is not open.
    ConnectionNotOpen,
    /// The channel has no connection hop.
    MissingConnectionHop,
    /// The channel counter cannot grow further.
    CounterOverflow,
    /// A malformed identifier in a message.
    Identifier(IdentifierError),
    /// A message without a proof.
    InvalidProof,
    /// A message without a proof height, or with a zero one.
    MissingHeight,
    /// A message without a signer.
    EmptySigner,
}

/// Errors of the packet subsystem.
#[derive(Clone, Debug, PartialEq, Eq)]
pub enum PacketError {
    /// Neither a timeout height nor a timeout timestamp is set.
    MissingTimeout,
    /// The packet's timeout has already passed on the counterparty.
    LowPacketHeight,
    /// The packet arrived at or after its timeout.
    PacketTimedOut,
    /// The packet's destination does not match the channel's counterparty.
    InvalidPacketCounterparty,
    /// An ordered channel received a sequence other than the next one.
    InvalidPacketSequence { given: u64, next: u64 },
    /// An unordered channel already holds a receipt for the sequence.
    PacketReceiptAlreadyExists { sequence: u64 },
    /// No receipt is stored for the sequence.
    PacketReceiptNotFound { sequence: u64 },
    /// No commitment is stored for the sequence.
    PacketCommitmentNotFound { sequence: u64 },
    /// The stored commitment is not the packet's.
    IncorrectPacketCommitment { sequence: u64 },
    /// No acknowledgement is stored for the sequence.
    PacketAcknowledgementNotFound { sequence: u64 },
    /// A sequence counter is missing for the channel.
    MissingSequence,
    /// A sequence counter cannot grow further.
    SequenceOverflow,
    /// A timeout was submitted before the packet timed out.
    PacketTimeoutNotReached { timeout_height: Option<Height>, proof_height: Height },
    /// The acknowledgement is empty.
    EmptyAcknowledgement,
    /// The connection's delay period has not passed since the proof's
    /// consensus state was stored.
    DelayPeriodNotPassed,
}

/// Any error of a handler or of the host context.
#[derive(Clone, Debug, PartialEq, Eq)]
pub enum ContextError {
    Client(ClientError),
    Connection(ConnectionError),
    Channel(ChannelError),
    Packet(PacketError),
}

} // verus!
