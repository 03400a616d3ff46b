//! One request to a supervisor's control gateway: connect, hand over the
//! secret, send the command, then read replies.
//!
//! The steps that wait on the network are the caller's; each decision
//! between them is a function here. `SrvClient::request` takes the outcome
//! of the connection attempt and gives the handshake to send;
//! `PendingRequest::on_handshake_reply` takes what came back within
//! `REQ_TIMEOUT` and gives the command to send. What follows is the reply
//! stream, read with a `SrvCodec`.
use crate::codec::{
    frame_of, lemma_frame_round_trip, next_txn_id, parse_frame, FrameParse, MessageView,
    SrvMessage, SrvTxn,
};
use crate::error::{io_error, DecodeError, IoFailure, IoKind, SrvClientError};
use crate::proto::{encode_handshake, handshake_body};
use crate::text::str_eq;
use vstd::prelude::*;

verus! {

/// Time in milliseconds to wait for the reply to a handshake.
pub const REQ_TIMEOUT: u64 = 10_000;

/// The handshake that opens a connection: it carries `secret` and is
/// tagged with transaction 0.
pub open spec fn handshake_view(secret: Seq<char>) -> MessageView {
    MessageView {
        message_id: "Handshake"@,
        transaction: Some(SrvTxn { id: 0, complete: false }),
        body: handshake_body(secret),
    }
}

/// `m` tagged with transaction `t`.
pub open spec fn tagged(m: MessageView, t: SrvTxn) -> MessageView {
    MessageView { message_id: m.message_id, transaction: Some(t), body: m.body }
}

/// Whether a handshake reply lets the request go on: anything but the
/// remote's error message does.
pub open spec fn handshake_accepted(reply: MessageView) -> bool {
    reply.message_id != "NetErr"@
}

/// Builds the handshake that carries `secret`.
pub fn handshake_message(secret: &String) -> (r: SrvMessage)
    ensures
        r@ == handshake_view(secret@),
{
    SrvMessage {
        message_id: String::from_str("Handshake"),
        transaction: Some(SrvTxn::new()),
        body: encode_handshake(secret),
    }
}

/// What the wait for the handshake reply ended with.
#[derive(Debug)]
pub enum HandshakeReply {
    /// A message arrived in time.
    Reply(SrvMessage),
    /// Nothing arrived within `REQ_TIMEOUT`.
    TimedOut,
    /// The stream ended before a message arrived.
    Closed,
    /// Reading from the connection failed.
    ReadFailed(IoFailure),
    /// The bytes that arrived are not a frame.
    Malformed(DecodeError),
}

/// Client of a supervisor's control gateway.
pub struct SrvClient;

/// A request whose connection is open and whose handshake is to be sent.
#[derive(Debug)]
pub struct PendingRequest {
    /// The handshake to send first.
    pub handshake: SrvMessage,
    /// The transaction of the handshake.
    pub transaction: SrvTxn,
    /// The command to send once the handshake is accepted, untagged.
    pub command: SrvMessage,
}

impl SrvClient {
    /// Decides the start of a request from the outcome of the connection
    /// attempt and the resolved secret. A failed connection fails the
    /// request first; then a secret that could not be resolved; otherwise
    /// the handshake carrying the secret is to be sent, tagged with
    /// transaction 0.
    pub fn request(
        connected: Result<(), IoFailure>,
        secret: Result<String, SrvClientError>,
        request: SrvMessage,
    ) -> (r: Result<PendingRequest, SrvClientError>)
        ensures
            connected matches Err(e) ==> r == Err::<PendingRequest, SrvClientError>(io_error(e)),
            connected is Ok ==> (secret matches Err(e) ==> r == Err::<
                PendingRequest,
                SrvClientError,
            >(e)),
            connected is Ok ==> (secret matches Ok(s) ==> r matches Ok(p) && p.handshake@
                == handshake_view(s@) && p.transaction == (SrvTxn { id: 0, complete: false })
                && p.command == request),
    {
        match connected {
            Err(e) => Err(SrvClientError::from_io(e)),
            Ok(()) => match secret {
                Err(e) => Err(e),
                Ok(s) => {
                    let handshake = handshake_message(&s);
                    Ok(PendingRequest { handshake, transaction: SrvTxn::new(), command: request })
                },
            },
        }
    }
}

impl PendingRequest {
    /// Decides what follows the wait for the handshake reply. An
    /// affirmative reply gives the command to send, tagged with the next
    /// transaction; every other outcome fails the request, each with an
    /// error of its own.
    pub fn on_handshake_reply(self, reply: HandshakeReply) -> (r: Result<SrvMessage, SrvClientError>)
        ensures
            match reply {
                HandshakeReply::Reply(m) => if handshake_accepted(m@) {
                    r matches Ok(c) && c@ == tagged(
                        self.command@,
                        SrvTxn { id: next_txn_id(self.transaction.id), complete: false },
                    )
                } else {
                    r == Err::<SrvMessage, SrvClientError>(SrvClientError::NetErr(m.body))
                },
                HandshakeReply::TimedOut => r matches Err(SrvClientError::Io(f)) && f.kind
                    == IoKind::TimedOut && f.message@ == "client timed out"@,
                HandshakeReply::Closed => r == Err::<SrvMessage, SrvClientError>(
                    SrvClientError::ConnectionClosed,
                ),
                HandshakeReply::ReadFailed(e) => r == Err::<SrvMessage, SrvClientError>(
                    io_error(e),
                ),
                HandshakeReply::Malformed(e) => r == Err::<SrvMessage, SrvClientError>(
                    SrvClientError::Decode(e),
                ),
            },
    {
        match reply {
            HandshakeReply::Reply(m) => {
                if str_eq(m.message_id.as_str(), "NetErr") {
                    Err(SrvClientError::NetErr(m.body))
                } else {
                    let mut t = self.transaction;
                    t.increment();
                    let mut command = self.command;
                    command.transaction = Some(t);
                    Ok(command)
                }
            },
            HandshakeReply::TimedOut => Err(
                SrvClientError::Io(
                    IoFailure { kind: IoKind::TimedOut, message: String::from_str("client timed out") },
                ),
            ),
            HandshakeReply::Closed => Err(SrvClientError::ConnectionClosed),
            HandshakeReply::ReadFailed(e) => Err(SrvClientError::from_io(e)),
            HandshakeReply::Malformed(e) => Err(SrvClientError::Decode(e)),
        }
    }
}

/// On a fresh connection the handshake goes out as transaction 0 and the
/// command as the transaction after it, 1.
pub proof fn lemma_command_follows_handshake(secret: Seq<char>, command: MessageView)
    ensures
        handshake_view(secret).transaction == Some(SrvTxn { id: 0, complete: false }),
        tagged(command, SrvTxn { id: next_txn_id(0), complete: false }).transaction == Some(
            SrvTxn { id: 1, complete: false },
        ),
        next_txn_id(0) == 0 + 1,
{
}

/// A well-formed affirmative reply to the handshake decodes as sent,
/// whatever bytes follow it on the stream: a compliant remote never meets a
/// decode error on this side.
pub proof fn lemma_accepted_handshake_decodes(reply: MessageView, rest: Seq<u8>)
    requires
        reply.valid(),
        handshake_accepted(reply),
    ensures
        parse_frame(frame_of(reply) + rest) == FrameParse::Complete(
            reply,
            frame_of(reply).len() as int,
        ),
{
    lemma_frame_round_trip(reply, rest);
}

} // verus!
