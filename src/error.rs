use vstd::prelude::*;

verus! {

/// The kinds of error the client reports.
#[derive(Debug, PartialEq, Eq)]
pub enum ErrorKind {
    /// A malformed or unexpected frame; fatal to the connection.
    ProtocolError,
    /// A valid frame that arrived in the wrong state; fatal to the channel.
    FrameUnexpected,
    /// The server closed a channel: channel id, reply code, reply text.
    ServerClosedChannel(u16, u16, String),
    /// The server closed the connection: reply code, reply text.
    ServerClosedConnection(u16, String),
    /// No inbound traffic within twice the heartbeat interval.
    MissedHeartbeat,
    /// An inbound or outbound frame exceeds the negotiated maximum.
    FrameTooLarge,
    /// The application used a handle whose channel slot is gone.
    ChannelDropped(u16),
    /// The I/O thread has terminated.
    EventLoopDropped,
    /// A method frame names a class or method that is not known.
    UnknownMethod,
}

/// A copy of `e` that is equal to it.
pub fn clone_error(e: &ErrorKind) -> (r: ErrorKind)
    ensures
        r == *e,
{
    match e {
        ErrorKind::ProtocolError => ErrorKind::ProtocolError,
        ErrorKind::FrameUnexpected => ErrorKind::FrameUnexpected,
        ErrorKind::ServerClosedChannel(id, code, text) => ErrorKind::ServerClosedChannel(
            *id,
            *code,
            text.clone(),
        ),
        ErrorKind::ServerClosedConnection(code, text) => ErrorKind::ServerClosedConnection(
            *code,
            text.clone(),
        ),
        ErrorKind::MissedHeartbeat => ErrorKind::MissedHeartbeat,
        ErrorKind::FrameTooLarge => ErrorKind::FrameTooLarge,
        ErrorKind::ChannelDropped(id) => ErrorKind::ChannelDropped(*id),
        ErrorKind::EventLoopDropped => ErrorKind::EventLoopDropped,
        ErrorKind::UnknownMethod => ErrorKind::UnknownMethod,
    }
}

} // verus!
