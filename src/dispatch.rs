//! How the I/O loop treats each inbound frame.
use vstd::prelude::*;
use crate::error::ErrorKind;
use crate::frame::{Frame, FrameModel};

verus! {

/// What an inbound frame asks of the loop.
#[derive(Debug, PartialEq, Eq, Structural)]
pub enum FrameKind {
    /// A heartbeat: it only proves that the peer is alive.
    Heartbeat,
    /// `connection.close` from the server.
    ConnectionClose,
    /// `connection.close-ok`, the answer to our close.
    ConnectionCloseOk,
    /// `connection.blocked`, for the blocked-notification stream.
    Blocked,
    /// `connection.unblocked`, for the blocked-notification stream.
    Unblocked,
    /// `channel.close` from the server.
    ChannelClose,
    /// A method that announces content: deliver, get-ok or return.
    ContentStart,
    /// `basic.consume-ok`: registers a consumer, then answers the RPC.
    ConsumeOk,
    /// `basic.cancel` or `basic.cancel-ok`: a consumer ends.
    Cancel,
    /// `basic.ack` or `basic.nack` from the server: a publisher confirm.
    Confirm,
    /// Any other method: the reply to the pending RPC.
    Reply,
    /// A content header, for the collector.
    Header,
    /// A body fragment, for the collector.
    Body,
}

/// The kind of a frame. Channel 0 carries only connection methods and
/// heartbeats; any other channel carries no connection method.
pub open spec fn frame_kind(f: FrameModel) -> Result<FrameKind, ErrorKind> {
    match f {
        FrameModel::Heartbeat => Ok(FrameKind::Heartbeat),
        FrameModel::Method(ch, class_id, method_id, _) => if ch == 0 {
            if class_id != 10 {
                Err(ErrorKind::ProtocolError)
            } else if method_id == 50 {
                Ok(FrameKind::ConnectionClose)
            } else if method_id == 51 {
                Ok(FrameKind::ConnectionCloseOk)
            } else if method_id == 60 {
                Ok(FrameKind::Blocked)
            } else if method_id == 61 {
                Ok(FrameKind::Unblocked)
            } else {
                Err(ErrorKind::ProtocolError)
            }
        } else if class_id == 10 {
            Err(ErrorKind::ProtocolError)
        } else if class_id == 20 && method_id == 40 {
            Ok(FrameKind::ChannelClose)
        } else if class_id == 60 && (method_id == 50 || method_id == 60 || method_id == 71) {
            Ok(FrameKind::ContentStart)
        } else if class_id == 60 && method_id == 21 {
            Ok(FrameKind::ConsumeOk)
        } else if class_id == 60 && (method_id == 30 || method_id == 31) {
            Ok(FrameKind::Cancel)
        } else if class_id == 60 && (method_id == 80 || method_id == 120) {
            Ok(FrameKind::Confirm)
        } else {
            Ok(FrameKind::Reply)
        },
        FrameModel::Header(ch, ..) => if ch == 0 {
            Err(ErrorKind::ProtocolError)
        } else {
            Ok(FrameKind::Header)
        },
        FrameModel::Body(ch, _) => if ch == 0 {
            Err(ErrorKind::ProtocolError)
        } else {
            Ok(FrameKind::Body)
        },
    }
}

/// The kind of an inbound frame; a frame on the wrong channel is a
/// `ProtocolError`.
pub fn classify(f: &Frame) -> (r: Result<FrameKind, ErrorKind>)
    ensures
        r == frame_kind(f@),
{
    match f {
        Frame::Heartbeat => Ok(FrameKind::Heartbeat),
        Frame::Method(ch, m) => {
            let class_id = m.class_id;
            let method_id = m.method_id;
            if *ch == 0 {
                if class_id != 10 {
                    Err(ErrorKind::ProtocolError)
                } else if method_id == 50 {
                    Ok(FrameKind::ConnectionClose)
                } else if method_id == 51 {
                    Ok(FrameKind::ConnectionCloseOk)
                } else if method_id == 60 {
                    Ok(FrameKind::Blocked)
                } else if method_id == 61 {
                    Ok(FrameKind::Unblocked)
                } else {
                    Err(ErrorKind::ProtocolError)
                }
            } else if class_id == 10 {
                Err(ErrorKind::ProtocolError)
            } else if class_id == 20 && method_id == 40 {
                Ok(FrameKind::ChannelClose)
            } else if class_id == 60 && (method_id == 50 || method_id == 60 || method_id == 71) {
                Ok(FrameKind::ContentStart)
            } else if class_id == 60 && method_id == 21 {
                Ok(FrameKind::ConsumeOk)
            } else if class_id == 60 && (method_id == 30 || method_id == 31) {
                Ok(FrameKind::Cancel)
            } else if class_id == 60 && (method_id == 80 || method_id == 120) {
                Ok(FrameKind::Confirm)
            } else {
                Ok(FrameKind::Reply)
            }
        },
        Frame::Header(ch, ..) => if *ch == 0 {
            Err(ErrorKind::ProtocolError)
        } else {
            Ok(FrameKind::Header)
        },
        Frame::Body(ch, _) => if *ch == 0 {
            Err(ErrorKind::ProtocolError)
        } else {
            Ok(FrameKind::Body)
        },
    }
}

} // verus!
