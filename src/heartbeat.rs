//! The I/O loop's heartbeat timers.
use vstd::prelude::*;
use crate::error::ErrorKind;

verus! {

/// What the heartbeat timers ask of the loop at `now_ms`, given when a frame
/// last came in and when one last went out (all in milliseconds), and the
/// negotiated interval in seconds (0 turns heartbeats off):
/// `Err(MissedHeartbeat)` when nothing came in for more than twice the
/// interval; `Ok(true)` when nothing went out for the interval, and a
/// heartbeat frame is due; else `Ok(false)`.
pub fn heartbeat_due(heartbeat: u16, now_ms: u64, last_recv_ms: u64, last_send_ms: u64) -> (r:
    Result<bool, ErrorKind>)
    requires
        last_recv_ms <= now_ms,
        last_send_ms <= now_ms,
    ensures
        heartbeat == 0 ==> r == Ok::<bool, ErrorKind>(false),
        heartbeat > 0 ==> r == (if now_ms - last_recv_ms > 2000 * (heartbeat as int) {
            Err::<bool, ErrorKind>(ErrorKind::MissedHeartbeat)
        } else {
            Ok(now_ms - last_send_ms >= 1000 * (heartbeat as int))
        }),
{
    if heartbeat == 0 {
        return Ok(false);
    }
    let interval: u64 = 1000 * (heartbeat as u64);
    assert(interval == 1000 * (heartbeat as int));
    if now_ms - last_recv_ms > 2 * interval {
        Err(ErrorKind::MissedHeartbeat)
    } else {
        Ok(now_ms - last_send_ms >= interval)
    }
}

} // verus!
