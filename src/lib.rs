//! Core of an AMQP 0.9.1 client: the frame codec, the staging buffer for
//! outgoing frames, the per-channel content collector, the channel as the
//! application holds it and as the I/O loop holds it, and the heartbeat
//! timers.
pub mod error;
pub mod frame;
pub mod args;
pub mod content_collector;
pub mod output_buffer;
pub mod channel;
pub mod queue;
pub mod heartbeat;
pub mod channel_slot;
pub mod channel_ids;
pub mod dispatch;
