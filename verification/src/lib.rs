//! A verified core for a streaming chat client: a session that owns an
//! ordered transcript, a decoder that turns server-sent frames into reply
//! fragments, and an ordered token channel between producer and consumer.

pub mod channel;
pub mod chat;
pub mod decode;
pub mod errors;
pub mod frames;
pub mod model;
pub mod payload;
