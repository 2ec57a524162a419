//! Core of a websocket event collector: a verified protocol decoder for the
//! JSON message envelope, a connection/session state machine that decides how
//! each inbound event is handled, and the pure computations that prepare
//! decoded notifications for storage. All I/O (the websocket itself, the
//! subscription API, the database) lives outside this crate and is driven by
//! the actions this library hands back.

pub mod database;
pub mod decode;
pub mod handler;
pub mod ids;
pub mod json;
pub mod messages;
pub mod supervisor;
pub mod time;
