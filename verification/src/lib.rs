//! One-way, push-based file synchronisation: the decisions of the sending
//! pipeline (ignore rules, debouncing, fan-out) and of the receiving side
//! (framing, metadata, destination paths), stated and proved over plain values.

pub mod config;
pub mod debounce;
pub mod dispatch;
pub mod ignore;
pub mod paths;
pub mod receive;
pub mod transmit;
pub mod watch;
pub mod wire;
