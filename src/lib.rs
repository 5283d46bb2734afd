//! A shared integer counter, and the dispatcher that turns JSON-RPC tool
//! calls into operations on it.
pub mod counter;
pub mod dispatch;
