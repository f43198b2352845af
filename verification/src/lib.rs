//! Event relay and session state machine for a multiplayer lobby client.
//!
//! A background worker owns a streaming connection to the game client,
//! classifies raw JSON frames into typed league events by their routing key,
//! and forwards them through per-socket queues.  A non-blocking dispatch
//! loop drains those queues once per UI tick and folds each event into the
//! session state: the lobby phase, the queue timer and the member roster.

pub mod classify;
pub mod consts;
pub mod decode;
pub mod dispatch;
pub mod event;
pub mod friendlist;
pub mod game;
pub mod json;
pub mod registry;
pub mod strutil;
