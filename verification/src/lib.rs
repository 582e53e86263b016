//! Bridge Xbox controllers to a Nintendo Switch as USB Pro Controllers.
//!
//! The crate holds the logic of the bridge: the Pro Controller protocol, the
//! rumble decoder, the per-slot connection state, slot assignment, and the
//! state behind the web page and the terminal page. It does no I/O: callers
//! hand it plain values (bytes read, pad snapshots, key presses) and carry
//! out the actions that it returns.

pub mod bridge;
pub mod command;
pub mod config;
pub mod engine;
pub mod gadget;
pub mod hex;
pub mod levels;
pub mod mapping;
pub mod models;
pub mod motors;
pub mod page;
pub mod rumble;
pub mod search;
pub mod slot;
pub mod switch_proto;
pub mod text;
pub mod ui;
pub mod web;
pub mod wiimote;
