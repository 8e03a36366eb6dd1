//! The verified core of a push-to-talk dictation app: the transcription
//! pipeline's coordinator, the stall watchdog, shortcut routing, title bar
//! tinting, and the one-time migration of legacy user data. Each module
//! holds the decisions over plain values, with contracts and laws proved by
//! Verus; threads, clocks, files, SQLite and the window system stay with the
//! caller.

use vstd::prelude::*;

pub mod clock;
pub mod coordinator;
pub mod migration;
pub mod shortcut;
pub mod text;
pub mod titlebar;
pub mod watchdog;
