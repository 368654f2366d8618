//! Native backend logic of a desktop markdown editor: path validation for
//! file reads and writes, a bounded most-recently-used list of recent files,
//! a take-once slot for files handed over by the operating system, and the
//! bookkeeping of the print-to-PDF pipeline (temp-file naming, document
//! assembly, temp-directory eviction, and the print-window lifecycle).
//!
//! Everything in this crate is logic over plain values.  The host process
//! around it performs the actual file, dialog and window operations and feeds
//! their observations into these functions.

pub mod deeplink;
pub mod menu;
pub mod pending;
pub mod print;
pub mod recents;
pub mod validate;
