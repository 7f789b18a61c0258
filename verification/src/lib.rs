//! Core of a keyboard-driven music browser: a hierarchical cursor and
//! navigation engine over dynamically populated lists of items.
//!
//! The engine is a stack of pages (`switchview`); each page shows one or
//! more sections side by side (`multiview`); each section is a single
//! scrollable list with at most one cursor (`denselist`). Keyboard commands
//! enter at the top of the stack and are routed down; when a cursor move
//! would leave a list, an escape event travels back up and is resolved by
//! switching sections, bouncing the cursor, or absorbing the move.
//!
//! All I/O — fetching items from the streaming backend, starting playback,
//! rendering — lives outside this crate. Items arrive as plain values
//! through `accept_item` calls tagged with generation numbers so that
//! deliveries from cancelled loads are dropped.

pub mod denselist;
pub mod model;
pub mod multiview;
pub mod navigation;
pub mod searchpage;
pub mod switchview;
