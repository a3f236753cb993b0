//! A small memory-management runtime built around explicit reference
//! counting: control blocks that pair a stored value with strong and weak
//! counters, owning strong handles, non-owning weak handles that detect
//! collection of their target, and a run-time borrow tracker that arbitrates
//! shared versus exclusive access to a stored value.
//!
//! Alongside the handle runtime, the crate carries a set of small verified
//! utilities: a line-search facility, a post-review workflow, and assorted
//! helpers over rectangles, points, and inventories.

pub mod atomic;
pub mod borrow;
pub mod boxes;
pub mod cycle;
pub mod dining;
pub mod enums;
pub mod generics;
pub mod graph;
pub mod guessing;
pub mod guests;
pub mod inventory;
pub mod lifetimes;
pub mod limit;
pub mod ownership;
pub mod pool;
pub mod posts;
pub mod rectangle;
pub mod screen;
pub mod search;
pub mod summaries;
pub mod trace;
pub mod tracker;
pub mod typestate;
