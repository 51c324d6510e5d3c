//! Slot index allocator: a bit-packed presence index over a fixed universe of
//! numbered slots, with the rules that decide when a slot may be claimed.

pub mod address;
pub mod allocator;
pub mod bits;
pub mod commands;
pub mod error;
pub mod instructions;
pub mod laws;
pub mod presence_index;
pub mod program;
pub mod text;
