//! Coalescing of bursts of text notifications into single outbound messages.
//!
//! Producers hand [`Item`]s to a [`BatchCoalescer`]. The first item of a burst
//! opens a window and asks the caller to schedule one delayed flush; the items
//! that follow within the window are only appended. When the delay has passed
//! the caller begins the flush, which takes the whole batch and renders it as
//! one message, sends that message by whatever means it has, and finishes the
//! flush, which closes the window.
//!
//! The coalescer itself performs no I/O and never waits: it decides, and the
//! caller acts. Every function is verified against a mathematical model of
//! the coalescer, and the properties that make the scheme safe (one flush task
//! per window, no item lost or sent twice, no overlapping sends) are proved of
//! that model.

pub mod coalescer;
pub mod item;
pub mod message;
pub mod protocol;

pub use coalescer::{
    BatchCoalescer, CoalescerView, DeliveryError, EnqueueAction, DEFAULT_DELAY_SECS,
};
pub use item::{Item, ItemView};
pub use message::{compose, render_line};
