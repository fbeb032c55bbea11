//! Debouncing of middle-mouse-button clicks.
//!
//! Worn switches report one physical press as several presses in quick
//! succession. The [`engine::Debouncer`] looks at every button-down and
//! button-up transition and decides whether it is passed on or swallowed, so
//! that a swallowed press never lets its release through.

pub mod engine;
pub mod hook;
pub mod laws;
pub mod state;
