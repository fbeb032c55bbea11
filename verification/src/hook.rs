//! The rules by which a low-level mouse hook drives the engine: which hook
//! messages are middle-button transitions, and what the hook answers.

use vstd::prelude::*;
use crate::engine::Debouncer;
use crate::state::{ButtonEvent, Decision};

verus! {

/// Message number by which the system reports a middle-button press.
pub open spec fn middle_down_code() -> int {
    0x0207
}

/// Message number by which the system reports a middle-button release.
pub open spec fn middle_up_code() -> int {
    0x0208
}

/// The transition that a hook call reports, if any. A negative code means
/// that the hook must not process the message.
pub open spec fn event_of(n_code: int, w_param: int) -> Option<ButtonEvent> {
    if n_code >= 0 && w_param == middle_down_code() {
        Some(ButtonEvent::Down)
    } else if n_code >= 0 && w_param == middle_up_code() {
        Some(ButtonEvent::Up)
    } else {
        None
    }
}

/// The hook's answer to a decision: the value that consumes the event, or
/// nothing where the event goes on to the next hook in the chain.
pub open spec fn reply_of(decision: Decision) -> Option<isize> {
    match decision {
        Decision::Suppress => Some(1isize),
        Decision::Pass => None,
    }
}

/// Reads `windows_sys::Win32::UI::WindowsAndMessaging::WM_MBUTTONDOWN`.
/// Trusted: that constant is 519.
#[verifier::external_body]
fn middle_down_message() -> (code: u32)
    ensures
        code == middle_down_code(),
{
    windows_sys::Win32::UI::WindowsAndMessaging::WM_MBUTTONDOWN
}

/// Reads `windows_sys::Win32::UI::WindowsAndMessaging::WM_MBUTTONUP`.
/// Trusted: that constant is 520.
#[verifier::external_body]
fn middle_up_message() -> (code: u32)
    ensures
        code == middle_up_code(),
{
    windows_sys::Win32::UI::WindowsAndMessaging::WM_MBUTTONUP
}

/// Tells which middle-button transition a hook call reports.
pub fn classify(n_code: i32, w_param: usize) -> (event: Option<ButtonEvent>)
    ensures
        event == event_of(n_code as int, w_param as int),
{
    if n_code < 0 {
        return None;
    }
    if w_param == middle_down_message() as usize {
        Some(ButtonEvent::Down)
    } else if w_param == middle_up_message() as usize {
        Some(ButtonEvent::Up)
    } else {
        None
    }
}

/// Runs one hook call through the engine. A middle-button press or release
/// is decided by the engine; every other message passes and leaves the
/// engine untouched.
pub fn on_mouse_message(
    debouncer: &mut Debouncer,
    n_code: i32,
    w_param: usize,
    now: u64,
) -> (decision: Decision)
    ensures
        final(debouncer).window() == old(debouncer).window(),
        match event_of(n_code as int, w_param as int) {
            Some(ButtonEvent::Down) => {
                &&& decision == old(debouncer)@.down_decision(old(debouncer).window(), now as int)
                &&& final(debouncer)@ == old(debouncer).model_after_down(now)
            },
            Some(ButtonEvent::Up) => {
                &&& decision == old(debouncer)@.up_decision()
                &&& final(debouncer)@ == old(debouncer)@.after_up()
            },
            None => {
                &&& decision == Decision::Pass
                &&& *final(debouncer) == *old(debouncer)
            },
        },
{
    match classify(n_code, w_param) {
        Some(ButtonEvent::Down) => debouncer.on_button_down(now),
        Some(ButtonEvent::Up) => debouncer.on_button_up(now),
        None => Decision::Pass,
    }
}

/// Turns a decision into the hook's answer.
pub fn hook_reply(decision: Decision) -> (reply: Option<isize>)
    ensures
        reply == reply_of(decision),
{
    match decision {
        Decision::Suppress => Some(1),
        Decision::Pass => None,
    }
}

} // verus!
