//! Run-loop core for a small game library: a frame-pacing clock, an input
//! dedup layer, a keyed timer registry, and an app lifecycle runner that can
//! be driven either by a self-owned loop or by discrete host entry points,
//! with identical observable behavior under both drivers.
use vstd::prelude::*;

pub mod app_clock;
pub mod app_context;
pub mod event_handler;
pub mod hosted;
pub mod input;
pub mod keyboard;
pub mod runner;
pub mod timer;
pub mod units;

use crate::app_context::AppContext;
use crate::input::KeyCode;

verus! {

/// Longest timestep, in whole milliseconds, ever handed to the app in one
/// `advance` call (about a fifteenth of a second).
pub const MAX_TIMESTEP_MS: u32 = 66;

/// An elapsed time clamped to the timestep cap.
pub open spec fn clamped_timestep_ms(elapsed_ms: u64) -> u32 {
    if elapsed_ms < MAX_TIMESTEP_MS as u64 {
        elapsed_ms as u32
    } else {
        MAX_TIMESTEP_MS
    }
}

/// Clamp an elapsed time to the timestep cap before handing it to the app.
pub fn clamp_timestep(elapsed_ms: u64) -> (r: u32)
    ensures
        r == clamped_timestep_ms(elapsed_ms),
{
    if elapsed_ms < MAX_TIMESTEP_MS as u64 {
        elapsed_ms as u32
    } else {
        MAX_TIMESTEP_MS
    }
}

/// Trait that a user implements to specify application behavior.
pub trait App {
    /// Invoked once, when the application is first started.
    fn start(&mut self, ctx: &mut AppContext);

    /// Advances the app state by a given number of milliseconds.
    fn advance(&mut self, millis: u32, ctx: &mut AppContext);

    /// Invoked when a key or mouse button is pressed down.
    fn key_down(&mut self, key: KeyCode, ctx: &mut AppContext);

    /// Invoked when a key or mouse button is released.
    fn key_up(&mut self, key: KeyCode, ctx: &mut AppContext);

    /// Render the app in its current state.
    fn render(&mut self, ctx: &AppContext);
}

} // verus!
