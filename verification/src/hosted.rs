//! Host-facing entry points for hosted execution, and the process-wide
//! runner slot they act on. The host owns the thread and calls these in any
//! order it chooses, never concurrently or reentrantly; exclusive access is
//! enforced by ownership of the slot.
#![allow(non_snake_case)]
use vstd::prelude::*;
use crate::input::{KeyCode, TouchPoint, key_from_index, KEY_CODE_COUNT};
use crate::app_context::AppContext;
use crate::runner::{
    AppRunner,
    InitOutcome,
    InputOutcome,
    LifecycleError,
    RestartOutcome,
    UpdateOutcome,
    init_transition,
    input_transition,
    restart_transition,
    update_transition,
};
use crate::App;

verus! {

/// The single process-wide runner. It is installed exactly once; a second
/// installation is rejected and leaves the first runner untouched.
pub struct AppRunnerSlot {
    pub runner: Option<AppRunner>,
}

impl AppRunnerSlot {
    /// An empty slot.
    pub fn new() -> (r: AppRunnerSlot)
        ensures
            r.runner is None,
    {
        AppRunnerSlot { runner: None }
    }

    /// Install the runner. A second call is rejected and the slot — and so
    /// the first runner's state — is unaffected.
    pub fn install(&mut self, runner: AppRunner) -> (r: Result<(), LifecycleError>)
        ensures
            old(self).runner is Some ==> r == Err::<(), LifecycleError>(
                LifecycleError::AlreadyInstalled,
            ) && *final(self) == *old(self),
            old(self).runner is None ==> r is Ok && final(self).runner == Some(runner),
    {
        if self.runner.is_some() {
            return Err(LifecycleError::AlreadyInstalled);
        }
        self.runner = Some(runner);
        Ok(())
    }
}

/// Whether a runner has been installed.
pub fn app_runner_is_defined(slot: &AppRunnerSlot) -> (r: bool)
    ensures
        r == (slot.runner is Some),
{
    slot.runner.is_some()
}

/// Whether a runner has been installed, as the host sees it.
pub fn nuuroWasmIsAppDefined(slot: &AppRunnerSlot) -> (r: i32)
    ensures
        r == if slot.runner is Some {
            1int
        } else {
            0int
        },
{
    if app_runner_is_defined(slot) {
        1
    } else {
        0
    }
}

/// Initialize the installed runner exactly once.
pub fn nuuroWasmInit<A: App>(slot: &mut AppRunnerSlot, app: &mut A) -> (r: Result<
    InitOutcome,
    LifecycleError,
>)
    requires
        old(slot).runner is Some,
    ensures
        final(slot).runner is Some,
        old(slot).runner matches Some(pre) && final(slot).runner matches Some(post)
            && init_transition(pre, post, r),
{
    match &mut slot.runner {
        Some(runner) => runner.init(app),
        None => vstd::pervasive::unreached(),
    }
}

/// Record a new drawable size.
pub fn nuuroWasmOnResize(slot: &mut AppRunnerSlot, w: u32, h: u32)
    requires
        old(slot).runner is Some,
    ensures
        old(slot).runner matches Some(pre) && final(slot).runner matches Some(post) && post == (
        AppRunner { ctx: (AppContext { dims: (w, h), ..pre.ctx }), ..pre }),
{
    match &mut slot.runner {
        Some(runner) => runner.resize((w, h)),
        None => vstd::pervasive::unreached(),
    }
}

/// One hosted tick: cursor and touches are updated unconditionally, then
/// the app advances and renders per the tick contract.
pub fn nuuroWasmUpdateAndDraw<A: App>(
    slot: &mut AppRunnerSlot,
    app: &mut A,
    time_ms: u64,
    cursor_x: i32,
    cursor_y: i32,
    touches: Vec<TouchPoint>,
    actual_fullscreen: bool,
) -> (r: UpdateOutcome)
    requires
        old(slot).runner is Some,
    ensures
        old(slot).runner matches Some(pre) && final(slot).runner matches Some(post)
            && update_transition(
            (AppRunner {
                ctx: (AppContext { cursor: (cursor_x, cursor_y), touches, ..pre.ctx }),
                ..pre
            }),
            post,
            time_ms,
            actual_fullscreen,
            r,
        ),
{
    match &mut slot.runner {
        Some(runner) => {
            runner.update_cursor(cursor_x, cursor_y);
            runner.update_touches(touches);
            runner.update_and_draw(app, time_ms, actual_fullscreen)
        },
        None => vstd::pervasive::unreached(),
    }
}

/// One key transition, by the code's position in the enumeration.
pub fn nuuroWasmKeyEvent<A: App>(
    slot: &mut AppRunnerSlot,
    app: &mut A,
    code: i32,
    down: bool,
    actual_fullscreen: bool,
) -> (r: InputOutcome)
    requires
        old(slot).runner is Some,
        0 <= code < KEY_CODE_COUNT as i32,
    ensures
        old(slot).runner matches Some(pre) && final(slot).runner matches Some(post)
            && input_transition(pre, post, key_from_index(code as int), down, actual_fullscreen, r),
{
    let key = KeyCode::from_u8(code as u8).unwrap();
    match &mut slot.runner {
        Some(runner) => runner.input(app, key, down, actual_fullscreen),
        None => vstd::pervasive::unreached(),
    }
}

/// The key or button a host mouse-button number stands for.
pub open spec fn mouse_button_code(button: i32) -> Option<KeyCode> {
    if button == 0 {
        Some(KeyCode::MouseLeft)
    } else if button == 1 {
        Some(KeyCode::MouseMiddle)
    } else if button == 2 {
        Some(KeyCode::MouseRight)
    } else {
        None
    }
}

/// One mouse transition: the cursor moves unconditionally; a recognized
/// button is routed through the input contract, an unrecognized one is
/// ignored and the run continues.
pub fn nuuroWasmMouseEvent<A: App>(
    slot: &mut AppRunnerSlot,
    app: &mut A,
    cursor_x: i32,
    cursor_y: i32,
    button: i32,
    down: bool,
    actual_fullscreen: bool,
) -> (r: InputOutcome)
    requires
        old(slot).runner is Some,
    ensures
        mouse_button_code(button) matches Some(k) ==> (old(slot).runner matches Some(pre)
            && final(slot).runner matches Some(post) && input_transition(
            (AppRunner { ctx: (AppContext { cursor: (cursor_x, cursor_y), ..pre.ctx }), ..pre }),
            post,
            k,
            down,
            actual_fullscreen,
            r,
        )),
        mouse_button_code(button) is None ==> (old(slot).runner matches Some(pre)
            && final(slot).runner matches Some(post) && post == (AppRunner {
            ctx: (AppContext { cursor: (cursor_x, cursor_y), ..pre.ctx }),
            ..pre
        }) && r == (InputOutcome {
            write_cookie: false,
            fullscreen_request: None::<bool>,
            continuing: true,
        })),
{
    let code = if button == 0 {
        Some(KeyCode::MouseLeft)
    } else if button == 1 {
        Some(KeyCode::MouseMiddle)
    } else if button == 2 {
        Some(KeyCode::MouseRight)
    } else {
        None
    };
    match &mut slot.runner {
        Some(runner) => {
            runner.update_cursor(cursor_x, cursor_y);
            match code {
                Some(key) => runner.input(app, key, down, actual_fullscreen),
                None => InputOutcome {
                    write_cookie: false,
                    fullscreen_request: None,
                    continuing: true,
                },
            }
        },
        None => vstd::pervasive::unreached(),
    }
}

/// One touch transition: the touch list is updated unconditionally, then
/// the touch code is routed through the input contract.
pub fn nuuroWasmTouchEvent<A: App>(
    slot: &mut AppRunnerSlot,
    app: &mut A,
    touches: Vec<TouchPoint>,
    down: bool,
    actual_fullscreen: bool,
) -> (r: InputOutcome)
    requires
        old(slot).runner is Some,
    ensures
        old(slot).runner matches Some(pre) && final(slot).runner matches Some(post)
            && input_transition(
            (AppRunner { ctx: (AppContext { touches, ..pre.ctx }), ..pre }),
            post,
            KeyCode::Touch,
            down,
            actual_fullscreen,
            r,
        ),
{
    match &mut slot.runner {
        Some(runner) => {
            runner.update_touches(touches);
            runner.input(app, KeyCode::Touch, down, actual_fullscreen)
        },
        None => vstd::pervasive::unreached(),
    }
}

/// How many music resources the app was built with.
pub fn nuuroWasmMusicCount(slot: &AppRunnerSlot) -> (r: i32)
    requires
        slot.runner is Some,
    ensures
        slot.runner matches Some(runner) && r == runner.config.music_count as i32,
{
    match &slot.runner {
        Some(runner) => runner.music_count() as i32,
        None => vstd::pervasive::unreached(),
    }
}

/// How many sound resources the app was built with.
pub fn nuuroWasmSoundCount(slot: &AppRunnerSlot) -> (r: i32)
    requires
        slot.runner is Some,
    ensures
        slot.runner matches Some(runner) && r == runner.config.sound_count as i32,
{
    match &slot.runner {
        Some(runner) => runner.sound_count() as i32,
        None => vstd::pervasive::unreached(),
    }
}

/// The host reinitialized the embedding without a fresh `init`.
pub fn nuuroWasmOnRestart<A: App>(slot: &mut AppRunnerSlot, app: &mut A, actual_fullscreen: bool)
    -> (r: Result<RestartOutcome, LifecycleError>)
    requires
        old(slot).runner is Some,
    ensures
        old(slot).runner matches Some(pre) && final(slot).runner matches Some(post)
            && restart_transition(pre, post, r),
{
    match &mut slot.runner {
        Some(runner) => runner.on_restart(app, actual_fullscreen),
        None => vstd::pervasive::unreached(),
    }
}

/// Hand the installed runner a cookie read back by the host.
pub fn load_cookie(slot: &mut AppRunnerSlot, data: Vec<u8>)
    requires
        old(slot).runner is Some,
    ensures
        old(slot).runner matches Some(pre) && final(slot).runner matches Some(post) && post == (
        AppRunner {
            ctx: (AppContext { cookie: data, cookie_updated: false, ..pre.ctx }),
            ..pre
        }),
{
    match &mut slot.runner {
        Some(runner) => runner.load_cookie(data),
        None => vstd::pervasive::unreached(),
    }
}

} // verus!
