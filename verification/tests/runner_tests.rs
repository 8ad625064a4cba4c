use nuuro::app_context::AppContext;
use nuuro::hosted::{
    app_runner_is_defined, nuuroWasmInit, nuuroWasmIsAppDefined, nuuroWasmKeyEvent,
    nuuroWasmMouseEvent, nuuroWasmMusicCount, nuuroWasmOnResize, nuuroWasmOnRestart,
    nuuroWasmSoundCount, nuuroWasmTouchEvent, nuuroWasmUpdateAndDraw, AppRunnerSlot,
};
use nuuro::input::{KeyCode, TouchPoint};
use nuuro::runner::{AppConfig, AppRunner, LifecycleError};
use nuuro::App;

/// An app that records every callback it receives.
struct RecordingApp {
    started: u32,
    advances: Vec<u32>,
    downs: Vec<KeyCode>,
    ups: Vec<KeyCode>,
    renders: u32,
    close_on_advance: bool,
    close_on_start: bool,
    close_on_key_up: bool,
    cookie_on_start: bool,
    cookie_writes_per_advance: u32,
}

impl RecordingApp {
    fn new() -> RecordingApp {
        RecordingApp {
            started: 0,
            advances: Vec::new(),
            downs: Vec::new(),
            ups: Vec::new(),
            renders: 0,
            close_on_advance: false,
            close_on_start: false,
            close_on_key_up: false,
            cookie_on_start: false,
            cookie_writes_per_advance: 0,
        }
    }
}

impl App for RecordingApp {
    fn start(&mut self, ctx: &mut AppContext) {
        self.started += 1;
        if self.cookie_on_start {
            ctx.set_cookie(vec![42]);
        }
        if self.close_on_start {
            ctx.close();
        }
    }

    fn advance(&mut self, millis: u32, ctx: &mut AppContext) {
        self.advances.push(millis);
        for i in 0..self.cookie_writes_per_advance {
            ctx.set_cookie(vec![i as u8, 1, 2]);
        }
        if self.close_on_advance {
            ctx.close();
        }
    }

    fn key_down(&mut self, key: KeyCode, _ctx: &mut AppContext) {
        self.downs.push(key);
    }

    fn key_up(&mut self, key: KeyCode, ctx: &mut AppContext) {
        self.ups.push(key);
        if self.close_on_key_up {
            ctx.close();
        }
    }

    fn render(&mut self, _ctx: &AppContext) {
        self.renders += 1;
    }
}

fn config() -> AppConfig {
    AppConfig { sound_count: 4, music_count: 2 }
}

#[test]
fn repeated_press_fires_key_down_exactly_once() {
    let mut app = RecordingApp::new();
    let mut runner = AppRunner::new(config());

    runner.input(&mut app, KeyCode::X, true, false);
    runner.input(&mut app, KeyCode::X, true, false);
    assert_eq!(app.downs, vec![KeyCode::X]);

    runner.input(&mut app, KeyCode::X, false, false);
    runner.input(&mut app, KeyCode::X, true, false);
    assert_eq!(app.downs, vec![KeyCode::X, KeyCode::X]);
    assert_eq!(app.ups, vec![KeyCode::X]);
}

#[test]
fn stray_release_is_a_no_op() {
    let mut app = RecordingApp::new();
    let mut runner = AppRunner::new(config());
    runner.input(&mut app, KeyCode::Space, false, false);
    assert!(app.ups.is_empty());
    assert!(app.downs.is_empty());
}

#[test]
fn on_restart_releases_all_held_keys_without_key_down() {
    let mut app = RecordingApp::new();
    let mut runner = AppRunner::new(config());
    runner.input(&mut app, KeyCode::A, true, false);
    runner.input(&mut app, KeyCode::Left, true, false);
    let downs_before = app.downs.len();

    let outcome = runner.on_restart(&mut app, false).expect("no close was requested");
    let mut released = outcome.released.clone();
    released.sort_by_key(|k| *k as u8);
    assert_eq!(released, vec![KeyCode::A, KeyCode::Left]);
    assert_eq!(app.downs.len(), downs_before);
    let mut ups = app.ups.clone();
    ups.sort_by_key(|k| *k as u8);
    assert_eq!(ups, vec![KeyCode::A, KeyCode::Left]);

    // held state is empty again: releasing now fires nothing
    runner.input(&mut app, KeyCode::A, false, false);
    assert_eq!(app.ups.len(), 2);
    // and a fresh press fires again
    runner.input(&mut app, KeyCode::A, true, false);
    assert_eq!(app.downs.len(), downs_before + 1);
}

#[test]
fn init_runs_start_once_and_rejects_a_second_call() {
    let mut app = RecordingApp::new();
    let mut runner = AppRunner::new(config());
    let outcome = runner.init(&mut app).expect("first init succeeds");
    assert!(!outcome.write_cookie);
    assert_eq!(app.started, 1);

    let second = runner.init(&mut app);
    assert_eq!(second, Err(LifecycleError::AlreadyInitialized));
    assert_eq!(app.started, 1);
    // the first initialization's state is unaffected
    assert_eq!(runner.music_count(), 2);
    assert_eq!(runner.sound_count(), 4);
}

#[test]
fn close_during_start_is_a_contract_violation() {
    let mut app = RecordingApp::new();
    app.close_on_start = true;
    let mut runner = AppRunner::new(config());
    let outcome = runner.init(&mut app);
    assert_eq!(outcome, Err(LifecycleError::CloseAtInit));
}

#[test]
fn close_during_restart_is_a_contract_violation() {
    let mut app = RecordingApp::new();
    app.close_on_key_up = true;
    let mut runner = AppRunner::new(config());
    runner.input(&mut app, KeyCode::Q, true, false);
    let outcome = runner.on_restart(&mut app, false);
    assert!(matches!(outcome, Err(LifecycleError::CloseAtRestart)));
    assert_eq!(app.ups, vec![KeyCode::Q]);
}

#[test]
fn update_and_draw_clamps_the_timestep() {
    let mut app = RecordingApp::new();
    let mut runner = AppRunner::new(config());

    // the first tick sees no elapsed time and does not advance
    let first = runner.update_and_draw(&mut app, 0, false);
    assert!(first.continuing);
    assert!(app.advances.is_empty());
    assert_eq!(app.renders, 1);

    // a huge gap is pre-clamped to 100 ms and then capped at the timestep
    runner.update_and_draw(&mut app, 100_000, false);
    assert_eq!(app.advances, vec![66]);

    // a short gap passes through unchanged
    runner.update_and_draw(&mut app, 100_010, false);
    assert_eq!(app.advances, vec![66, 10]);

    // a backwards host clock reads as no elapsed time
    runner.update_and_draw(&mut app, 50_000, false);
    assert_eq!(app.advances, vec![66, 10]);
    assert_eq!(app.renders, 4);
}

#[test]
fn pending_close_is_reported_even_without_advance() {
    let mut app = RecordingApp::new();
    let mut runner = AppRunner::new(config());
    runner.ctx.close();
    // the first tick sees no elapsed time, so no callback runs, but the
    // pending close is consumed and reported all the same
    let outcome = runner.update_and_draw(&mut app, 0, false);
    assert!(!outcome.continuing);
    assert!(app.advances.is_empty());
    assert_eq!(app.renders, 0);
    assert!(!runner.ctx.close_requested);
}

#[test]
fn init_reports_the_cookie_start_left() {
    let mut app = RecordingApp::new();
    app.cookie_on_start = true;
    let mut runner = AppRunner::new(config());
    let outcome = runner.init(&mut app).expect("no close requested");
    assert!(outcome.write_cookie);
    assert_eq!(runner.ctx.cookie_buffer(), &vec![42u8]);
}

#[test]
fn input_reports_a_dirty_cookie_even_when_no_callback_fires() {
    let mut app = RecordingApp::new();
    let mut runner = AppRunner::new(config());
    runner.ctx.set_cookie(vec![7]);
    // a stray release fires no callback, yet the write-back takes the flag
    let outcome = runner.input(&mut app, KeyCode::A, false, false);
    assert!(outcome.write_cookie);
    let outcome = runner.input(&mut app, KeyCode::A, false, false);
    assert!(!outcome.write_cookie);
}

#[test]
fn close_during_advance_skips_render_and_stops() {
    let mut app = RecordingApp::new();
    app.close_on_advance = true;
    let mut runner = AppRunner::new(config());
    runner.update_and_draw(&mut app, 0, false);
    assert_eq!(app.renders, 1);
    let outcome = runner.update_and_draw(&mut app, 20, false);
    assert!(!outcome.continuing);
    assert_eq!(app.renders, 1);
}

#[test]
fn cookie_write_back_happens_at_most_once_per_tick() {
    let mut app = RecordingApp::new();
    app.cookie_writes_per_advance = 3;
    let mut runner = AppRunner::new(config());
    runner.update_and_draw(&mut app, 0, false);

    // the app dirtied the cookie three times inside one advance:
    // exactly one write-back is owed
    let outcome = runner.update_and_draw(&mut app, 20, false);
    assert!(outcome.write_cookie);
    assert_eq!(runner.ctx.cookie_buffer(), &vec![2u8, 1, 2]);

    // a tick in which the app leaves the cookie alone owes none
    app.cookie_writes_per_advance = 0;
    let outcome = runner.update_and_draw(&mut app, 40, false);
    assert!(!outcome.write_cookie);
}

#[test]
fn fullscreen_negotiation_requests_only_on_mismatch() {
    let mut app = RecordingApp::new();
    let mut runner = AppRunner::new(config());

    runner.ctx.set_fullscreen(true);
    let outcome = runner.input(&mut app, KeyCode::F, true, false);
    assert_eq!(outcome.fullscreen_request, Some(true));

    // the host confirmed: desired == actual, nothing to request
    let outcome = runner.input(&mut app, KeyCode::F, false, true);
    assert_eq!(outcome.fullscreen_request, None);

    runner.ctx.set_fullscreen(false);
    let outcome = runner.input(&mut app, KeyCode::G, true, true);
    assert_eq!(outcome.fullscreen_request, Some(false));
}

#[test]
fn slot_installs_exactly_once() {
    let mut slot = AppRunnerSlot::new();
    assert!(!app_runner_is_defined(&slot));
    assert_eq!(nuuroWasmIsAppDefined(&slot), 0);

    slot.install(AppRunner::new(config())).expect("first install succeeds");
    assert!(app_runner_is_defined(&slot));
    assert_eq!(nuuroWasmIsAppDefined(&slot), 1);

    let mut app = RecordingApp::new();
    nuuroWasmInit(&mut slot, &mut app).expect("init succeeds");
    assert_eq!(app.started, 1);

    // a second installation is rejected and the first runner is unaffected
    let second = slot.install(AppRunner::new(AppConfig { sound_count: 9, music_count: 9 }));
    assert_eq!(second, Err(LifecycleError::AlreadyInstalled));
    assert_eq!(nuuroWasmMusicCount(&slot), 2);
    assert_eq!(nuuroWasmSoundCount(&slot), 4);
    let again = nuuroWasmInit(&mut slot, &mut app);
    assert_eq!(again, Err(LifecycleError::AlreadyInitialized));
    assert_eq!(app.started, 1);
}

#[test]
fn hosted_key_and_mouse_events_route_through_dedup() {
    let mut slot = AppRunnerSlot::new();
    slot.install(AppRunner::new(config())).unwrap();
    let mut app = RecordingApp::new();

    let code_a = 0; // the first code of the enumeration
    let outcome = nuuroWasmKeyEvent(&mut slot, &mut app, code_a, true, false);
    assert!(outcome.continuing);
    nuuroWasmKeyEvent(&mut slot, &mut app, code_a, true, false);
    assert_eq!(app.downs, vec![KeyCode::A]);

    nuuroWasmMouseEvent(&mut slot, &mut app, 10, 20, 0, true, false);
    assert_eq!(app.downs, vec![KeyCode::A, KeyCode::MouseLeft]);
    // an unrecognized button only moves the cursor
    let outcome = nuuroWasmMouseEvent(&mut slot, &mut app, 30, 40, 7, true, false);
    assert!(outcome.continuing);
    assert_eq!(app.downs.len(), 2);
}

#[test]
fn hosted_update_and_draw_updates_cursor_and_touches() {
    let mut slot = AppRunnerSlot::new();
    slot.install(AppRunner::new(config())).unwrap();
    let mut app = RecordingApp::new();

    let touches = vec![TouchPoint::new(1, 5, 6)];
    let outcome = nuuroWasmUpdateAndDraw(&mut slot, &mut app, 0, 11, 22, touches, false);
    assert!(outcome.continuing);
    let runner = slot.runner.as_ref().unwrap();
    assert_eq!(runner.ctx.cursor(), (11, 22));
    assert_eq!(runner.ctx.touches().len(), 1);
    assert_eq!(runner.ctx.touches()[0].pos(), (5, 6));

    nuuroWasmOnResize(&mut slot, 640, 480);
    assert_eq!(slot.runner.as_ref().unwrap().ctx.dims(), (640, 480));
}

#[test]
fn hosted_touch_event_routes_the_touch_code() {
    let mut slot = AppRunnerSlot::new();
    slot.install(AppRunner::new(config())).unwrap();
    let mut app = RecordingApp::new();

    nuuroWasmTouchEvent(&mut slot, &mut app, vec![TouchPoint::new(1, 2, 3)], true, false);
    assert_eq!(app.downs, vec![KeyCode::Touch]);
    nuuroWasmTouchEvent(&mut slot, &mut app, Vec::new(), false, false);
    assert_eq!(app.ups, vec![KeyCode::Touch]);
}

#[test]
fn hosted_restart_is_fatal_only_on_close() {
    let mut slot = AppRunnerSlot::new();
    slot.install(AppRunner::new(config())).unwrap();
    let mut app = RecordingApp::new();
    nuuroWasmKeyEvent(&mut slot, &mut app, 3, true, false);
    let outcome = nuuroWasmOnRestart(&mut slot, &mut app, false).expect("no close requested");
    assert_eq!(outcome.released, vec![KeyCode::D]);
    assert_eq!(app.ups, vec![KeyCode::D]);
}
