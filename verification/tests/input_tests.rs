use nuuro::app_context::AppContext;
use nuuro::event_handler::EventHandler;
use nuuro::input::{KeyCode, TouchPoint, KEY_CODE_COUNT};
use nuuro::runner::resolve_fullscreen_requests;
use nuuro::App;

struct CountingApp {
    downs: Vec<KeyCode>,
    ups: Vec<KeyCode>,
}

impl App for CountingApp {
    fn start(&mut self, _ctx: &mut AppContext) {}

    fn advance(&mut self, _millis: u32, _ctx: &mut AppContext) {}

    fn key_down(&mut self, key: KeyCode, _ctx: &mut AppContext) {
        self.downs.push(key);
    }

    fn key_up(&mut self, key: KeyCode, _ctx: &mut AppContext) {
        self.ups.push(key);
    }

    fn render(&mut self, _ctx: &AppContext) {}
}

#[test]
fn event_handler_absorbs_auto_repeat() {
    let mut handler = EventHandler::new();
    let mut app = CountingApp { downs: Vec::new(), ups: Vec::new() };
    let mut ctx = AppContext::new();

    assert!(handler.key_event(KeyCode::X, true, &mut app, &mut ctx));
    assert!(!handler.key_event(KeyCode::X, true, &mut app, &mut ctx));
    assert_eq!(app.downs, vec![KeyCode::X]);

    assert!(handler.key_event(KeyCode::X, false, &mut app, &mut ctx));
    assert!(handler.key_event(KeyCode::X, true, &mut app, &mut ctx));
    assert_eq!(app.downs, vec![KeyCode::X, KeyCode::X]);
    assert_eq!(app.ups, vec![KeyCode::X]);
}

#[test]
fn event_handler_tracks_codes_independently() {
    let mut handler = EventHandler::new();
    let mut app = CountingApp { downs: Vec::new(), ups: Vec::new() };
    let mut ctx = AppContext::new();

    assert!(handler.key_event(KeyCode::A, true, &mut app, &mut ctx));
    assert!(handler.key_event(KeyCode::B, true, &mut app, &mut ctx));
    assert!(!handler.key_event(KeyCode::A, true, &mut app, &mut ctx));
    assert!(handler.key_event(KeyCode::B, false, &mut app, &mut ctx));
    assert!(!handler.key_event(KeyCode::B, false, &mut app, &mut ctx));
    assert_eq!(app.downs, vec![KeyCode::A, KeyCode::B]);
    assert_eq!(app.ups, vec![KeyCode::B]);
}

#[test]
fn key_code_count_and_round_trip() {
    assert_eq!(KeyCode::count(), 48);
    assert_eq!(KEY_CODE_COUNT, 48);
    for id in 0..KEY_CODE_COUNT {
        let key = KeyCode::from_u8(id).expect("every position below the count is a code");
        assert_eq!(key.index(), id);
    }
    assert!(KeyCode::from_u8(48).is_none());
    assert!(KeyCode::from_u8(255).is_none());
    assert_eq!(KeyCode::from_u8(0), Some(KeyCode::A));
    assert_eq!(KeyCode::from_u8(37), Some(KeyCode::Left));
    assert_eq!(KeyCode::from_u8(47), Some(KeyCode::Touch));
}

#[test]
fn touch_point_reports_id_and_position() {
    let touch = TouchPoint::new(7, -3, 12);
    assert_eq!(touch.id(), 7);
    assert_eq!(touch.pos(), (-3, 12));
}

#[test]
fn context_latches_and_clears_requests() {
    let mut ctx = AppContext::new();
    assert!(!ctx.take_close_request());
    ctx.close();
    assert!(ctx.take_close_request());
    assert!(!ctx.take_close_request());

    assert!(!ctx.take_cookie_updated_flag());
    ctx.set_cookie(vec![9, 8, 7]);
    assert_eq!(ctx.cookie_buffer(), &vec![9, 8, 7]);
    assert!(ctx.take_cookie_updated_flag());
    assert!(!ctx.take_cookie_updated_flag());
}

#[test]
fn context_tracks_cursor_dims_and_fullscreen() {
    let mut ctx = AppContext::new();
    assert_eq!(ctx.cursor(), (0, 0));
    ctx.set_cursor((5, -9));
    assert_eq!(ctx.cursor(), (5, -9));
    ctx.set_dims((800, 600));
    assert_eq!(ctx.dims(), (800, 600));

    assert!(!ctx.is_fullscreen());
    assert!(!ctx.desires_fullscreen());
    ctx.set_fullscreen(true);
    assert!(ctx.desires_fullscreen());
    ctx.set_is_fullscreen(true);
    assert!(ctx.is_fullscreen());
}

#[test]
fn fullscreen_resolution_covers_all_four_states() {
    let mut ctx = AppContext::new();
    assert_eq!(resolve_fullscreen_requests(&ctx), None);
    ctx.set_fullscreen(true);
    assert_eq!(resolve_fullscreen_requests(&ctx), Some(true));
    ctx.set_is_fullscreen(true);
    assert_eq!(resolve_fullscreen_requests(&ctx), None);
    ctx.set_fullscreen(false);
    assert_eq!(resolve_fullscreen_requests(&ctx), Some(false));
}

#[test]
fn timestep_clamp_caps_at_the_maximum() {
    assert_eq!(nuuro::clamp_timestep(0), 0);
    assert_eq!(nuuro::clamp_timestep(65), 65);
    assert_eq!(nuuro::clamp_timestep(66), 66);
    assert_eq!(nuuro::clamp_timestep(1_000_000), 66);
    assert_eq!(nuuro::MAX_TIMESTEP_MS, 66);
}
