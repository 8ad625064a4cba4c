//! The app lifecycle runner for hosted (externally-driven) execution: the
//! host invokes discrete entry points, never concurrently or reentrantly,
//! and the runner drives the app callbacks in a fixed order, with
//! exactly-once input semantics, at-most-once cookie write-back per tick,
//! and timestep clamping identical to the self-driven loop.
use vstd::prelude::*;
use crate::app_context::AppContext;
use crate::input::{KeyCode, TouchPoint};
use crate::keyboard::KeyState;
use crate::{App, clamped_timestep_ms};

verus! {

broadcast use vstd::prelude::Seq::lemma_take_succ_push;

/// Milliseconds the hosted per-tick elapsed time is pre-clamped to.
pub const HOSTED_ELAPSED_CAP_MS: u64 = 100;

/// One app callback, as recorded in the runner's event history.
#[derive(Clone, Copy, Debug, PartialEq, Eq, Structural)]
pub enum AppEvent {
    /// `start(ctx)` was invoked.
    Start,
    /// `advance(millis, ctx)` was invoked with this timestep.
    Advance(u32),
    /// `key_down(key, ctx)` was invoked.
    KeyDown(KeyCode),
    /// `key_up(key, ctx)` was invoked.
    KeyUp(KeyCode),
    /// `render(ctx)` was invoked.
    Render,
}

/// Embedding misuse: these are fatal, not recoverable runtime conditions.
#[derive(Clone, Copy, Debug, PartialEq, Eq, Structural)]
pub enum LifecycleError {
    /// The runner was asked to initialize twice.
    AlreadyInitialized,
    /// The global runner was installed twice.
    AlreadyInstalled,
    /// The app requested a close immediately upon start.
    CloseAtInit,
    /// The app requested a close immediately upon restart.
    CloseAtRestart,
}

/// Resource counts the app was built with, passed at construction in place
/// of any enumeration of asset types.
#[derive(Clone, Copy, Debug, PartialEq, Eq, Structural)]
pub struct AppConfig {
    pub sound_count: u16,
    pub music_count: u16,
}

/// What the host must do after `init`.
#[derive(Clone, Copy, Debug, PartialEq, Eq, Structural)]
pub struct InitOutcome {
    /// Persist the cookie now (its buffer sits in the context).
    pub write_cookie: bool,
}

/// What the host must do after `update_and_draw`.
#[derive(Clone, Copy, Debug, PartialEq, Eq, Structural)]
pub struct UpdateOutcome {
    /// Persist the cookie now.
    pub write_cookie: bool,
    /// False means a close was requested during this tick.
    pub continuing: bool,
}

/// What the host must do after `input`.
#[derive(Clone, Copy, Debug, PartialEq, Eq, Structural)]
pub struct InputOutcome {
    /// Persist the cookie now.
    pub write_cookie: bool,
    /// `Some(true)` asks for a transition to fullscreen, `Some(false)` to
    /// windowed; the host confirms asynchronously.
    pub fullscreen_request: Option<bool>,
    /// False means a close was requested during this input.
    pub continuing: bool,
}

/// What the host must do after `on_restart`.
#[derive(Debug, PartialEq, Eq)]
pub struct RestartOutcome {
    /// Persist the cookie now.
    pub write_cookie: bool,
    /// The codes whose held state was released, each exactly once.
    pub released: Vec<KeyCode>,
}

/// The transition the fullscreen negotiation asks for: desired and actual
/// state are compared, and a request is made only when they differ.
pub open spec fn fullscreen_request(is_fullscreen: bool, desires_fullscreen: bool) -> Option<
    bool,
> {
    if !is_fullscreen && desires_fullscreen {
        Some(true)
    } else if is_fullscreen && !desires_fullscreen {
        Some(false)
    } else {
        None
    }
}

/// Resolve the fullscreen negotiation for the current context.
pub fn resolve_fullscreen_requests(ctx: &AppContext) -> (r: Option<bool>)
    ensures
        r == fullscreen_request(ctx.is_fullscreen, ctx.desires_fullscreen),
{
    if !ctx.is_fullscreen && ctx.desires_fullscreen {
        Some(true)
    } else if ctx.is_fullscreen && !ctx.desires_fullscreen {
        Some(false)
    } else {
        None
    }
}

/// The per-tick elapsed time in hosted mode: the difference of host
/// timestamps, absorbed to 0 when time ran backwards and pre-clamped to the
/// hosted cap; 0 before the first tick.
pub open spec fn hosted_elapsed_ms(prev: Option<u64>, time_ms: u64) -> u64 {
    match prev {
        Option::None => 0u64,
        Option::Some(p) => if time_ms <= p {
            0u64
        } else if time_ms - p > HOSTED_ELAPSED_CAP_MS {
            HOSTED_ELAPSED_CAP_MS
        } else {
            (time_ms - p) as u64
        },
    }
}

/// Law: pacing and clamping never fail — the hosted per-tick elapsed time
/// never exceeds its cap, whatever timestamps the host supplies, and the
/// timestep handed to the app never exceeds the timestep cap.
pub proof fn lemma_clamps_absorb(prev: Option<u64>, time_ms: u64, elapsed_ms: u64)
    ensures
        hosted_elapsed_ms(prev, time_ms) <= HOSTED_ELAPSED_CAP_MS,
        clamped_timestep_ms(elapsed_ms) <= crate::MAX_TIMESTEP_MS,
{
}

/// The callback a single input transition fires, if any: a fresh press
/// fires `key_down`, a release of a held code fires `key_up`.
pub open spec fn input_event(held: Set<KeyCode>, key: KeyCode, down: bool) -> Option<AppEvent> {
    if down {
        if !held.contains(key) {
            Some(AppEvent::KeyDown(key))
        } else {
            None
        }
    } else {
        if held.contains(key) {
            Some(AppEvent::KeyUp(key))
        } else {
            None
        }
    }
}

/// How an entry point settles the context the app callbacks left behind
/// (`mid`): the write-back and continue decisions read exactly the two
/// flags `mid` holds, and the final context is `mid` with both flags
/// consumed — so the cookie bytes later handed to the host are `mid`'s.
pub open spec fn tick_settles(
    mid: AppContext,
    post: AppContext,
    write_cookie: bool,
    continuing: bool,
) -> bool {
    &&& post == (AppContext { cookie_updated: false, close_requested: false, ..mid })
    &&& write_cookie == mid.cookie_updated
    &&& continuing == !mid.close_requested
}

/// How `init` settles the context `start` left behind (`mid`): the call
/// fails exactly when `start` requested a close, a success carries the
/// cookie flag `start` left, and the final context is `mid` with both
/// flags consumed.
pub open spec fn init_settles(
    mid: AppContext,
    post: AppContext,
    r: Result<InitOutcome, LifecycleError>,
) -> bool {
    &&& post == (AppContext { cookie_updated: false, close_requested: false, ..mid })
    &&& (r is Err <==> mid.close_requested)
    &&& (r matches Ok(o) ==> o.write_cookie == mid.cookie_updated)
}

/// How `on_restart` settles the context the synthesized releases left
/// behind (`mid`): the call fails exactly when a close was pending
/// afterwards, a success carries the cookie flag left, and the final
/// context is `mid` with both flags consumed.
pub open spec fn restart_settles(
    mid: AppContext,
    post: AppContext,
    r: Result<RestartOutcome, LifecycleError>,
) -> bool {
    &&& post == (AppContext { cookie_updated: false, close_requested: false, ..mid })
    &&& (r is Err <==> mid.close_requested)
    &&& (r matches Ok(o) ==> o.write_cookie == mid.cookie_updated)
}

/// The callbacks one `update_and_draw` tick appends: an `advance` by the
/// clamped elapsed time when any time passed, then a `render` unless a close
/// was requested.
pub open spec fn update_events(
    prev: Seq<AppEvent>,
    last_time_ms: Option<u64>,
    time_ms: u64,
    continuing: bool,
) -> Seq<AppEvent> {
    let e = hosted_elapsed_ms(last_time_ms, time_ms);
    let s1 = if e > 0 {
        prev.push(AppEvent::Advance(clamped_timestep_ms(e)))
    } else {
        prev
    };
    if continuing {
        s1.push(AppEvent::Render)
    } else {
        s1
    }
}

/// The lifecycle runner for hosted execution. It owns the shared context
/// and the held-key state; the app itself is handed into each entry point.
pub struct AppRunner {
    /// The context the app callbacks mutate.
    pub ctx: AppContext,
    /// The currently-held input codes.
    pub keys: KeyState,
    /// The host timestamp of the previous tick, in ms.
    pub last_time_ms: Option<u64>,
    /// Whether `init` already ran.
    pub initialized: bool,
    /// Resource counts reported to the host.
    pub config: AppConfig,
    /// The app callbacks invoked so far, in order.
    pub events: Ghost<Seq<AppEvent>>,
}

/// What `init` does: initializing twice is rejected with the runner
/// untouched; otherwise `start` runs exactly once and the outcome settles
/// whatever context it left — `Err` exactly on a close requested during
/// `start`, a success carrying the cookie flag `start` left.
pub open spec fn init_transition(
    pre: AppRunner,
    post: AppRunner,
    r: Result<InitOutcome, LifecycleError>,
) -> bool {
    &&& pre.initialized ==> r == Err::<InitOutcome, LifecycleError>(
        LifecycleError::AlreadyInitialized,
    ) && post == pre
    &&& !pre.initialized ==> {
        &&& post.initialized
        &&& post.events@ == pre.events@.push(AppEvent::Start)
        &&& post.keys == pre.keys
        &&& post.last_time_ms == pre.last_time_ms
        &&& post.config == pre.config
        &&& (exists|mid: AppContext| #[trigger] init_settles(mid, post.ctx, r))
        &&& (r is Err ==> r == Err::<InitOutcome, LifecycleError>(LifecycleError::CloseAtInit))
    }
    &&& r is Ok ==> !pre.initialized
}

/// What one `update_and_draw` tick does: the fullscreen state is re-read
/// from the host, the host timestamp is stored, the app advances by the
/// clamped elapsed time if any passed, and the outcome settles whatever
/// context the callback left — the cookie is written back exactly when it
/// was dirtied (at most once per tick), and the tick continues, rendering,
/// exactly when no close was requested. When no time passed the app is not
/// called and the settled context is the old one with the fullscreen state
/// re-read.
pub open spec fn update_transition(
    pre: AppRunner,
    post: AppRunner,
    time_ms: u64,
    actual_fullscreen: bool,
    r: UpdateOutcome,
) -> bool {
    &&& post.last_time_ms == Some(time_ms)
    &&& post.initialized == pre.initialized
    &&& post.config == pre.config
    &&& post.keys == pre.keys
    &&& (exists|mid: AppContext|
        #[trigger] tick_settles(mid, post.ctx, r.write_cookie, r.continuing))
    &&& hosted_elapsed_ms(pre.last_time_ms, time_ms) == 0 ==> tick_settles(
        (AppContext { is_fullscreen: actual_fullscreen, ..pre.ctx }),
        post.ctx,
        r.write_cookie,
        r.continuing,
    )
    &&& post.events@ == update_events(pre.events@, pre.last_time_ms, time_ms, r.continuing)
}

/// What one `input` transition does: the fullscreen state is re-read from
/// the host, press/release dedup fires `key_down`/`key_up` at most once
/// (recorded in the history), and the outcome settles whatever context the
/// callback left — the cookie is written back exactly when it was dirtied,
/// and the transition continues exactly when no close was requested, in
/// which case the fullscreen negotiation is resolved against the settled
/// context. When no callback fires the settled context is the old one with
/// the fullscreen state re-read.
pub open spec fn input_transition(
    pre: AppRunner,
    post: AppRunner,
    key: KeyCode,
    down: bool,
    actual_fullscreen: bool,
    r: InputOutcome,
) -> bool {
    &&& post.keys.held() == if down {
        pre.keys.held().insert(key)
    } else {
        pre.keys.held().remove(key)
    }
    &&& post.events@ == match input_event(pre.keys.held(), key, down) {
        Option::Some(ev) => pre.events@.push(ev),
        Option::None => pre.events@,
    }
    &&& post.initialized == pre.initialized
    &&& post.config == pre.config
    &&& post.last_time_ms == pre.last_time_ms
    &&& (exists|mid: AppContext|
        #[trigger] tick_settles(mid, post.ctx, r.write_cookie, r.continuing))
    &&& input_event(pre.keys.held(), key, down) is None ==> tick_settles(
        (AppContext { is_fullscreen: actual_fullscreen, ..pre.ctx }),
        post.ctx,
        r.write_cookie,
        r.continuing,
    )
    &&& r.continuing ==> r.fullscreen_request == fullscreen_request(
        post.ctx.is_fullscreen,
        post.ctx.desires_fullscreen,
    )
    &&& !r.continuing ==> r.fullscreen_request is None
}

/// What `on_restart` does: every held code is released with a synthesized
/// `key_up` — never a `key_down` — leaving the held state empty, and the
/// outcome settles whatever context the releases left: the cookie is
/// written back exactly when it was dirtied, and the call fails exactly
/// when a close was pending afterwards.
pub open spec fn restart_transition(
    pre: AppRunner,
    post: AppRunner,
    r: Result<RestartOutcome, LifecycleError>,
) -> bool {
    &&& post.keys.held() == Set::<KeyCode>::empty()
    &&& post.initialized == pre.initialized
    &&& post.config == pre.config
    &&& post.last_time_ms == pre.last_time_ms
    &&& (exists|mid: AppContext| #[trigger] restart_settles(mid, post.ctx, r))
    &&& post.events@.len() >= pre.events@.len()
    &&& post.events@.subrange(0, pre.events@.len() as int) == pre.events@
    &&& forall|j: int|
        pre.events@.len() <= j < post.events@.len() ==> #[trigger] post.events@[j] is KeyUp
    &&& r matches Ok(o) ==> {
        &&& o.released@.no_duplicates()
        &&& (forall|k: KeyCode| o.released@.contains(k) <==> pre.keys.held().contains(k))
        &&& post.events@ == pre.events@ + o.released@.map_values(
            |k: KeyCode| AppEvent::KeyUp(k),
        )
    }
    &&& r matches Err(e) ==> e == LifecycleError::CloseAtRestart
}

impl AppRunner {
    /// A fresh runner: uninitialized, no keys held, no tick seen.
    pub fn new(config: AppConfig) -> (r: AppRunner)
        ensures
            !r.initialized,
            r.last_time_ms is None,
            r.keys.held() == Set::<KeyCode>::empty(),
            r.events@ == Seq::<AppEvent>::empty(),
            r.config == config,
            !r.ctx.close_requested,
            !r.ctx.cookie_updated,
            !r.ctx.is_fullscreen,
            !r.ctx.desires_fullscreen,
            r.ctx.cookie@ == Seq::<u8>::empty(),
    {
        AppRunner {
            ctx: AppContext::new(),
            keys: KeyState::new(),
            last_time_ms: None,
            initialized: false,
            config,
            events: Ghost(Seq::empty()),
        }
    }

    /// Initialize once: call `start(ctx)`, then write back the cookie if the
    /// app dirtied it. Initializing twice is rejected with the runner
    /// untouched; a close requested during `start` is a contract violation.
    pub fn init<A: App>(&mut self, app: &mut A) -> (r: Result<InitOutcome, LifecycleError>)
        ensures
            init_transition(*old(self), *final(self), r),
    {
        if self.initialized {
            return Err(LifecycleError::AlreadyInitialized);
        }
        self.initialized = true;
        app.start(&mut self.ctx);
        self.events = Ghost(self.events@.push(AppEvent::Start));
        let ghost mid = self.ctx;
        let write_cookie = self.ctx.take_cookie_updated_flag();
        if self.ctx.take_close_request() {
            proof {
                assert(init_settles(
                    mid,
                    self.ctx,
                    Err::<InitOutcome, LifecycleError>(LifecycleError::CloseAtInit),
                ));
            }
            return Err(LifecycleError::CloseAtInit);
        }
        proof {
            assert(init_settles(
                mid,
                self.ctx,
                Ok::<InitOutcome, LifecycleError>(InitOutcome { write_cookie }),
            ));
        }
        Ok(InitOutcome { write_cookie })
    }

    /// Record a new drawable size.
    pub fn resize(&mut self, dims: (u32, u32))
        ensures
            *final(self) == (AppRunner {
                ctx: (AppContext { dims, ..old(self).ctx }),
                ..*old(self)
            }),
    {
        self.ctx.set_dims(dims);
    }

    /// Move the cursor, unconditionally and independent of held state.
    pub fn update_cursor(&mut self, x: i32, y: i32)
        ensures
            *final(self) == (AppRunner {
                ctx: (AppContext { cursor: (x, y), ..old(self).ctx }),
                ..*old(self)
            }),
    {
        self.ctx.set_cursor((x, y));
    }

    /// Replace the touch state, unconditionally and independent of held
    /// state.
    pub fn update_touches(&mut self, touches: Vec<TouchPoint>)
        ensures
            *final(self) == (AppRunner {
                ctx: (AppContext { touches, ..old(self).ctx }),
                ..*old(self)
            }),
    {
        self.ctx.set_touches(touches);
    }

    /// One hosted tick: re-read fullscreen state, advance the app by the
    /// clamped elapsed time if any passed, write back the cookie at most
    /// once, and render unless a close was requested. Returns whether to
    /// continue.
    pub fn update_and_draw<A: App>(
        &mut self,
        app: &mut A,
        time_ms: u64,
        actual_fullscreen: bool,
    ) -> (r: UpdateOutcome)
        ensures
            update_transition(*old(self), *final(self), time_ms, actual_fullscreen, r),
    {
        self.ctx.set_is_fullscreen(actual_fullscreen);
        let elapsed: u64 = match self.last_time_ms {
            Some(p) => {
                let d = if time_ms >= p {
                    time_ms - p
                } else {
                    0
                };
                if d > HOSTED_ELAPSED_CAP_MS {
                    HOSTED_ELAPSED_CAP_MS
                } else {
                    d
                }
            },
            None => 0,
        };
        if elapsed > 0 {
            let advance_ms = crate::clamp_timestep(elapsed);
            app.advance(advance_ms, &mut self.ctx);
            self.events = Ghost(self.events@.push(AppEvent::Advance(advance_ms)));
        }
        let ghost mid = self.ctx;
        proof {
            if hosted_elapsed_ms(old(self).last_time_ms, time_ms) == 0 {
                assert(mid == (AppContext { is_fullscreen: actual_fullscreen, ..old(self).ctx }));
            }
        }
        self.last_time_ms = Some(time_ms);
        let write_cookie = self.ctx.take_cookie_updated_flag();
        let close_requested = self.ctx.take_close_request();
        if !close_requested {
            app.render(&self.ctx);
            self.events = Ghost(self.events@.push(AppEvent::Render));
        }
        let r = UpdateOutcome { write_cookie, continuing: !close_requested };
        proof {
            assert(exists|mid2: AppContext|
                #[trigger] tick_settles(mid2, self.ctx, r.write_cookie, r.continuing)) by {
                assert(tick_settles(mid, self.ctx, r.write_cookie, r.continuing));
            }
        }
        r
    }

    /// One input transition: re-read fullscreen state, apply press/release
    /// dedup (firing `key_down`/`key_up` at most once), write back the
    /// cookie, and resolve the fullscreen negotiation unless a close was
    /// requested.
    pub fn input<A: App>(
        &mut self,
        app: &mut A,
        key: KeyCode,
        down: bool,
        actual_fullscreen: bool,
    ) -> (r: InputOutcome)
        ensures
            input_transition(*old(self), *final(self), key, down, actual_fullscreen, r),
    {
        self.ctx.set_is_fullscreen(actual_fullscreen);
        if down {
            let fired = self.keys.press(key);
            if fired {
                app.key_down(key, &mut self.ctx);
                self.events = Ghost(self.events@.push(AppEvent::KeyDown(key)));
            }
        } else {
            let fired = self.keys.release(key);
            if fired {
                app.key_up(key, &mut self.ctx);
                self.events = Ghost(self.events@.push(AppEvent::KeyUp(key)));
            }
        }
        let ghost mid = self.ctx;
        proof {
            if input_event(old(self).keys.held(), key, down) is None {
                assert(mid == (AppContext { is_fullscreen: actual_fullscreen, ..old(self).ctx }));
            }
        }
        let write_cookie = self.ctx.take_cookie_updated_flag();
        if self.ctx.take_close_request() {
            let r = InputOutcome { write_cookie, fullscreen_request: None, continuing: false };
            proof {
                assert(exists|mid2: AppContext|
                    #[trigger] tick_settles(mid2, self.ctx, r.write_cookie, r.continuing)) by {
                    assert(tick_settles(mid, self.ctx, r.write_cookie, r.continuing));
                }
            }
            r
        } else {
            let fullscreen_request = resolve_fullscreen_requests(&self.ctx);
            let r = InputOutcome { write_cookie, fullscreen_request, continuing: true };
            proof {
                assert(exists|mid2: AppContext|
                    #[trigger] tick_settles(mid2, self.ctx, r.write_cookie, r.continuing)) by {
                    assert(tick_settles(mid, self.ctx, r.write_cookie, r.continuing));
                }
            }
            r
        }
    }

    /// The host reinitialized the embedding: synthesize a `key_up` for every
    /// held code (never a `key_down`), leaving the held state empty, then
    /// write back the cookie. A close requested here is a contract
    /// violation.
    pub fn on_restart<A: App>(&mut self, app: &mut A, actual_fullscreen: bool) -> (r: Result<
        RestartOutcome,
        LifecycleError,
    >)
        ensures
            restart_transition(*old(self), *final(self), r),
    {
        self.ctx.set_is_fullscreen(actual_fullscreen);
        let released = self.keys.drain();
        let ghost keys_after = self.keys;
        let ghost events0 = self.events@;
        let mut i: usize = 0;
        while i < released.len()
            invariant
                i <= released@.len(),
                self.keys == keys_after,
                keys_after.held() == Set::<KeyCode>::empty(),
                self.initialized == old(self).initialized,
                self.config == old(self).config,
                self.last_time_ms == old(self).last_time_ms,
                self.events@ == events0 + released@.take(i as int).map_values(
                    |k: KeyCode| AppEvent::KeyUp(k),
                ),
            decreases released@.len() - i,
        {
            let key = released[i];
            app.key_up(key, &mut self.ctx);
            self.events = Ghost(self.events@.push(AppEvent::KeyUp(key)));
            proof {
                assert(released@.take(i + 1).map_values(|k: KeyCode| AppEvent::KeyUp(k))
                    =~= released@.take(i as int).map_values(|k: KeyCode| AppEvent::KeyUp(k)).push(
                    AppEvent::KeyUp(released@[i as int]),
                ));
            }
            i = i + 1;
        }
        proof {
            assert(released@.take(released@.len() as int) =~= released@);
            assert forall|j: int|
                events0.len() <= j < self.events@.len() implies #[trigger] self.events@[j] is KeyUp by {
                assert(self.events@[j] == released@.map_values(|k: KeyCode| AppEvent::KeyUp(k))[j
                    - events0.len()]);
            }
            assert(self.events@.subrange(0, events0.len() as int) =~= events0);
        }
        let ghost mid = self.ctx;
        let write_cookie = self.ctx.take_cookie_updated_flag();
        if self.ctx.take_close_request() {
            proof {
                assert(restart_settles(
                    mid,
                    self.ctx,
                    Err::<RestartOutcome, LifecycleError>(LifecycleError::CloseAtRestart),
                ));
            }
            return Err(LifecycleError::CloseAtRestart);
        }
        let r = Ok(RestartOutcome { write_cookie, released });
        proof {
            assert(restart_settles(mid, self.ctx, r));
        }
        r
    }

    /// How many music resources the app was built with.
    pub fn music_count(&self) -> (r: u16)
        ensures
            r == self.config.music_count,
    {
        self.config.music_count
    }

    /// How many sound resources the app was built with.
    pub fn sound_count(&self) -> (r: u16)
        ensures
            r == self.config.sound_count,
    {
        self.config.sound_count
    }

    /// Install a cookie handed in by the host, without marking it for
    /// write-back.
    pub fn load_cookie(&mut self, data: Vec<u8>)
        ensures
            *final(self) == (AppRunner {
                ctx: (AppContext { cookie: data, cookie_updated: false, ..old(self).ctx }),
                ..*old(self)
            }),
    {
        self.ctx.set_cookie(data);
        let _ = self.ctx.take_cookie_updated_flag();
    }
}

} // verus!
