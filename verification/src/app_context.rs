//! The shared context an app reads and mutates from its callbacks: cursor,
//! close request, fullscreen negotiation flags, and the persisted cookie.
use vstd::prelude::*;
use crate::input::TouchPoint;

verus! {

/// State shared between the lifecycle runner and the app callbacks.
pub struct AppContext {
    /// Cursor position in app-space units.
    pub cursor: (i32, i32),
    /// Current drawable size in pixels.
    pub dims: (u32, u32),
    /// Latched close request; read once per iteration boundary.
    pub close_requested: bool,
    /// Fullscreen state as last confirmed by the environment.
    pub is_fullscreen: bool,
    /// Fullscreen state the app asks for.
    pub desires_fullscreen: bool,
    /// Persisted cookie bytes; opaque to this core.
    pub cookie: Vec<u8>,
    /// Set on every cookie write, cleared by the per-tick write-back.
    pub cookie_updated: bool,
    /// Touch points as last reported by the host.
    pub touches: Vec<TouchPoint>,
}

impl AppContext {
    /// A fresh context: nothing held, nothing requested, empty cookie.
    pub fn new() -> (r: AppContext)
        ensures
            r.cursor == (0i32, 0i32),
            r.dims == (0u32, 0u32),
            !r.close_requested,
            !r.is_fullscreen,
            !r.desires_fullscreen,
            r.cookie@ == Seq::<u8>::empty(),
            !r.cookie_updated,
            r.touches@ == Seq::<TouchPoint>::empty(),
    {
        AppContext {
            cursor: (0, 0),
            dims: (0, 0),
            close_requested: false,
            is_fullscreen: false,
            desires_fullscreen: false,
            cookie: Vec::new(),
            cookie_updated: false,
            touches: Vec::new(),
        }
    }

    /// Move the cursor; never affects any other state.
    pub fn set_cursor(&mut self, pos: (i32, i32))
        ensures
            *final(self) == (AppContext { cursor: pos, ..*old(self) }),
    {
        self.cursor = pos;
    }

    /// The cursor position in app-space units.
    pub fn cursor(&self) -> (r: (i32, i32))
        ensures
            r == self.cursor,
    {
        self.cursor
    }

    /// Record the drawable size.
    pub fn set_dims(&mut self, dims: (u32, u32))
        ensures
            *final(self) == (AppContext { dims, ..*old(self) }),
    {
        self.dims = dims;
    }

    /// The drawable size in pixels.
    pub fn dims(&self) -> (r: (u32, u32))
        ensures
            r == self.dims,
    {
        self.dims
    }

    /// Ask the runner to end the run after the current iteration; the
    /// request is latched, never acted on synchronously.
    pub fn close(&mut self)
        ensures
            *final(self) == (AppContext { close_requested: true, ..*old(self) }),
    {
        self.close_requested = true;
    }

    /// Read and clear the latched close request.
    pub fn take_close_request(&mut self) -> (r: bool)
        ensures
            r == old(self).close_requested,
            *final(self) == (AppContext { close_requested: false, ..*old(self) }),
    {
        let r = self.close_requested;
        self.close_requested = false;
        r
    }

    /// Fullscreen state as last confirmed by the environment.
    pub fn is_fullscreen(&self) -> (r: bool)
        ensures
            r == self.is_fullscreen,
    {
        self.is_fullscreen
    }

    /// Fullscreen state the app asks for.
    pub fn desires_fullscreen(&self) -> (r: bool)
        ensures
            r == self.desires_fullscreen,
    {
        self.desires_fullscreen
    }

    /// Record the app's wish to be fullscreen or windowed.
    pub fn set_fullscreen(&mut self, desired: bool)
        ensures
            *final(self) == (AppContext { desires_fullscreen: desired, ..*old(self) }),
    {
        self.desires_fullscreen = desired;
    }

    /// Record the fullscreen state the environment confirmed.
    pub fn set_is_fullscreen(&mut self, actual: bool)
        ensures
            *final(self) == (AppContext { is_fullscreen: actual, ..*old(self) }),
    {
        self.is_fullscreen = actual;
    }

    /// The persisted cookie bytes.
    pub fn cookie_buffer(&self) -> (r: &Vec<u8>)
        ensures
            r@ == self.cookie@,
    {
        &self.cookie
    }

    /// Replace the cookie and mark it for write-back.
    pub fn set_cookie(&mut self, bytes: Vec<u8>)
        ensures
            *final(self) == (AppContext { cookie: bytes, cookie_updated: true, ..*old(self) }),
    {
        self.cookie = bytes;
        self.cookie_updated = true;
    }

    /// Read and clear the cookie-updated flag.
    pub fn take_cookie_updated_flag(&mut self) -> (r: bool)
        ensures
            r == old(self).cookie_updated,
            *final(self) == (AppContext { cookie_updated: false, ..*old(self) }),
    {
        let r = self.cookie_updated;
        self.cookie_updated = false;
        r
    }

    /// Replace the touch state; never affects any other state.
    pub fn set_touches(&mut self, touches: Vec<TouchPoint>)
        ensures
            *final(self) == (AppContext { touches, ..*old(self) }),
    {
        self.touches = touches;
    }

    /// The touch points as last reported.
    pub fn touches(&self) -> (r: &Vec<TouchPoint>)
        ensures
            r@ == self.touches@,
    {
        &self.touches
    }
}

} // verus!
