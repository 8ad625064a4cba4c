//! Input routing for the self-driven loop: raw key and button transitions
//! are deduplicated before the app sees them.
use vstd::prelude::*;
use crate::app_context::AppContext;
use crate::input::KeyCode;
use crate::keyboard::KeyState;
use crate::App;

verus! {

/// Translates raw platform input into the normalized callback contract,
/// enforcing exactly-once press/release semantics.
pub struct EventHandler {
    keys: KeyState,
}

impl EventHandler {
    /// The set of codes currently held.
    pub closed spec fn held(&self) -> Set<KeyCode> {
        self.keys.held()
    }

    pub fn new() -> (r: EventHandler)
        ensures
            r.held() == Set::<KeyCode>::empty(),
    {
        EventHandler { keys: KeyState::new() }
    }

    /// Route one key or button transition: a fresh press fires `key_down`
    /// exactly once, a release of a held code fires `key_up` exactly once,
    /// and everything else is a no-op.
    pub fn key_event<A: App>(
        &mut self,
        key: KeyCode,
        pressed: bool,
        app: &mut A,
        ctx: &mut AppContext,
    ) -> (fired: bool)
        ensures
            pressed ==> final(self).held() == old(self).held().insert(key) && fired == !old(
                self,
            ).held().contains(key),
            !pressed ==> final(self).held() == old(self).held().remove(key) && fired == old(
                self,
            ).held().contains(key),
    {
        if pressed {
            let fired = self.keys.press(key);
            if fired {
                app.key_down(key, ctx);
            }
            fired
        } else {
            let fired = self.keys.release(key);
            if fired {
                app.key_up(key, ctx);
            }
            fired
        }
    }
}

} // verus!
