//! The controller that overrides the OS focus-tracking settings for the
//! lifetime of the application and restores the user's original values.

use vstd::prelude::*;

use crate::store::ParameterStore;
use crate::store::StoreModel;
use crate::store::TrackingConfig;

verus! {

/// Abstract lifecycle state of a focus controller: whether it is between
/// `initialize` and `finalize`, and the configuration snapshot captured by the
/// most recent `initialize` (`None` until the first one).
pub struct ControllerState {
    pub active: bool,
    pub snapshot: Option<TrackingConfig>,
}

impl ControllerState {
    /// The controller and store after `initialize`: capture the current
    /// configuration, then turn tracking on, turn raise-on-focus off where the
    /// platform has it, and set the delay to the standard value. A controller
    /// that is already active keeps its live snapshot and writes nothing.
    pub open spec fn initialize(self, m: StoreModel) -> (ControllerState, StoreModel) {
        if self.active {
            (self, m)
        } else {
            (
                ControllerState { active: true, snapshot: Some(m.config) },
                m.set_enabled(true).set_raise_on_focus(false).set_delay(
                    INITIAL_TRACKING_DELAY_MS,
                ),
            )
        }
    }

    /// The controller and store after `finalize`: re-apply every field of the
    /// captured snapshot — enabled, then raise-on-focus where captured, then
    /// delay — and leave the active bracket. The snapshot is kept, so repeated
    /// calls re-apply the same stored values; a controller that never
    /// initialized writes nothing.
    pub open spec fn finalize(self, m: StoreModel) -> (ControllerState, StoreModel) {
        match self.snapshot {
            Some(snap) => {
                let restored = match snap.raise_on_focus {
                    Some(raise) => m.set_enabled(snap.enabled).set_raise_on_focus(raise),
                    None => m.set_enabled(snap.enabled),
                };
                (
                    ControllerState { active: false, snapshot: self.snapshot },
                    restored.set_delay(snap.delay_ms),
                )
            },
            None => (self, m),
        }
    }
}

/// The store after `focus_on`: tracking turned on, with no write — and no
/// propagation wait — when it already is on.
pub open spec fn focus_on_model(m: StoreModel) -> StoreModel {
    if m.config.enabled {
        m
    } else {
        m.set_enabled(true)
    }
}

/// The store after `focus_off`: tracking turned off, with no write when it
/// already is off.
pub open spec fn focus_off_model(m: StoreModel) -> StoreModel {
    if !m.config.enabled {
        m
    } else {
        m.set_enabled(false)
    }
}

/// The tracking delay, in milliseconds, that `initialize` installs.
pub const INITIAL_TRACKING_DELAY_MS: u64 = 100;

/// The lifecycle and toggle interface of a focus controller.
///
/// The surrounding application owns one long-lived controller, calls
/// `initialize` once at startup, routes menu toggles to `focus_on` and
/// `focus_off`, and calls `finalize` once at shutdown. Every method says over
/// [`ControllerState`] and [`StoreModel`] exactly what it does to the
/// controller and to the OS-global settings.
pub trait FocusControllerTrait {
    /// Abstract lifecycle state of this controller.
    spec fn state(&self) -> ControllerState;

    /// Captures the current configuration and installs the focus-follows-mouse
    /// settings. A second call before `finalize` is a no-op, so the snapshot of
    /// the user's true original settings is never overwritten while live.
    fn initialize(&mut self, store: &mut ParameterStore)
        ensures
            (final(self).state(), final(store)@) == old(self).state().initialize(old(store)@),
    ;

    /// Restores every captured setting and ends the active bracket. Repeated
    /// calls keep re-applying the same stored values; before any `initialize`
    /// there is nothing to restore and the store is left untouched.
    fn finalize(&mut self, store: &mut ParameterStore)
        ensures
            (final(self).state(), final(store)@) == old(self).state().finalize(old(store)@),
    ;

    /// Turns tracking on, issuing no write if it already is on.
    fn focus_on(&mut self, store: &mut ParameterStore)
        ensures
            final(self).state() == old(self).state(),
            final(store)@ == focus_on_model(old(store)@),
    ;

    /// Turns tracking off, issuing no write if it already is off.
    fn focus_off(&mut self, store: &mut ParameterStore)
        ensures
            final(self).state() == old(self).state(),
            final(store)@ == focus_off_model(old(store)@),
    ;
}

/// Keeps a snapshot of the user's focus-tracking settings and toggles
/// focus-follows-mouse on demand.
pub struct FocusController {
    active: bool,
    snapshot: Option<TrackingConfig>,
}

impl FocusControllerTrait for FocusController {
    closed spec fn state(&self) -> ControllerState {
        ControllerState { active: self.active, snapshot: self.snapshot }
    }

    fn initialize(&mut self, store: &mut ParameterStore) {
        if self.active {
            return;
        }
        let enabled = store.get_tracking_enabled();
        let raise_on_focus = store.get_tracking_raise_on_focus();
        let delay_ms = store.get_tracking_delay();
        self.snapshot = Some(TrackingConfig { enabled, raise_on_focus, delay_ms });
        self.active = true;
        store.set_tracking_enabled(true);
        store.set_tracking_raise_on_focus(false);
        store.set_tracking_delay(INITIAL_TRACKING_DELAY_MS);
    }

    fn finalize(&mut self, store: &mut ParameterStore) {
        match self.snapshot {
            Some(snap) => {
                store.set_tracking_enabled(snap.enabled);
                match snap.raise_on_focus {
                    Some(raise) => store.set_tracking_raise_on_focus(raise),
                    None => {},
                }
                store.set_tracking_delay(snap.delay_ms);
                self.active = false;
            },
            None => {},
        }
    }

    fn focus_on(&mut self, store: &mut ParameterStore) {
        if store.get_tracking_enabled() {
            return;
        }
        store.set_tracking_enabled(true);
    }

    fn focus_off(&mut self, store: &mut ParameterStore) {
        if !store.get_tracking_enabled() {
            return;
        }
        store.set_tracking_enabled(false);
    }
}

/// Round trip: from an inactive controller, `initialize` followed by
/// `finalize` restores the tracking configuration that was in force before —
/// every tracked field — and leaves the cursor untouched; the controller ends
/// inactive, holding the configuration it captured.
pub proof fn lemma_initialize_finalize_round_trip(c: ControllerState, m: StoreModel)
    requires
        !c.active,
    ensures
        ({
            let (c1, m1) = c.initialize(m);
            let (c2, m2) = c1.finalize(m1);
            m2.config == m.config && m2.cursor == m.cursor && c2 == (ControllerState {
                active: false,
                snapshot: Some(m.config),
            })
        }),
{
}

/// `focus_on` twice in a row produces the same end state as once: the second
/// call finds tracking already on and leaves the store bit-for-bit unchanged,
/// the write counter included, so it issues no underlying OS write.
pub proof fn lemma_focus_on_idempotent(m: StoreModel)
    ensures
        focus_on_model(focus_on_model(m)) == focus_on_model(m),
{
}

/// `focus_off` twice in a row produces the same end state as once, the second
/// call issuing no underlying OS write.
pub proof fn lemma_focus_off_idempotent(m: StoreModel)
    ensures
        focus_off_model(focus_off_model(m)) == focus_off_model(m),
{
}

/// `finalize` is idempotent with respect to the snapshot: a repeated call
/// re-applies the same stored values, so the controller and the tracking
/// configuration come out as after the first call.
pub proof fn lemma_finalize_idempotent(c: ControllerState, m: StoreModel)
    ensures
        ({
            let (c1, m1) = c.finalize(m);
            let (c2, m2) = c1.finalize(m1);
            c2 == c1 && m2.config == m1.config && m2.cursor == m1.cursor
        }),
{
}

impl FocusController {
    /// A controller that has captured nothing yet.
    pub fn new() -> (r: FocusController)
        ensures
            r.state() == (ControllerState { active: false, snapshot: None::<TrackingConfig> }),
    {
        FocusController { active: false, snapshot: None }
    }

    /// Whether the controller is between `initialize` and `finalize`.
    pub fn is_active(&self) -> (r: bool)
        ensures
            r == self.state().active,
    {
        self.active
    }
}

} // verus!
