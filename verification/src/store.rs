//! The OS-global focus-tracking parameters, modelled as a store of plain
//! values.
//!
//! On a real desktop these settings are ambient operating-system state,
//! reached only through global-settings calls; a write becomes visible to a
//! later read after a short propagation delay. The model here is the
//! post-propagation view of that state: a setter's effect is immediately
//! visible to the next getter. The store also counts every write it accepts,
//! so that callers can state — and tests can check — that an operation issued
//! no redundant OS write.

use vstd::prelude::*;

verus! {

/// A mouse-cursor position in virtual-desktop coordinates.
///
/// Transient, used only to probe and validate the tracking behaviour; never
/// persisted. A real platform may clamp a requested position to the bounds of
/// the connected monitors; the model store keeps the exact value it was given.
#[derive(Clone, Copy, Debug, PartialEq, Eq)]
pub struct CursorPosition {
    pub x: i32,
    pub y: i32,
}

/// The OS-global focus-tracking configuration.
///
/// `raise_on_focus` is a platform-conditional capability: `Some` holds the
/// z-order-raise flag on platforms that expose one, and `None` stands for a
/// platform without the setting, where writes to it are no-ops.
#[derive(Clone, Copy, Debug, PartialEq, Eq)]
pub struct TrackingConfig {
    pub enabled: bool,
    pub raise_on_focus: Option<bool>,
    pub delay_ms: u64,
}

/// The mathematical model of a [`ParameterStore`]: the tracking
/// configuration, the cursor position, and how many writes the store has
/// accepted so far.
pub struct StoreModel {
    pub config: TrackingConfig,
    pub cursor: CursorPosition,
    pub writes: u64,
}

impl StoreModel {
    /// The model after one more accepted write; the counter saturates at its
    /// maximum rather than wrap.
    pub open spec fn count_write(self) -> StoreModel {
        StoreModel {
            config: self.config,
            cursor: self.cursor,
            writes: if self.writes == u64::MAX {
                self.writes
            } else {
                (self.writes + 1) as u64
            },
        }
    }

    /// The model after a write of the tracking-enabled flag.
    pub open spec fn set_enabled(self, enabled: bool) -> StoreModel {
        StoreModel {
            config: TrackingConfig {
                enabled: enabled,
                raise_on_focus: self.config.raise_on_focus,
                delay_ms: self.config.delay_ms,
            },
            cursor: self.cursor,
            writes: self.writes,
        }.count_write()
    }

    /// The model after a write of the raise-on-focus flag: set on a platform
    /// that has the setting, a no-op (and no counted write) on one without.
    pub open spec fn set_raise_on_focus(self, raise: bool) -> StoreModel {
        if self.config.raise_on_focus is Some {
            StoreModel {
                config: TrackingConfig {
                    enabled: self.config.enabled,
                    raise_on_focus: Some(raise),
                    delay_ms: self.config.delay_ms,
                },
                cursor: self.cursor,
                writes: self.writes,
            }.count_write()
        } else {
            self
        }
    }

    /// The model after a write of the tracking delay.
    pub open spec fn set_delay(self, delay_ms: u64) -> StoreModel {
        StoreModel {
            config: TrackingConfig {
                enabled: self.config.enabled,
                raise_on_focus: self.config.raise_on_focus,
                delay_ms: delay_ms,
            },
            cursor: self.cursor,
            writes: self.writes,
        }.count_write()
    }

    /// The model after a write of the cursor position.
    pub open spec fn set_cursor(self, pos: CursorPosition) -> StoreModel {
        StoreModel {
            config: self.config,
            cursor: pos,
            writes: self.writes,
        }.count_write()
    }
}

/// Typed accessors over the OS-global focus-tracking settings.
///
/// Each getter and setter stands for a single synchronous global-settings
/// call. The store is the model of the ambient OS state those calls reach:
/// tests and callers construct one with the state the desktop is in, and every
/// accessor's contract says exactly how the state changes.
pub struct ParameterStore {
    config: TrackingConfig,
    cursor: CursorPosition,
    writes: u64,
}

impl View for ParameterStore {
    type V = StoreModel;

    closed spec fn view(&self) -> StoreModel {
        StoreModel { config: self.config, cursor: self.cursor, writes: self.writes }
    }
}

impl ParameterStore {
    /// A store whose settings are in the given state and that has accepted no
    /// write yet.
    pub fn new(config: TrackingConfig, cursor: CursorPosition) -> (r: ParameterStore)
        ensures
            r@ == (StoreModel { config: config, cursor: cursor, writes: 0u64 }),
    {
        ParameterStore { config, cursor, writes: 0 }
    }

    /// One more accepted write, saturating at the counter's maximum.
    fn count_write(&mut self)
        ensures
            final(self)@ == old(self)@.count_write(),
    {
        if self.writes < u64::MAX {
            self.writes = self.writes + 1;
        }
    }

    /// Whether focus-follows-mouse tracking is active.
    pub fn get_tracking_enabled(&self) -> (r: bool)
        ensures
            r == self@.config.enabled,
    {
        self.config.enabled
    }

    /// Turns focus-follows-mouse tracking on or off.
    pub fn set_tracking_enabled(&mut self, enabled: bool)
        ensures
            final(self)@ == old(self)@.set_enabled(enabled),
    {
        self.config.enabled = enabled;
        self.count_write();
    }

    /// The raise-on-focus flag, or `None` on a platform without the setting.
    pub fn get_tracking_raise_on_focus(&self) -> (r: Option<bool>)
        ensures
            r == self@.config.raise_on_focus,
    {
        self.config.raise_on_focus
    }

    /// Sets the raise-on-focus flag; a no-op on a platform without the
    /// setting.
    pub fn set_tracking_raise_on_focus(&mut self, raise: bool)
        ensures
            final(self)@ == old(self)@.set_raise_on_focus(raise),
    {
        if self.config.raise_on_focus.is_some() {
            self.config.raise_on_focus = Some(raise);
            self.count_write();
        }
    }

    /// The tracking delay in milliseconds.
    pub fn get_tracking_delay(&self) -> (r: u64)
        ensures
            r == self@.config.delay_ms,
    {
        self.config.delay_ms
    }

    /// Sets the tracking delay in milliseconds.
    pub fn set_tracking_delay(&mut self, delay_ms: u64)
        ensures
            final(self)@ == old(self)@.set_delay(delay_ms),
    {
        self.config.delay_ms = delay_ms;
        self.count_write();
    }

    /// The cursor position.
    pub fn get_cursor_position(&self) -> (r: CursorPosition)
        ensures
            r == self@.cursor,
    {
        self.cursor
    }

    /// Moves the cursor to the given position.
    pub fn set_cursor_position(&mut self, pos: CursorPosition)
        ensures
            final(self)@ == old(self)@.set_cursor(pos),
    {
        self.cursor = pos;
        self.count_write();
    }

    /// How many writes the store has accepted so far.
    pub fn write_count(&self) -> (r: u64)
        ensures
            r == self@.writes,
    {
        self.writes
    }
}

/// Writing the tracking-enabled flag and then reading it yields the value
/// written, from every prior state of the store.
pub proof fn lemma_set_get_tracking_enabled(m: StoreModel, enabled: bool)
    ensures
        m.set_enabled(enabled).config.enabled == enabled,
{
}

/// Writing the tracking delay and then reading it yields the value written,
/// from every prior state of the store and for every delay, zero included.
pub proof fn lemma_set_get_tracking_delay(m: StoreModel, delay_ms: u64)
    ensures
        m.set_delay(delay_ms).config.delay_ms == delay_ms,
{
}

/// Moving the cursor and then reading its position yields the position
/// written, from every prior state of the store. The model applies no
/// multi-monitor clamping: a real platform may clamp a position that lies
/// outside the connected monitors, and keeps this law only for positions
/// within their bounds.
pub proof fn lemma_set_get_cursor_position(m: StoreModel, pos: CursorPosition)
    ensures
        m.set_cursor(pos).cursor == pos,
{
}

/// Writing the raise-on-focus flag and then reading it yields the value
/// written on a platform that has the setting, and leaves the store unchanged
/// — the write counter included — on one without.
pub proof fn lemma_set_get_tracking_raise_on_focus(m: StoreModel, raise: bool)
    ensures
        m.config.raise_on_focus is Some ==> m.set_raise_on_focus(raise).config.raise_on_focus
            == Some(raise),
        m.config.raise_on_focus is None ==> m.set_raise_on_focus(raise) == m,
{
}

} // verus!
