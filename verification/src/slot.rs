//! Edge state of one key or button.
use vstd::prelude::*;

verus! {

/// What is known of one key or button: whether it is held, a toggle that
/// follows its edges, and when each last changed.
#[derive(Clone, Copy, Debug, PartialEq, Eq, Structural)]
pub struct Slot {
    /// Whether the key is down.
    pub pressed: bool,
    /// Flips on every rising edge, and on every release by a note-off.
    pub toggled: bool,
    /// Time of the last rising edge, in microseconds.
    pub pressed_at: u64,
    /// Time of the last flip of `toggled`, in microseconds.
    pub toggled_at: u64,
}

impl Slot {
    /// The state of a key that was never touched.
    pub open spec fn idle() -> Slot {
        Slot { pressed: false, toggled: false, pressed_at: 0, toggled_at: 0 }
    }

    /// Whether a note-on with `velocity` is a rising edge here.
    pub open spec fn rises(self, velocity: u8) -> bool {
        !self.pressed && velocity > 0
    }

    /// The slot after a note-on with `velocity` at `time`.
    ///
    /// A rising edge flips the toggle and stamps both times. Anything else only
    /// records whether the key is down: a repeated note-on while held changes
    /// nothing, and velocity 0 lets the key go without touching the toggle.
    pub open spec fn after_note_on(self, velocity: u8, time: u64) -> Slot {
        if self.rises(velocity) {
            Slot { pressed: true, toggled: !self.toggled, pressed_at: time, toggled_at: time }
        } else {
            Slot { pressed: velocity > 0, ..self }
        }
    }

    /// The slot after a note-off at `time`.
    ///
    /// Releasing a held key flips the toggle and stamps `toggled_at`; a
    /// note-off for a key that is already up changes nothing.
    pub open spec fn after_note_off(self, time: u64) -> Slot {
        if self.pressed {
            Slot { pressed: false, toggled: !self.toggled, toggled_at: time, ..self }
        } else {
            self
        }
    }

    /// A slot that was never touched.
    pub fn new() -> (r: Slot)
        ensures
            r == Slot::idle(),
    {
        Slot { pressed: false, toggled: false, pressed_at: 0, toggled_at: 0 }
    }

    /// Applies a note-on with `velocity`, received at `time`.
    pub fn note_on(self, velocity: u8, time: u64) -> (r: Slot)
        ensures
            r == self.after_note_on(velocity, time),
    {
        let down = velocity > 0;
        if !self.pressed && down {
            Slot { pressed: true, toggled: !self.toggled, pressed_at: time, toggled_at: time }
        } else {
            Slot {
                pressed: down,
                toggled: self.toggled,
                pressed_at: self.pressed_at,
                toggled_at: self.toggled_at,
            }
        }
    }

    /// Applies a note-off received at `time`.
    pub fn note_off(self, time: u64) -> (r: Slot)
        ensures
            r == self.after_note_off(time),
    {
        if self.pressed {
            Slot {
                pressed: false,
                toggled: !self.toggled,
                pressed_at: self.pressed_at,
                toggled_at: time,
            }
        } else {
            self
        }
    }

    /// Debounce: once a key is held, a further note-on with a positive velocity
    /// changes nothing, so two such note-ons in a row flip the toggle exactly
    /// as often as the first alone.
    pub proof fn held_note_on_changes_nothing(self, first: u8, t1: u64, second: u8, t2: u64)
        requires
            first > 0,
            second > 0,
        ensures
            self.after_note_on(first, t1).after_note_on(second, t2) == self.after_note_on(
                first,
                t1,
            ),
            self.after_note_on(first, t1).toggled == (self.toggled != !self.pressed),
    {
    }

    /// A note-on with velocity 0 and a note-off leave the key in the same
    /// position, so the next edge is detected alike after either. On a key that
    /// is up the two are the same in everything; on a held key they differ in
    /// the toggle alone, which only the note-off flips and stamps.
    pub proof fn silent_note_on_releases_like_note_off(self, time: u64)
        ensures
            self.after_note_on(0, time).pressed == self.after_note_off(time).pressed,
            !self.after_note_on(0, time).pressed,
            forall|velocity: u8|
                self.after_note_on(0, time).rises(velocity) == self.after_note_off(time).rises(
                    velocity,
                ),
            self.after_note_on(0, time).pressed_at == self.after_note_off(time).pressed_at,
            !self.pressed ==> self.after_note_on(0, time) == self.after_note_off(time),
            self.pressed ==> self.after_note_on(0, time).toggled != self.after_note_off(
                time,
            ).toggled,
    {
    }

    /// A note-off delivered twice has the effect of one: the second finds the
    /// key up and flips nothing.
    pub proof fn repeated_note_off_changes_nothing(self, t1: u64, t2: u64)
        ensures
            self.after_note_off(t1).after_note_off(t2) == self.after_note_off(t1),
    {
    }

    /// A note-on delivered twice has the effect of one, whatever its velocity.
    pub proof fn repeated_note_on_changes_nothing(self, velocity: u8, t1: u64, t2: u64)
        ensures
            self.after_note_on(velocity, t1).after_note_on(velocity, t2) == self.after_note_on(
                velocity,
                t1,
            ),
    {
    }
}

} // verus!
