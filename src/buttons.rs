use vstd::prelude::*;

verus! {

/// Debounce state of one button: `Idle` while released, `Armed` once a
/// press has been seen and the shared lock taken.
#[derive(Clone, Copy, Debug, PartialEq, Eq, Structural)]
pub enum ButtonStatus {
    Idle,
    Armed,
}

/// A playback command sent to the remote service.
#[derive(Clone, Copy, Debug, PartialEq, Eq, Structural)]
pub enum Command {
    TogglePlayback,
    SkipNext,
    SkipPrevious,
}

/// One tick of one button, given whether its pin reads high (released):
/// the new status, the new shared lock and whether a press completed.
pub open spec fn button_step(status: ButtonStatus, lock: bool, pin_high: bool) -> (
    ButtonStatus,
    bool,
    bool,
) {
    if pin_high && status == ButtonStatus::Armed {
        (ButtonStatus::Idle, false, true)
    } else if !pin_high && !lock {
        (ButtonStatus::Armed, true, false)
    } else {
        (status, lock, false)
    }
}

/// Advances one button by one tick and reports whether a press completed,
/// which happens on release of an armed button.
pub fn step_button(status: &mut ButtonStatus, lock: &mut bool, pin_high: bool) -> (pressed: bool)
    ensures
        (*final(status), *final(lock), pressed) == button_step(*old(status), *old(lock), pin_high),
{
    if pin_high && *status == ButtonStatus::Armed {
        *lock = false;
        *status = ButtonStatus::Idle;
        true
    } else if !pin_high && !*lock {
        *lock = true;
        *status = ButtonStatus::Armed;
        false
    } else {
        false
    }
}

/// The three buttons, scanned in this order each tick, and the lock that
/// lets only one of them be armed at a time.
#[derive(Clone, Copy, Debug)]
pub struct ButtonPanel {
    pub previous: ButtonStatus,
    pub toggle: ButtonStatus,
    pub next: ButtonStatus,
    pub lock: bool,
}

/// Number of armed buttons of a panel.
pub open spec fn armed_count(p: ButtonPanel) -> int {
    (if p.previous == ButtonStatus::Armed { 1int } else { 0int }) + (if p.toggle
        == ButtonStatus::Armed {
        1int
    } else {
        0int
    }) + (if p.next == ButtonStatus::Armed { 1int } else { 0int })
}

/// The panel after one tick with the given pin readings (true: high,
/// released), buttons taken in order previous, toggle, next.
pub open spec fn panel_after(p: ButtonPanel, previous_high: bool, toggle_high: bool, next_high: bool) -> ButtonPanel {
    let a = button_step(p.previous, p.lock, previous_high);
    let b = button_step(p.toggle, a.1, toggle_high);
    let c = button_step(p.next, b.1, next_high);
    ButtonPanel { previous: a.0, toggle: b.0, next: c.0, lock: c.1 }
}

/// The command that one tick emits: that of the button whose press
/// completes, if any.
pub open spec fn command_after(p: ButtonPanel, previous_high: bool, toggle_high: bool, next_high: bool) -> Option<Command> {
    let a = button_step(p.previous, p.lock, previous_high);
    let b = button_step(p.toggle, a.1, toggle_high);
    let c = button_step(p.next, b.1, next_high);
    if a.2 {
        Some(Command::SkipPrevious)
    } else if b.2 {
        Some(Command::TogglePlayback)
    } else if c.2 {
        Some(Command::SkipNext)
    } else {
        None
    }
}

/// Number of presses that one tick completes.
pub open spec fn presses_in_tick(p: ButtonPanel, previous_high: bool, toggle_high: bool, next_high: bool) -> int {
    let a = button_step(p.previous, p.lock, previous_high);
    let b = button_step(p.toggle, a.1, toggle_high);
    let c = button_step(p.next, b.1, next_high);
    (if a.2 { 1int } else { 0int }) + (if b.2 { 1int } else { 0int }) + (if c.2 { 1int } else { 0int })
}

impl ButtonPanel {
    /// The shared lock is held exactly when one button is armed, and no more
    /// than one ever is.
    pub open spec fn wf(&self) -> bool {
        &&& armed_count(*self) <= 1
        &&& self.lock <==> armed_count(*self) == 1
    }

    /// All buttons idle, lock free.
    pub fn new() -> (p: ButtonPanel)
        ensures
            p.wf(),
            p.previous == ButtonStatus::Idle,
            p.toggle == ButtonStatus::Idle,
            p.next == ButtonStatus::Idle,
            !p.lock,
    {
        ButtonPanel {
            previous: ButtonStatus::Idle,
            toggle: ButtonStatus::Idle,
            next: ButtonStatus::Idle,
            lock: false,
        }
    }

    /// Scans the three pins once (true: high, released) and returns the
    /// command of the button whose press completed on this tick, if any.
    /// At most one press completes per tick.
    pub fn tick(&mut self, previous_high: bool, toggle_high: bool, next_high: bool) -> (cmd: Option<Command>)
        requires
            old(self).wf(),
        ensures
            final(self).wf(),
            *final(self) == panel_after(*old(self), previous_high, toggle_high, next_high),
            cmd == command_after(*old(self), previous_high, toggle_high, next_high),
            presses_in_tick(*old(self), previous_high, toggle_high, next_high) <= 1,
    {
        let mut lock = self.lock;
        let mut previous = self.previous;
        let mut toggle = self.toggle;
        let mut next = self.next;
        let a = step_button(&mut previous, &mut lock, previous_high);
        let b = step_button(&mut toggle, &mut lock, toggle_high);
        let c = step_button(&mut next, &mut lock, next_high);
        self.previous = previous;
        self.toggle = toggle;
        self.next = next;
        self.lock = lock;
        if a {
            Some(Command::SkipPrevious)
        } else if b {
            Some(Command::TogglePlayback)
        } else if c {
            Some(Command::SkipNext)
        } else {
            None
        }
    }
}

} // verus!
