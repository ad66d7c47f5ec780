//! Coalescing of config saves from text inputs: the last scheduled action
//! runs once, a fixed delay after the last `schedule`. The timer itself is
//! armed and cancelled by the caller, as each call's result says.

use vstd::prelude::*;

verus! {

/// What the caller does with its timer after `schedule`.
#[derive(Debug, Clone, Copy, PartialEq, Eq)]
pub struct TimerCommand {
    /// Remove the timer that is currently armed.
    pub cancel_armed: bool,
    /// Arm a new timer for `delay_ms`.
    pub arm: bool,
}

/// Debouncer state: at most one pending action and whether its timer is armed.
pub struct SaveDebouncer<A> {
    pending: Option<A>,
    armed: bool,
    delay_ms: u64,
}

/// Abstract state: the pending action and whether a timer is armed.
pub struct DebouncerView<A> {
    pub pending: Option<A>,
    pub armed: bool,
    pub delay_ms: u64,
}

impl<A> View for SaveDebouncer<A> {
    type V = DebouncerView<A>;

    closed spec fn view(&self) -> DebouncerView<A> {
        DebouncerView { pending: self.pending, armed: self.armed, delay_ms: self.delay_ms }
    }
}

impl<A> DebouncerView<A> {
    /// A timer is armed exactly while an action is pending.
    pub open spec fn wf(self) -> bool {
        self.armed == self.pending is Some
    }

    /// After scheduling `action`: it replaces any pending action, and a
    /// fresh timer is armed.
    pub open spec fn scheduled(self, action: A) -> DebouncerView<A> {
        DebouncerView { pending: Some(action), armed: true, delay_ms: self.delay_ms }
    }

    /// After the timer fired or a flush: nothing pending, no timer.
    pub open spec fn drained(self) -> DebouncerView<A> {
        DebouncerView { pending: None, armed: false, delay_ms: self.delay_ms }
    }
}

impl<A> SaveDebouncer<A> {
    /// A debouncer that runs actions `delay_ms` after the last schedule.
    pub fn new(delay_ms: u64) -> (d: Self)
        ensures
            d@.pending is None,
            !d@.armed,
            d@.delay_ms == delay_ms,
            d@.wf(),
    {
        SaveDebouncer { pending: None, armed: false, delay_ms }
    }

    /// The delay between the last schedule and the run.
    pub fn delay_ms(&self) -> (ms: u64)
        ensures
            ms == self@.delay_ms,
    {
        self.delay_ms
    }

    /// Replace any pending action with `action` and restart the delay.
    pub fn schedule(&mut self, action: A) -> (cmd: TimerCommand)
        ensures
            final(self)@ == old(self)@.scheduled(action),
            cmd.cancel_armed == old(self)@.armed,
            cmd.arm,
    {
        let cancel = self.armed;
        self.pending = Some(action);
        self.armed = true;
        TimerCommand { cancel_armed: cancel, arm: true }
    }

    /// The timer fired: hand out the pending action to run.
    pub fn on_timeout(&mut self) -> (action: Option<A>)
        ensures
            final(self)@ == old(self)@.drained(),
            action == old(self)@.pending,
    {
        self.armed = false;
        let mut taken = None;
        std::mem::swap(&mut taken, &mut self.pending);
        taken
    }

    /// Run any pending action immediately: returns whether to remove the
    /// armed timer, and the action to run.
    pub fn flush(&mut self) -> (r: (bool, Option<A>))
        ensures
            final(self)@ == old(self)@.drained(),
            r.0 == old(self)@.armed,
            r.1 == old(self)@.pending,
    {
        let cancel = self.armed;
        self.armed = false;
        let mut taken = None;
        std::mem::swap(&mut taken, &mut self.pending);
        (cancel, taken)
    }
}

/// The last scheduled action is the one that runs; an action replaced before
/// its delay elapsed never runs; once run, it is not run again.
pub proof fn law_last_schedule_wins<A>(d: DebouncerView<A>, a: A, b: A)
    ensures
        d.scheduled(a).scheduled(b).pending == Some(b),
        d.scheduled(a).scheduled(b).drained().pending is None,
        d.scheduled(a).pending == Some(a),
{
}

/// Every operation keeps a timer armed exactly while an action is pending.
pub proof fn law_timer_matches_pending<A>(d: DebouncerView<A>, a: A)
    ensures
        d.scheduled(a).wf(),
        d.drained().wf(),
        d.scheduled(a).delay_ms == d.delay_ms,
        d.drained().delay_ms == d.delay_ms,
{
}

} // verus!
