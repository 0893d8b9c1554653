use vstd::prelude::*;

verus! {

/// How long (in ms) a condition stays silent after it has notified.
pub const COOLDOWN_MS: u64 = 30_000;

/// Cooldown tracker for one alert condition.
pub struct AlertGate {
    next_eligible_at: u64,
}

impl AlertGate {
    /// The earliest instant at which this condition may notify again.
    pub closed spec fn view(&self) -> u64 {
        self.next_eligible_at
    }

    /// Whether a notification may be sent at `now`.
    pub open spec fn eligible_at(&self, now: int) -> bool {
        now >= self@
    }

    /// A gate that is eligible from `start` on.
    pub fn new(start: u64) -> (g: Self)
        ensures
            g@ == start,
    {
        AlertGate { next_eligible_at: start }
    }

    /// The earliest instant at which this condition may notify again.
    pub fn next_eligible_at(&self) -> (r: u64)
        ensures
            r == self@,
    {
        self.next_eligible_at
    }

    /// True iff `now >= next_eligible_at`.
    pub fn is_eligible(&self, now: u64) -> (r: bool)
        ensures
            r == self.eligible_at(now as int),
    {
        now >= self.next_eligible_at
    }

    /// Starts a cooldown at `now`, whether or not a notification was allowed.
    pub fn fire(&mut self, now: u64)
        requires
            now + COOLDOWN_MS <= u64::MAX,
        ensures
            final(self)@ == now + COOLDOWN_MS,
    {
        self.next_eligible_at = now + COOLDOWN_MS;
    }

    /// A gate fired at `t` refuses every instant before `t + COOLDOWN_MS` and
    /// accepts every instant from `t + COOLDOWN_MS` on.
    pub proof fn lemma_cooldown(&self, t: int, later: int)
        requires
            self@ == t + COOLDOWN_MS,
        ensures
            later < t + COOLDOWN_MS ==> !self.eligible_at(later),
            later >= t + COOLDOWN_MS ==> self.eligible_at(later),
    {
    }
}

} // verus!
