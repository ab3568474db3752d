use vstd::prelude::*;

verus! {

/// A retry policy: a budget of attempts and a delay that doubles after each
/// attempt, capped at `max_delay_ms`.
#[derive(Clone, Copy, Debug, PartialEq, Eq, Structural)]
pub struct Backoff {
    pub current_attempts: u32,
    pub max_attempts: u32,
    pub current_delay_ms: u64,
    pub max_delay_ms: u64,
}

/// The delay handed out for the current attempt.
pub open spec fn capped_delay(b: Backoff) -> u64 {
    if b.current_delay_ms <= b.max_delay_ms {
        b.current_delay_ms
    } else {
        b.max_delay_ms
    }
}

/// The delay for the attempt after the current one: doubled, capped.
pub open spec fn doubled_delay(b: Backoff) -> u64 {
    if b.current_delay_ms as int * 2 <= b.max_delay_ms as int {
        (b.current_delay_ms * 2) as u64
    } else {
        b.max_delay_ms
    }
}

/// Whether the backoff still has an attempt left.
pub open spec fn has_budget(b: Backoff) -> bool {
    b.current_attempts < b.max_attempts
}

/// The backoff after one attempt was taken from it.
pub open spec fn advanced(b: Backoff) -> Backoff {
    Backoff {
        current_attempts: (b.current_attempts + 1) as u32,
        current_delay_ms: doubled_delay(b),
        ..b
    }
}

/// What `next_delay_duration` returns and leaves behind.
pub open spec fn next_delay_spec(b: Backoff) -> (Backoff, Option<u64>) {
    if has_budget(b) {
        (advanced(b), Some(capped_delay(b)))
    } else {
        (b, None)
    }
}

/// How many more attempts the backoff grants.
pub open spec fn remaining(b: Backoff) -> nat {
    if has_budget(b) {
        (b.max_attempts - b.current_attempts) as nat
    } else {
        0
    }
}

impl Backoff {
    /// A backoff that grants no retry.
    pub fn no_backoff() -> (r: Backoff)
        ensures
            r == (Backoff { current_attempts: 0, max_attempts: 0, current_delay_ms: 0, max_delay_ms: 0 }),
            remaining(r) == 0,
    {
        Backoff { current_attempts: 0, max_attempts: 0, current_delay_ms: 0, max_delay_ms: 0 }
    }

    /// A backoff of `max_attempts` attempts whose delay starts at `base_delay_ms`
    /// and doubles up to `max_delay_ms`.
    pub fn no_jitter_backoff(base_delay_ms: u64, max_delay_ms: u64, max_attempts: u32) -> (r: Backoff)
        ensures
            r == (Backoff {
                current_attempts: 0,
                max_attempts,
                current_delay_ms: base_delay_ms,
                max_delay_ms,
            }),
            remaining(r) == max_attempts,
    {
        Backoff { current_attempts: 0, max_attempts, current_delay_ms: base_delay_ms, max_delay_ms }
    }

    /// Whether this backoff never grants a retry.
    pub fn is_none(&self) -> (r: bool)
        ensures
            r == (self.max_attempts == 0),
    {
        self.max_attempts == 0
    }

    /// Takes one attempt from the budget and returns its delay, or `None` once the
    /// budget is spent (the backoff is then left as it was).
    pub fn next_delay_duration(&mut self) -> (r: Option<u64>)
        ensures
            (*final(self), r) == next_delay_spec(*old(self)),
            remaining(*old(self)) > 0 ==> remaining(*final(self)) == remaining(*old(self)) - 1,
            r.is_none() <==> remaining(*old(self)) == 0,
    {
        if self.current_attempts >= self.max_attempts {
            return None;
        }
        let delay: u64 = if self.current_delay_ms <= self.max_delay_ms {
            self.current_delay_ms
        } else {
            self.max_delay_ms
        };
        let next: u64 = if self.current_delay_ms <= self.max_delay_ms / 2 {
            self.current_delay_ms * 2
        } else {
            self.max_delay_ms
        };
        self.current_attempts = self.current_attempts + 1;
        self.current_delay_ms = next;
        Some(delay)
    }
}

} // verus!
