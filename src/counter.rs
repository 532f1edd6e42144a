use vstd::prelude::*;

verus! {

/// A tally that goes up by one at a time.
///
/// Its model is the integer it holds. Callers that share it between
/// workers keep it behind a lock of their own; every increment then
/// acts on the value left by the one before.
pub struct Counter {
    value: i32,
}

/// The value of a counter after one increment from `v`.
pub open spec fn incremented(v: int) -> int {
    v + 1
}

/// The value of a fresh counter after `n` increments.
pub open spec fn after_increments(n: nat) -> int
    decreases n,
{
    if n == 0 {
        0
    } else {
        incremented(after_increments((n - 1) as nat))
    }
}

impl View for Counter {
    type V = int;

    closed spec fn view(&self) -> int {
        self.value as int
    }
}

impl Counter {
    /// A counter holding zero.
    pub fn new() -> (r: Counter)
        ensures
            r@ == 0,
    {
        Counter { value: 0 }
    }

    /// Adds one to the count.
    pub fn increment(&mut self)
        requires
            old(self)@ < i32::MAX,
        ensures
            final(self)@ == incremented(old(self)@),
    {
        self.value = self.value + 1;
    }

    /// The current count.
    pub fn get_value(&self) -> (r: i32)
        ensures
            r as int == self@,
    {
        self.value
    }
}

impl Default for Counter {
    fn default() -> (r: Counter)
        ensures
            r@ == 0,
    {
        Counter::new()
    }
}

/// However the increments are spread over workers, a fresh counter that has
/// been incremented `n` times holds `n`.
pub proof fn lemma_counter_counts_increments(n: nat)
    ensures
        after_increments(n) == n,
    decreases n,
{
    if n > 0 {
        lemma_counter_counts_increments((n - 1) as nat);
    }
}

} // verus!
