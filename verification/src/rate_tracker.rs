//! Network rate tracker: turns cumulative byte counters into per-interval
//! deltas.

use vstd::prelude::*;

verus! {

/// Process-lifetime state of the network rate tracker: the last observed
/// cumulative received and transmitted byte counts. A fresh tracker holds
/// zero for both, so the first delta equals the first absolute reading.
pub struct NetworkRateTracker {
    pub last_rx: u64,
    pub last_tx: u64,
}

/// Wrapping difference of two cumulative counter readings. When a counter
/// resets (for example after an interface restart) the current reading can
/// be below the stored one; the delta then wraps, a documented edge case
/// that is not corrected.
pub open spec fn counter_delta(current: u64, last: u64) -> u64 {
    if current >= last {
        (current - last) as u64
    } else {
        (current - last + 0x1_0000_0000_0000_0000) as u64
    }
}

impl NetworkRateTracker {
    /// A fresh tracker with both stored counters at zero.
    pub fn new() -> (r: NetworkRateTracker)
        ensures
            r.last_rx == 0,
            r.last_tx == 0,
    {
        NetworkRateTracker { last_rx: 0, last_tx: 0 }
    }

    /// Feed one pair of cumulative readings; the result is the per-interval
    /// delta against the previously stored readings, and the stored readings
    /// are replaced by the current ones. Never fails.
    pub fn update(&mut self, current_rx: u64, current_tx: u64) -> (delta: (u64, u64))
        ensures
            delta.0 == counter_delta(current_rx, old(self).last_rx),
            delta.1 == counter_delta(current_tx, old(self).last_tx),
            final(self).last_rx == current_rx,
            final(self).last_tx == current_tx,
            old(self).last_rx <= current_rx ==> delta.0 == current_rx - old(self).last_rx,
            old(self).last_tx <= current_tx ==> delta.1 == current_tx - old(self).last_tx,
    {
        let delta_rx = current_rx.wrapping_sub(self.last_rx);
        let delta_tx = current_tx.wrapping_sub(self.last_tx);
        self.last_rx = current_rx;
        self.last_tx = current_tx;
        (delta_rx, delta_tx)
    }
}

/// The stored counters after a sequence of cumulative readings has been fed
/// to a fresh tracker: the last reading, or zero for the empty sequence.
pub open spec fn tracker_state_after(readings: Seq<(u64, u64)>) -> (u64, u64) {
    if readings.len() == 0 {
        (0u64, 0u64)
    } else {
        readings.last()
    }
}

/// Law of the rate tracker, stated for a fresh tracker fed the readings in
/// order: the delta returned for reading `n` is reading `n` minus reading
/// `n - 1`, and the delta for reading `0` is reading `0` itself (the
/// baseline is zero). Stated for non-decreasing counters, where no wrap
/// occurs.
pub proof fn lemma_tracker_deltas(readings: Seq<(u64, u64)>, n: int)
    requires
        0 <= n < readings.len(),
    ensures
        n == 0 ==> counter_delta(readings[n].0, tracker_state_after(readings.take(n)).0)
            == readings[0].0,
        n == 0 ==> counter_delta(readings[n].1, tracker_state_after(readings.take(n)).1)
            == readings[0].1,
        n > 0 && readings[n - 1].0 <= readings[n].0 ==> counter_delta(
            readings[n].0,
            tracker_state_after(readings.take(n)).0,
        ) == readings[n].0 - readings[n - 1].0,
        n > 0 && readings[n - 1].1 <= readings[n].1 ==> counter_delta(
            readings[n].1,
            tracker_state_after(readings.take(n)).1,
        ) == readings[n].1 - readings[n - 1].1,
{
    if n == 0 {
        assert(readings.take(0).len() == 0);
    } else {
        assert(readings.take(n).last() == readings[n - 1]);
    }
}

} // verus!
