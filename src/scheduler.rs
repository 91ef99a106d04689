use vstd::prelude::*;

verus! {

/// The refresh interval of the periodic draw loop, in milliseconds.
pub const DEFAULT_REFRESH_MS: u64 = 60_000;

/// What the draw loop does after pacing.
#[derive(Clone, Copy, Debug, PartialEq, Eq, Structural)]
pub enum Action {
    /// Acquire the image again and replace the batch.
    Refresh,
    /// Send the current batch again.
    Send,
}

/// How long the loop waits between batches.
#[derive(Clone, Copy, Debug, PartialEq, Eq, Structural)]
pub enum Pacing {
    /// An operator-supplied delay, in milliseconds.
    Fixed(u64),
    /// Twice as long as the last batch took to send.
    Adaptive,
}

/// The decisions of the draw loop: when to refresh the image, how long to pace, and how
/// many packets were sent since the last refresh.
#[derive(Clone, Copy, Debug, PartialEq, Eq, Structural)]
pub struct DrawScheduler {
    pub refresh_interval_ms: u64,
    pub pacing: Pacing,
    pub packets_sent: u64,
}

/// `a + b`, or `u64::MAX` where the sum does not fit.
pub open spec fn saturated_sum(a: nat, b: nat) -> nat {
    if a + b > u64::MAX {
        u64::MAX as nat
    } else {
        a + b
    }
}

/// The delay after a batch that took `batch_ms` to send. Adaptive pacing estimates the
/// bandwidth as bytes over time and waits for twice the time those bytes take at that
/// bandwidth, which is twice the batch's own time.
pub open spec fn pace_delay(pacing: Pacing, batch_ms: nat) -> nat {
    match pacing {
        Pacing::Fixed(ms) => ms as nat,
        Pacing::Adaptive => if 2 * batch_ms > u64::MAX {
            u64::MAX as nat
        } else {
            2 * batch_ms
        },
    }
}

impl DrawScheduler {
    /// A scheduler at startup, with no packet sent yet.
    pub fn new(refresh_interval_ms: u64, pacing: Pacing) -> (r: DrawScheduler)
        ensures
            r.refresh_interval_ms == refresh_interval_ms,
            r.pacing == pacing,
            r.packets_sent == 0,
    {
        DrawScheduler { refresh_interval_ms, pacing, packets_sent: 0 }
    }

    /// Refresh once more than the refresh interval has passed since the last acquisition;
    /// otherwise send the current batch again.
    pub fn next_action(&self, elapsed_ms: u64) -> (a: Action)
        ensures
            a == (if elapsed_ms > self.refresh_interval_ms {
                Action::Refresh
            } else {
                Action::Send
            }),
    {
        if elapsed_ms > self.refresh_interval_ms {
            Action::Refresh
        } else {
            Action::Send
        }
    }

    /// Counts the packets of a batch that was just sent.
    pub fn record_batch(&mut self, batch_len: usize)
        ensures
            final(self).packets_sent == saturated_sum(
                old(self).packets_sent as nat,
                batch_len as nat,
            ),
            final(self).refresh_interval_ms == old(self).refresh_interval_ms,
            final(self).pacing == old(self).pacing,
    {
        self.packets_sent = self.packets_sent.saturating_add(batch_len as u64);
    }

    /// Ends a refresh interval: returns the packets sent during it and starts counting
    /// afresh.
    pub fn finish_interval(&mut self) -> (sent: u64)
        ensures
            sent == old(self).packets_sent,
            final(self).packets_sent == 0,
            final(self).refresh_interval_ms == old(self).refresh_interval_ms,
            final(self).pacing == old(self).pacing,
    {
        let sent = self.packets_sent;
        self.packets_sent = 0;
        sent
    }

    /// How long to wait after a batch that took `batch_ms` to send.
    pub fn delay_ms(&self, batch_ms: u64) -> (d: u64)
        ensures
            d == pace_delay(self.pacing, batch_ms as nat),
    {
        match self.pacing {
            Pacing::Fixed(ms) => ms,
            Pacing::Adaptive => if batch_ms > u64::MAX / 2 {
                u64::MAX
            } else {
                2 * batch_ms
            },
        }
    }
}

} // verus!
