//! The tick-rate controller's regimes and what one host callback does in each.
use vstd::prelude::*;

verus! {

/// The active rate regime.
#[derive(Clone, Copy, Debug, PartialEq, Eq, Structural)]
pub enum RateMode {
    /// No rate has been requested yet: callbacks do nothing.
    Unset,
    /// One generation per callback.
    Neutral,
    /// `ticks` generations per callback.
    Accelerated { ticks: u32 },
    /// One generation every `every` callbacks; `frame` counts the callbacks
    /// of the current period, from 1.
    Decelerated { every: u32, frame: u32 },
}

impl RateMode {
    pub open spec fn wf(self) -> bool {
        match self {
            RateMode::Decelerated { every, frame } => 1 <= frame <= every,
            _ => true,
        }
    }
}

/// The regime boundary derived from the host's best throughput.
pub open spec fn median_of(max_tpf: nat) -> nat {
    max_tpf / 2 + 1
}

/// The regime entered when `tick_rate` is requested against `median`.
pub open spec fn mode_for(median: nat, tick_rate: nat) -> RateMode {
    if tick_rate == median {
        RateMode::Neutral
    } else if tick_rate > median {
        RateMode::Accelerated { ticks: (tick_rate - median + 1) as u32 }
    } else {
        RateMode::Decelerated { every: (median - tick_rate + 1) as u32, frame: 1 }
    }
}

/// Generations advanced by one callback in `mode`.
pub open spec fn ticks_on_callback(mode: RateMode) -> nat {
    match mode {
        RateMode::Unset => 0,
        RateMode::Neutral => 1,
        RateMode::Accelerated { ticks } => ticks as nat,
        RateMode::Decelerated { every, frame } => if frame == every {
            1
        } else {
            0
        },
    }
}

/// The regime after one callback in `mode`.
pub open spec fn mode_after_callback(mode: RateMode) -> RateMode {
    match mode {
        RateMode::Decelerated { every, frame } => if frame == every {
            RateMode::Decelerated { every, frame: 1 }
        } else {
            RateMode::Decelerated { every, frame: (frame + 1) as u32 }
        },
        _ => mode,
    }
}

/// Total generations advanced, and the regime reached, after `k` callbacks
/// starting in `mode`.
pub open spec fn callbacks(mode: RateMode, k: nat) -> (nat, RateMode)
    decreases k,
{
    if k == 0 {
        (0, mode)
    } else {
        let (t, m) = callbacks(mode, (k - 1) as nat);
        (t + ticks_on_callback(m), mode_after_callback(m))
    }
}

/// In the neutral regime `k` callbacks advance exactly `k` generations.
pub proof fn lemma_neutral_callbacks(k: nat)
    ensures
        callbacks(RateMode::Neutral, k) == (k, RateMode::Neutral),
    decreases k,
{
    if k > 0 {
        lemma_neutral_callbacks((k - 1) as nat);
    }
}

/// In the accelerated regime `k` callbacks advance `k * ticks` generations.
pub proof fn lemma_accelerated_callbacks(ticks: u32, k: nat)
    ensures
        callbacks(RateMode::Accelerated { ticks }, k) == ((k * ticks) as nat, RateMode::Accelerated { ticks }),
    decreases k,
{
    if k > 0 {
        lemma_accelerated_callbacks(ticks, (k - 1) as nat);
        assert(k * ticks == (k - 1) * ticks + ticks) by (nonlinear_arith);
    }
}

/// Right after a switch to the decelerated regime, the first `every - 1`
/// callbacks advance nothing and count the frames up.
pub proof fn lemma_decelerated_idle(every: u32, j: nat)
    requires
        j < every,
    ensures
        callbacks(RateMode::Decelerated { every, frame: 1 }, j)
            == (0nat, RateMode::Decelerated { every, frame: (1 + j) as u32 }),
    decreases j,
{
    if j > 0 {
        lemma_decelerated_idle(every, (j - 1) as nat);
    }
}

/// Right after a switch to the decelerated regime, `every` callbacks
/// advance exactly one generation, on the last of them, and start a new
/// period.
pub proof fn lemma_decelerated_period(every: u32)
    requires
        every >= 1,
    ensures
        callbacks(RateMode::Decelerated { every, frame: 1 }, (every - 1) as nat).0 == 0,
        callbacks(RateMode::Decelerated { every, frame: 1 }, every as nat)
            == (1nat, RateMode::Decelerated { every, frame: 1 }),
{
    lemma_decelerated_idle(every, (every - 1) as nat);
}

} // verus!
