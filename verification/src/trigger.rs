//! The debounced trigger policy.
//!
//! Each analysis window that passes the volume gate may yield a pitch
//! observation. The policy fires a discrete activation exactly when an
//! observation exists, its frequency is strictly above the trigger
//! frequency, and the refractory interval since the last activation has
//! elapsed (the very first qualifying observation always fires). Firing
//! records the current time as the last activation time.
//!
//! Frequencies are kept in millihertz and clarity in thousandths, so the
//! policy is pure integer logic; timestamps are milliseconds on one
//! monotonic clock.

use vstd::prelude::*;

verus! {

/// Default trigger frequency: 1400 Hz, in millihertz.
pub const DEFAULT_TRIGGER_FREQUENCY_MILLIHERTZ: u64 = 1400000;

/// Default refractory interval between activations, in milliseconds.
pub const DEFAULT_DEBOUNCE_MILLIS: u64 = 500;

/// One pitch estimate: a fundamental frequency and a confidence score.
#[derive(Clone, Copy, PartialEq, Eq, Structural)]
pub struct PitchObservation {
    /// Estimated fundamental frequency, in millihertz.
    pub frequency_millihertz: u64,
    /// Confidence of the estimate, in thousandths (0 to 1000).
    pub clarity_milli: u64,
}

impl PitchObservation {
    /// A meaningful observation has a positive frequency and a clarity
    /// within the unit range.
    pub open spec fn wf(self) -> bool {
        self.frequency_millihertz > 0 && self.clarity_milli <= 1000
    }
}

/// Configuration of the trigger policy.
#[derive(Clone, Copy, PartialEq, Eq, Structural)]
pub struct TriggerConfig {
    /// An observation qualifies only if its frequency is strictly above
    /// this value (in millihertz).
    pub trigger_frequency_millihertz: u64,
    /// Minimum time between two activations, in milliseconds.
    pub debounce_millis: u64,
}

impl TriggerConfig {
    /// The configuration the system ships with: 1400 Hz, 500 ms.
    pub fn recommended() -> (cfg: Self)
        ensures
            cfg.trigger_frequency_millihertz == DEFAULT_TRIGGER_FREQUENCY_MILLIHERTZ,
            cfg.debounce_millis == DEFAULT_DEBOUNCE_MILLIS,
    {
        TriggerConfig {
            trigger_frequency_millihertz: DEFAULT_TRIGGER_FREQUENCY_MILLIHERTZ,
            debounce_millis: DEFAULT_DEBOUNCE_MILLIS,
        }
    }
}

/// Time of the last fired activation, unset until the first one fires.
#[derive(Clone, Copy, PartialEq, Eq, Structural)]
pub struct TriggerState {
    /// Timestamp of the last activation, in milliseconds, if any fired yet.
    pub last_activation_millis: Option<u64>,
}

impl TriggerState {
    /// Timestamps come from one monotonic clock: a recorded activation
    /// never lies in the future of the current instant.
    pub open spec fn timestamps_ok(self, now_millis: u64) -> bool {
        self.last_activation_millis matches Some(t) ==> t <= now_millis
    }

    /// Fresh state: no activation has fired yet.
    pub fn new() -> (st: Self)
        ensures
            st.last_activation_millis is None,
    {
        TriggerState { last_activation_millis: None }
    }
}

/// An observation qualifies when it exists and its frequency is strictly
/// above the trigger frequency.
pub open spec fn qualifies(obs: Option<PitchObservation>, cfg: TriggerConfig) -> bool {
    obs matches Some(o) && o.frequency_millihertz > cfg.trigger_frequency_millihertz
}

/// The refractory interval has elapsed when no activation fired yet, or
/// the last one lies at least the debounce interval in the past.
pub open spec fn refractory_elapsed(st: TriggerState, now_millis: u64, cfg: TriggerConfig) -> bool {
    match st.last_activation_millis {
        None => true,
        Some(t) => now_millis - t >= cfg.debounce_millis,
    }
}

/// The policy fires exactly when a qualifying observation arrives while
/// the refractory interval has elapsed.
pub open spec fn fires(
    obs: Option<PitchObservation>,
    now_millis: u64,
    st: TriggerState,
    cfg: TriggerConfig,
) -> bool {
    qualifies(obs, cfg) && refractory_elapsed(st, now_millis, cfg)
}

/// Feeds one observation (or the lack of one) to the trigger policy.
///
/// Returns true exactly when an activation should fire now; in that case
/// the current time is recorded as the last activation time, otherwise the
/// state is left untouched.
pub fn on_observation(
    obs: Option<PitchObservation>,
    now_millis: u64,
    state: &mut TriggerState,
    cfg: &TriggerConfig,
) -> (fired: bool)
    requires
        old(state).timestamps_ok(now_millis),
    ensures
        fired == fires(obs, now_millis, *old(state), *cfg),
        fired ==> final(state).last_activation_millis == Some(now_millis),
        !fired ==> *final(state) == *old(state),
{
    let qualifying = match obs {
        Some(o) => o.frequency_millihertz > cfg.trigger_frequency_millihertz,
        None => false,
    };
    if !qualifying {
        return false;
    }
    let elapsed = match state.last_activation_millis {
        None => true,
        Some(t) => now_millis - t >= cfg.debounce_millis,
    };
    if elapsed {
        state.last_activation_millis = Some(now_millis);
        true
    } else {
        false
    }
}

/// An observation at or below the trigger frequency never fires, whatever
/// its clarity, the state, or the current time.
pub proof fn lemma_low_frequency_never_fires(
    obs: PitchObservation,
    now_millis: u64,
    st: TriggerState,
    cfg: TriggerConfig,
)
    requires
        obs.frequency_millihertz <= cfg.trigger_frequency_millihertz,
    ensures
        !fires(Some(obs), now_millis, st, cfg),
{
}

/// After an activation fires, every observation that arrives strictly less
/// than the debounce interval later is suppressed, whatever it holds.
pub proof fn lemma_refractory_suppresses(
    obs: Option<PitchObservation>,
    fired_at_millis: u64,
    now_millis: u64,
    cfg: TriggerConfig,
)
    requires
        fired_at_millis <= now_millis,
        now_millis - fired_at_millis < cfg.debounce_millis,
    ensures
        !fires(
            obs,
            now_millis,
            TriggerState { last_activation_millis: Some(fired_at_millis) },
            cfg,
        ),
{
}

} // verus!
