//! The policy value object and its fairness invariant.
//!
//! A `TokenPolicy` is an immutable set of numeric reward parameters. Every
//! monetary quantity (rates, caps) is a fixed-point amount in hundredths of
//! a token; every multiplier is a fixed-point factor in hundredths (so 150
//! means 1.5x). The loader in `loader` is the only intended producer of
//! policies, and it guarantees the range invariant `wf` below.

use vstd::prelude::*;

verus! {

/// Hundredths in one whole unit: the denominator of every fixed-point
/// amount and multiplier in this crate.
pub const FIXED_POINT_SCALE: u64 = 100;

/// Ceiling on the per-day smoke-free base rate: 50.00 tokens.
pub const MAX_BASE_SMOKE_FREE: u64 = 5000;

/// Ceiling on the per-event eco-action base rate: 50.00 tokens.
pub const MAX_BASE_ECO_ACTION: u64 = 5000;

/// Ceiling on the per-unit donation base rate: 100.00 tokens.
pub const MAX_BASE_DONATION: u64 = 10000;

/// Floor on every bonus multiplier: 1.00x (a multiplier below one is
/// meaningless and is raised to one).
pub const MIN_MULTIPLIER: u64 = 100;

/// Ceiling on every bonus multiplier: 3.00x, the anti-gambling bound.
pub const MAX_MULTIPLIER: u64 = 300;

/// Floor on the daily cap: 1.00 token.
pub const MIN_DAILY_CAP: u64 = 100;

/// Ceiling on the daily cap: 1000.00 tokens.
pub const MAX_DAILY_CAP: u64 = 100000;

/// Ceiling on the annual cap: 300000.00 tokens.
pub const MAX_ANNUAL_CAP: u64 = 30000000;

/// Immutable reward policy parameters, already validated and clamped.
///
/// Rates and caps are in hundredths of a token; multipliers are in
/// hundredths of 1x; `post_quit_eligible_after_days` is a whole number of
/// smoke-free days.
#[derive(Debug, Clone)]
pub struct TokenPolicy {
    pub token_symbol: String,
    pub base_smoke_free_per_day: u64,
    pub base_eco_action_per_verified_event: u64,
    pub base_donation_per_verified_unit: u64,
    pub streak_30_multiplier: u64,
    pub streak_90_multiplier: u64,
    pub streak_365_multiplier: u64,
    pub post_quit_eco_multiplier: u64,
    pub max_daily_tokens_per_user: u64,
    pub max_annual_tokens_per_user: u64,
    pub post_quit_eligible_after_days: u64,
}

impl TokenPolicy {
    /// The fairness invariant: all six range constraints hold at once.
    /// Every policy the loader produces satisfies this, whatever the source
    /// documents held.
    pub open spec fn wf(self) -> bool {
        &&& self.base_smoke_free_per_day <= MAX_BASE_SMOKE_FREE
        &&& self.base_eco_action_per_verified_event <= MAX_BASE_ECO_ACTION
        &&& self.base_donation_per_verified_unit <= MAX_BASE_DONATION
        &&& MIN_MULTIPLIER <= self.streak_30_multiplier <= MAX_MULTIPLIER
        &&& MIN_MULTIPLIER <= self.streak_90_multiplier <= MAX_MULTIPLIER
        &&& MIN_MULTIPLIER <= self.streak_365_multiplier <= MAX_MULTIPLIER
        &&& MIN_MULTIPLIER <= self.post_quit_eco_multiplier <= MAX_MULTIPLIER
        &&& MIN_DAILY_CAP <= self.max_daily_tokens_per_user <= MAX_DAILY_CAP
        &&& self.max_daily_tokens_per_user <= self.max_annual_tokens_per_user <= MAX_ANNUAL_CAP
    }

    /// Runtime check of `wf`, for callers outside the proof world that
    /// build a policy by hand instead of through the loader.
    pub fn is_well_formed(&self) -> (b: bool)
        ensures
            b == self.wf(),
    {
        self.base_smoke_free_per_day <= MAX_BASE_SMOKE_FREE
            && self.base_eco_action_per_verified_event <= MAX_BASE_ECO_ACTION
            && self.base_donation_per_verified_unit <= MAX_BASE_DONATION
            && MIN_MULTIPLIER <= self.streak_30_multiplier
            && self.streak_30_multiplier <= MAX_MULTIPLIER
            && MIN_MULTIPLIER <= self.streak_90_multiplier
            && self.streak_90_multiplier <= MAX_MULTIPLIER
            && MIN_MULTIPLIER <= self.streak_365_multiplier
            && self.streak_365_multiplier <= MAX_MULTIPLIER
            && MIN_MULTIPLIER <= self.post_quit_eco_multiplier
            && self.post_quit_eco_multiplier <= MAX_MULTIPLIER
            && MIN_DAILY_CAP <= self.max_daily_tokens_per_user
            && self.max_daily_tokens_per_user <= MAX_DAILY_CAP
            && self.max_daily_tokens_per_user <= self.max_annual_tokens_per_user
            && self.max_annual_tokens_per_user <= MAX_ANNUAL_CAP
    }
}

} // verus!
