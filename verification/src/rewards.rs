//! The reward computation engine: a pure pipeline from one day's observed
//! activity to a capped token award.
//!
//! Four stages: streak tokens from the smoke-free streak, eco-action
//! tokens gated on verified events, donation tokens, and capping against
//! the daily and annual limits — in that order. The engine is total over
//! its context inputs: negative telemetry is floored to zero, never
//! rejected, and every field of the result is pinned to a function of the
//! inputs alone, so identical inputs always yield an identical result.

use vstd::prelude::*;

use crate::digits::{decimal_string_i32, spec_decimal_string};
use crate::policy::{TokenPolicy, FIXED_POINT_SCALE, MIN_MULTIPLIER};

verus! {

/// Seconds in one whole day, for turning timestamps into streak days.
pub const SECONDS_PER_DAY: i64 = 86400;

/// Fixed engine weight: 5.00 tokens (in hundredths) per kilogram of
/// plastic recycled. Deliberately not policy-configurable.
pub const TOKENS_PER_KG_PLASTIC: u64 = 500;

/// Fixed engine weight: 25.00 tokens (in hundredths) per kilogram of
/// cigarette butts collected. Deliberately not policy-configurable.
pub const TOKENS_PER_KG_BUTTS: u64 = 2500;

/// Fixed engine weight: 100.00 tokens (in hundredths) per cleanup event
/// attended. Deliberately not policy-configurable.
pub const TOKENS_PER_CLEANUP_EVENT: u64 = 10000;

/// Snapshot of a user's smoke-free streak evidence. Timestamps are in
/// seconds since the epoch.
#[derive(Debug, Clone)]
pub struct StreakContext {
    pub profile_id: String,
    /// When the user last smoked, or `None` if never recorded.
    pub last_smoked_at: Option<i64>,
    /// The time of evaluation.
    pub now: i64,
}

/// Snapshot of a user's verified ecological actions for the day. Masses
/// are in hundredths of a kilogram; negative values count as zero.
#[derive(Debug, Clone)]
pub struct EcoActionContext {
    pub profile_id: String,
    pub verified_eco_events_today: u32,
    pub verified_eco_events_this_year: u32,
    pub total_kg_plastic_recycled_today: i64,
    pub total_kg_cigarette_butts_collected_today: i64,
    pub cleanup_events_today: u32,
}

/// Snapshot of a user's verified donations for the day, in hundredths of
/// a fiat-equivalent unit; non-positive values contribute nothing.
#[derive(Debug, Clone)]
pub struct DonationContext {
    pub profile_id: String,
    pub verified_donation_units_today: i64,
}

/// Externally maintained totals of tokens already minted, in hundredths.
#[derive(Debug, Clone)]
pub struct AccumulatedTokensYearToDate {
    pub profile_id: String,
    pub year: i32,
    pub tokens_minted_this_year: i64,
    /// Informational only: the engine recomputes today's total from
    /// scratch and never adds to this figure.
    pub tokens_minted_today: i64,
}

/// The outcome of one computation cycle. Token amounts are in hundredths;
/// the component amounts are reported uncapped, while `total_tokens` is
/// the capped figure a ledger may mint.
#[derive(Debug, Clone)]
pub struct TokenComputationResult {
    pub profile_id: String,
    pub date: String,
    pub tokens_for_streak: u64,
    pub tokens_for_eco_actions: u64,
    pub tokens_for_donations: u64,
    pub total_tokens: u64,
    pub capped_daily: bool,
    pub capped_annual: bool,
}

/// Whole days smoke-free: the elapsed time from the last smoking event to
/// now, floored to whole days and never negative; zero when the last
/// event is unknown or lies in the future (clock skew).
pub open spec fn spec_days_smoke_free(last_smoked_at: Option<i64>, now: i64) -> int {
    match last_smoked_at {
        Option::None => 0,
        Option::Some(last) => if now <= last {
            0
        } else {
            (now - last) / (SECONDS_PER_DAY as int)
        },
    }
}

/// The single bonus multiplier a streak earns, in hundredths: the highest
/// threshold met wins, and below thirty days there is no bonus (1.00x).
pub open spec fn spec_tier_multiplier(p: TokenPolicy, days: int) -> int {
    if days >= 365 {
        p.streak_365_multiplier as int
    } else if days >= 90 {
        p.streak_90_multiplier as int
    } else if days >= 30 {
        p.streak_30_multiplier as int
    } else {
        MIN_MULTIPLIER as int
    }
}

/// Streak tokens in hundredths: base rate times the whole accumulated
/// streak times the tier multiplier — the bonus applies retroactively to
/// every streak day, not only the days past the tier threshold.
pub open spec fn spec_streak_tokens(p: TokenPolicy, days: int) -> int {
    p.base_smoke_free_per_day * days * spec_tier_multiplier(p, days) / (FIXED_POINT_SCALE as int)
}

/// A signed telemetry value floored at zero.
pub open spec fn spec_floor_zero_i64(v: i64) -> int {
    if v < 0 {
        0
    } else {
        v as int
    }
}

/// A value held at the widest representable token amount.
pub open spec fn spec_saturate_u64(x: int) -> int {
    if x > u64::MAX {
        u64::MAX as int
    } else {
        x
    }
}

/// The ungated eco-action sum in hundredths: per-event rate times the
/// verified event count, plus the fixed per-kilogram and per-cleanup
/// weights applied to the floored masses and counts.
pub open spec fn spec_eco_raw_tokens(p: TokenPolicy, eco: EcoActionContext) -> int {
    p.base_eco_action_per_verified_event * eco.verified_eco_events_today + spec_floor_zero_i64(
        eco.total_kg_plastic_recycled_today,
    ) * TOKENS_PER_KG_PLASTIC / (FIXED_POINT_SCALE as int) + spec_floor_zero_i64(
        eco.total_kg_cigarette_butts_collected_today,
    ) * TOKENS_PER_KG_BUTTS / (FIXED_POINT_SCALE as int) + eco.cleanup_events_today
        * TOKENS_PER_CLEANUP_EVENT
}

/// Eco-action tokens in hundredths. Without at least one verified event
/// the whole stage yields zero, whatever masses were reported; with one,
/// the raw sum is boosted by the post-quit multiplier once the streak has
/// reached the eligibility threshold.
pub open spec fn spec_eco_tokens(p: TokenPolicy, streak_days: int, eco: EcoActionContext) -> int {
    if eco.verified_eco_events_today == 0 {
        0
    } else {
        let raw = spec_eco_raw_tokens(p, eco);
        let boosted = if streak_days >= p.post_quit_eligible_after_days {
            raw * p.post_quit_eco_multiplier / (FIXED_POINT_SCALE as int)
        } else {
            raw
        };
        spec_saturate_u64(boosted)
    }
}

/// Donation tokens in hundredths: rate times verified units, zero for
/// non-positive units.
pub open spec fn spec_donation_tokens(p: TokenPolicy, units: i64) -> int {
    if units <= 0 {
        0
    } else {
        spec_saturate_u64(p.base_donation_per_verified_unit * units / (FIXED_POINT_SCALE as int))
    }
}

/// Tokens still mintable this year: the annual cap minus what was already
/// minted, floored at zero.
pub open spec fn spec_annual_headroom(p: TokenPolicy, minted_this_year: i64) -> int {
    if p.max_annual_tokens_per_user - minted_this_year < 0 {
        0
    } else {
        p.max_annual_tokens_per_user - minted_this_year
    }
}

/// Whether the raw component sum trips the daily cap.
pub open spec fn spec_capped_daily(p: TokenPolicy, raw_total: int) -> bool {
    raw_total > p.max_daily_tokens_per_user
}

/// The total after the daily cap, which is always applied first.
pub open spec fn spec_daily_capped_total(p: TokenPolicy, raw_total: int) -> int {
    if raw_total > p.max_daily_tokens_per_user {
        p.max_daily_tokens_per_user as int
    } else {
        raw_total
    }
}

/// Whether the already daily-capped total still exceeds the annual
/// headroom — so both flags may be set at once.
pub open spec fn spec_capped_annual(p: TokenPolicy, minted_this_year: i64, raw_total: int) -> bool {
    spec_daily_capped_total(p, raw_total) > spec_annual_headroom(p, minted_this_year)
}

/// The final mintable total: the daily-capped total, further clamped to
/// the annual headroom. The annual clamp always consumes the post-daily
/// figure, never the raw one.
pub open spec fn spec_final_total(p: TokenPolicy, minted_this_year: i64, raw_total: int) -> int {
    if spec_daily_capped_total(p, raw_total) > spec_annual_headroom(p, minted_this_year) {
        spec_annual_headroom(p, minted_this_year)
    } else {
        spec_daily_capped_total(p, raw_total)
    }
}

/// The stateless reward computation engine.
pub struct TokenRewardEngine;

impl TokenRewardEngine {
    /// Stage A: smoke-free streak tokens and the streak length in days.
    pub fn compute_streak_tokens(policy: &TokenPolicy, streak_ctx: &StreakContext) -> (r: (
        u64,
        u64,
    ))
        requires
            policy.wf(),
        ensures
            r.1 == spec_days_smoke_free(streak_ctx.last_smoked_at, streak_ctx.now),
            r.0 == spec_streak_tokens(*policy, r.1 as int),
    {
        let days_smoke_free: u64 = match streak_ctx.last_smoked_at {
            Option::Some(last) => {
                let delta: i128 = streak_ctx.now as i128 - last as i128;
                if delta <= 0 {
                    0
                } else {
                    // The widest possible timestamp difference still gives
                    // a day count far below the token amount ceiling.
                    proof {
                        vstd::arithmetic::div_mod::lemma_div_is_ordered(
                            delta as int,
                            0xffff_ffff_ffff_ffffint,
                            86400,
                        );
                    }
                    (delta / (SECONDS_PER_DAY as i128)) as u64
                }
            },
            Option::None => 0,
        };
        if days_smoke_free == 0 {
            proof {
                broadcast use vstd::arithmetic::mul::lemma_mul_by_zero_is_zero;

                assert(spec_streak_tokens(*policy, 0) == 0);
            }
            return (0, 0);
        }
        let multiplier: u64 = if days_smoke_free >= 365 {
            policy.streak_365_multiplier
        } else if days_smoke_free >= 90 {
            policy.streak_90_multiplier
        } else if days_smoke_free >= 30 {
            policy.streak_30_multiplier
        } else {
            MIN_MULTIPLIER
        };
        let base: u128 = policy.base_smoke_free_per_day as u128;
        let days: u128 = days_smoke_free as u128;
        let mult: u128 = multiplier as u128;
        assert(base * days <= 5000 * (0xffff_ffff_ffff_ffffint / 86400)) by (nonlinear_arith)
            requires
                base <= 5000,
                days <= 0xffff_ffff_ffff_ffffint / 86400,
        ;
        assert(base * days * mult <= 5000 * (0xffff_ffff_ffff_ffffint / 86400) * 300)
            by (nonlinear_arith)
            requires
                base <= 5000,
                days <= 0xffff_ffff_ffff_ffffint / 86400,
                mult <= 300,
        ;
        let product: u128 = base * days * mult;
        proof {
            vstd::arithmetic::div_mod::lemma_div_is_ordered(
                product as int,
                5000 * (0xffff_ffff_ffff_ffffint / 86400) * 300,
                100,
            );
        }
        let tokens: u128 = product / (FIXED_POINT_SCALE as u128);
        (tokens as u64, days_smoke_free)
    }

    /// Stage B: eco-action tokens for the day, gated on at least one
    /// verified event and boosted by the post-quit multiplier once the
    /// streak reaches the eligibility threshold.
    pub fn compute_eco_tokens(policy: &TokenPolicy, streak_days: u64, eco_ctx: &EcoActionContext)
        -> (r: u64)
        requires
            policy.wf(),
        ensures
            r == spec_eco_tokens(*policy, streak_days as int, *eco_ctx),
    {
        if eco_ctx.verified_eco_events_today == 0 {
            return 0;
        }
        let plastic: u128 = if eco_ctx.total_kg_plastic_recycled_today < 0 {
            0
        } else {
            eco_ctx.total_kg_plastic_recycled_today as u128
        };
        let butts: u128 = if eco_ctx.total_kg_cigarette_butts_collected_today < 0 {
            0
        } else {
            eco_ctx.total_kg_cigarette_butts_collected_today as u128
        };
        let base: u128 = policy.base_eco_action_per_verified_event as u128;
        let events: u128 = eco_ctx.verified_eco_events_today as u128;
        assert(base * events <= 5000 * 0xffff_ffffint) by (nonlinear_arith)
            requires
                base <= 5000,
                events <= 0xffff_ffffint,
        ;
        let mut tokens: u128 = base * events;
        let plastic_term: u128 = plastic * (TOKENS_PER_KG_PLASTIC as u128) / (FIXED_POINT_SCALE
            as u128);
        let butts_term: u128 = butts * (TOKENS_PER_KG_BUTTS as u128) / (FIXED_POINT_SCALE
            as u128);
        proof {
            vstd::arithmetic::div_mod::lemma_div_is_ordered(
                (plastic * TOKENS_PER_KG_PLASTIC) as int,
                0x7fff_ffff_ffff_ffffint * 500,
                100,
            );
            vstd::arithmetic::div_mod::lemma_div_is_ordered(
                (butts * TOKENS_PER_KG_BUTTS) as int,
                0x7fff_ffff_ffff_ffffint * 2500,
                100,
            );
        }
        let cleanups: u128 = eco_ctx.cleanup_events_today as u128;
        assert(cleanups * (TOKENS_PER_CLEANUP_EVENT as u128) <= 0xffff_ffffint * 10000)
            by (nonlinear_arith)
            requires
                cleanups <= 0xffff_ffffint,
                TOKENS_PER_CLEANUP_EVENT == 10000,
        ;
        tokens = tokens + plastic_term;
        tokens = tokens + butts_term;
        tokens = tokens + cleanups * (TOKENS_PER_CLEANUP_EVENT as u128);
        if streak_days >= policy.post_quit_eligible_after_days {
            let mult: u128 = policy.post_quit_eco_multiplier as u128;
            assert(tokens * mult <= 0xffff_ffff_ffff_ffff_ffff_ffffint * 300) by (nonlinear_arith)
                requires
                    tokens <= 0xffff_ffff_ffff_ffff_ffff_ffffint,
                    mult <= 300,
            ;
            tokens = tokens * mult / (FIXED_POINT_SCALE as u128);
        }
        if tokens > u64::MAX as u128 {
            u64::MAX
        } else {
            tokens as u64
        }
    }

    /// Stage C: donation tokens for the day's verified donations.
    pub fn compute_donation_tokens(policy: &TokenPolicy, donation_ctx: &DonationContext) -> (r:
        u64)
        ensures
            r == spec_donation_tokens(*policy, donation_ctx.verified_donation_units_today),
    {
        if donation_ctx.verified_donation_units_today <= 0 {
            return 0;
        }
        let rate: u128 = policy.base_donation_per_verified_unit as u128;
        let units: u128 = donation_ctx.verified_donation_units_today as u128;
        assert(rate * units <= 0xffff_ffff_ffff_ffffint * 0x7fff_ffff_ffff_ffffint) by (nonlinear_arith)
            requires
                rate <= 0xffff_ffff_ffff_ffffint,
                units <= 0x7fff_ffff_ffff_ffffint,
        ;
        let tokens: u128 = rate * units / (FIXED_POINT_SCALE as u128);
        if tokens > u64::MAX as u128 {
            u64::MAX
        } else {
            tokens as u64
        }
    }

    /// Stage D: cap the component sum, daily limit first, then the
    /// remaining annual headroom — in that order, so the annual clamp
    /// always consumes the post-daily-cap total.
    pub fn apply_caps(
        policy: &TokenPolicy,
        ytd: &AccumulatedTokensYearToDate,
        tokens_for_streak: u64,
        tokens_for_eco_actions: u64,
        tokens_for_donations: u64,
    ) -> (r: TokenComputationResult)
        ensures
            r.profile_id@ == ytd.profile_id@,
            r.date@ == spec_decimal_string(ytd.year as int),
            r.tokens_for_streak == tokens_for_streak,
            r.tokens_for_eco_actions == tokens_for_eco_actions,
            r.tokens_for_donations == tokens_for_donations,
            ({
                let raw = tokens_for_streak + tokens_for_eco_actions + tokens_for_donations;
                &&& r.total_tokens == spec_final_total(*policy, ytd.tokens_minted_this_year, raw)
                &&& r.capped_daily == spec_capped_daily(*policy, raw)
                &&& r.capped_annual == spec_capped_annual(*policy, ytd.tokens_minted_this_year, raw)
            }),
    {
        let date = decimal_string_i32(ytd.year);
        let raw: u128 = tokens_for_streak as u128 + tokens_for_eco_actions as u128
            + tokens_for_donations as u128;
        let mut total: u128 = raw;
        let mut capped_daily = false;
        if total > policy.max_daily_tokens_per_user as u128 {
            total = policy.max_daily_tokens_per_user as u128;
            capped_daily = true;
        }
        let headroom: u128 = {
            let diff: i128 = policy.max_annual_tokens_per_user as i128
                - ytd.tokens_minted_this_year as i128;
            if diff < 0 {
                0
            } else {
                diff as u128
            }
        };
        let mut capped_annual = false;
        if total > headroom {
            total = headroom;
            capped_annual = true;
        }
        TokenComputationResult {
            profile_id: ytd.profile_id.clone(),
            date,
            tokens_for_streak,
            tokens_for_eco_actions,
            tokens_for_donations,
            total_tokens: total as u64,
            capped_daily,
            capped_annual,
        }
    }

    /// The full pipeline: compute the three components, then cap.
    pub fn compute_daily_tokens(
        policy: &TokenPolicy,
        streak_ctx: &StreakContext,
        eco_ctx: &EcoActionContext,
        donation_ctx: &DonationContext,
        ytd: &AccumulatedTokensYearToDate,
    ) -> (r: TokenComputationResult)
        requires
            policy.wf(),
        ensures
            spec_matches_computation(*policy, *streak_ctx, *eco_ctx, *donation_ctx, *ytd, r),
    {
        let (streak_tokens, streak_days) = Self::compute_streak_tokens(policy, streak_ctx);
        let eco_tokens = Self::compute_eco_tokens(policy, streak_days, eco_ctx);
        let donation_tokens = Self::compute_donation_tokens(policy, donation_ctx);
        Self::apply_caps(policy, ytd, streak_tokens, eco_tokens, donation_tokens)
    }
}

/// What the full pipeline promises of its result: every observable field
/// is a function of the policy and the four context values alone.
pub open spec fn spec_matches_computation(
    p: TokenPolicy,
    streak_ctx: StreakContext,
    eco_ctx: EcoActionContext,
    donation_ctx: DonationContext,
    ytd: AccumulatedTokensYearToDate,
    r: TokenComputationResult,
) -> bool {
    let days = spec_days_smoke_free(streak_ctx.last_smoked_at, streak_ctx.now);
    let s = spec_streak_tokens(p, days);
    let e = spec_eco_tokens(p, days, eco_ctx);
    let d = spec_donation_tokens(p, donation_ctx.verified_donation_units_today);
    let raw = s + e + d;
    &&& r.profile_id@ == ytd.profile_id@
    &&& r.date@ == spec_decimal_string(ytd.year as int)
    &&& r.tokens_for_streak == s
    &&& r.tokens_for_eco_actions == e
    &&& r.tokens_for_donations == d
    &&& r.total_tokens == spec_final_total(p, ytd.tokens_minted_this_year, raw)
    &&& r.capped_daily == spec_capped_daily(p, raw)
    &&& r.capped_annual == spec_capped_annual(p, ytd.tokens_minted_this_year, raw)
}

/// Streak tiering selects exactly one multiplier by the highest threshold
/// met: no bonus below thirty days, the thirty-day multiplier up to the
/// ninetieth day, the ninety-day multiplier up to the three-hundred-and-
/// sixty-fifth, and the year multiplier from there on.
pub proof fn lemma_streak_tier_boundaries(p: TokenPolicy)
    ensures
        forall|days: int| days < 30 ==> spec_tier_multiplier(p, days) == MIN_MULTIPLIER,
        forall|days: int|
            30 <= days < 90 ==> spec_tier_multiplier(p, days) == p.streak_30_multiplier,
        forall|days: int|
            90 <= days < 365 ==> spec_tier_multiplier(p, days) == p.streak_90_multiplier,
        forall|days: int| days >= 365 ==> spec_tier_multiplier(p, days) == p.streak_365_multiplier,
{
}

/// Capping order: when the raw component sum exceeds the daily cap and
/// the daily cap in turn exceeds the annual headroom, both capping flags
/// are set and the final total is the annual headroom — never the daily
/// cap value.
pub proof fn lemma_capping_order(p: TokenPolicy, minted_this_year: i64, raw_total: int)
    requires
        raw_total > p.max_daily_tokens_per_user,
        p.max_daily_tokens_per_user > spec_annual_headroom(p, minted_this_year),
    ensures
        spec_capped_daily(p, raw_total),
        spec_capped_annual(p, minted_this_year, raw_total),
        spec_final_total(p, minted_this_year, raw_total) == spec_annual_headroom(
            p,
            minted_this_year,
        ),
{
}

/// Determinism: the pipeline's contract pins every observable field, so
/// any two results of identical inputs agree on all of them — identical
/// numbers and flags, and character-identical strings.
pub proof fn lemma_computation_deterministic(
    p: TokenPolicy,
    streak_ctx: StreakContext,
    eco_ctx: EcoActionContext,
    donation_ctx: DonationContext,
    ytd: AccumulatedTokensYearToDate,
    r1: TokenComputationResult,
    r2: TokenComputationResult,
)
    requires
        spec_matches_computation(p, streak_ctx, eco_ctx, donation_ctx, ytd, r1),
        spec_matches_computation(p, streak_ctx, eco_ctx, donation_ctx, ytd, r2),
    ensures
        r1.profile_id@ == r2.profile_id@,
        r1.date@ == r2.date@,
        r1.tokens_for_streak == r2.tokens_for_streak,
        r1.tokens_for_eco_actions == r2.tokens_for_eco_actions,
        r1.tokens_for_donations == r2.tokens_for_donations,
        r1.total_tokens == r2.total_tokens,
        r1.capped_daily == r2.capped_daily,
        r1.capped_annual == r2.capped_annual,
{
}

} // verus!
