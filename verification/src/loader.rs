//! The policy loader: merge two configuration documents into one policy.
//!
//! Two independently authored documents describe the reward economy: the
//! runtime policy document (base rates, bonus multipliers, caps) and the
//! plastic-loop reward model (the post-quit eligibility threshold). The
//! loader cross-validates that both name the same token, merges the fields
//! into one `TokenPolicy`, and then repairs every out-of-range value by
//! clamping. A token-symbol mismatch is the only hard failure: a merely
//! unsafe configuration is corrected, never deployed as-is.
//!
//! Reading and parsing the documents is the caller's concern; the loader
//! receives their numeric fields already converted to fixed-point
//! hundredths (signed, since a source document may hold negative values).

use vstd::prelude::*;

use crate::policy::{
    TokenPolicy, MAX_ANNUAL_CAP, MAX_BASE_DONATION, MAX_BASE_ECO_ACTION, MAX_BASE_SMOKE_FREE,
    MAX_DAILY_CAP, MAX_MULTIPLIER, MIN_DAILY_CAP, MIN_MULTIPLIER,
};

verus! {

/// The `token_rewards` section of the runtime policy document, already
/// parsed. Amount fields are in hundredths of a token, multipliers in
/// hundredths of 1x; all are signed and unclamped as found in the source.
#[derive(Debug, Clone)]
pub struct RuntimeRewardsDoc {
    pub token_symbol: String,
    pub smoke_free_per_day: i64,
    pub eco_action_per_verified_event: i64,
    pub donation_per_verified_unit: i64,
    pub streak_30_days: i64,
    pub streak_90_days: i64,
    pub streak_365_days: i64,
    pub post_quit_eco_focus: i64,
    pub max_daily_tokens_per_user: i64,
    pub max_annual_tokens_per_user: i64,
}

/// The `token_reward_model` section of the plastic-loop document, already
/// parsed down to the fields this loader consumes.
#[derive(Debug, Clone)]
pub struct PlasticLoopRewardDoc {
    pub token_symbol: String,
    pub eligible_after_days_smoke_free: i64,
}

/// Why a policy load failed. Out-of-range numeric values never appear
/// here: they are repaired by clamping instead.
#[derive(Debug, Clone)]
pub enum PolicyLoadError {
    /// A source document could not be read at all.
    DocumentRead { detail: String },
    /// A source document parsed but lacked a required field or held a
    /// malformed one.
    DocumentSchema { detail: String },
    /// The two documents disagree on the token identity: the only hard
    /// rejection of a parsed configuration.
    TokenSymbolMismatch,
}

impl PolicyLoadError {
    /// A human-readable description of the failure.
    pub fn message(&self) -> (s: String)
        ensures
            self matches PolicyLoadError::DocumentRead { detail } ==> s@
                == "Policy document could not be read: "@ + detail@,
            self matches PolicyLoadError::DocumentSchema { detail } ==> s@
                == "Policy document schema error: "@ + detail@,
            self is TokenSymbolMismatch ==> s@
                == "Token symbols mismatch between runtime policy and plastic loop model"@,
    {
        match self {
            PolicyLoadError::DocumentRead { detail } => {
                "Policy document could not be read: ".to_owned().concat(detail.as_str())
            },
            PolicyLoadError::DocumentSchema { detail } => {
                "Policy document schema error: ".to_owned().concat(detail.as_str())
            },
            PolicyLoadError::TokenSymbolMismatch => {
                "Token symbols mismatch between runtime policy and plastic loop model".to_owned()
            },
        }
    }
}

/// A raw value clamped into `[lo, hi]`.
pub open spec fn spec_clamp(v: i64, lo: u64, hi: u64) -> u64
    recommends
        lo <= hi,
{
    if v < lo { lo } else if v > hi { hi } else { v as u64 }
}

/// A raw value floored at zero.
pub open spec fn spec_floor_zero(v: i64) -> u64 {
    if v < 0 { 0 } else { v as u64 }
}

/// The policy that merging and clamping the two documents yields.
///
/// Floors are applied before ceilings, and the annual cap's floor is the
/// already-clamped daily cap, so the daily <= annual invariant survives any
/// input. With every floor below its ceiling this is one clamp per field.
pub open spec fn spec_merged_policy(rt: RuntimeRewardsDoc, pl: PlasticLoopRewardDoc) -> TokenPolicy {
    let daily = spec_clamp(rt.max_daily_tokens_per_user, MIN_DAILY_CAP, MAX_DAILY_CAP);
    TokenPolicy {
        token_symbol: rt.token_symbol,
        base_smoke_free_per_day: spec_clamp(rt.smoke_free_per_day, 0, MAX_BASE_SMOKE_FREE),
        base_eco_action_per_verified_event: spec_clamp(
            rt.eco_action_per_verified_event,
            0,
            MAX_BASE_ECO_ACTION,
        ),
        base_donation_per_verified_unit: spec_clamp(
            rt.donation_per_verified_unit,
            0,
            MAX_BASE_DONATION,
        ),
        streak_30_multiplier: spec_clamp(rt.streak_30_days, MIN_MULTIPLIER, MAX_MULTIPLIER),
        streak_90_multiplier: spec_clamp(rt.streak_90_days, MIN_MULTIPLIER, MAX_MULTIPLIER),
        streak_365_multiplier: spec_clamp(rt.streak_365_days, MIN_MULTIPLIER, MAX_MULTIPLIER),
        post_quit_eco_multiplier: spec_clamp(rt.post_quit_eco_focus, MIN_MULTIPLIER, MAX_MULTIPLIER),
        max_daily_tokens_per_user: daily,
        max_annual_tokens_per_user: spec_clamp(rt.max_annual_tokens_per_user, daily, MAX_ANNUAL_CAP),
        post_quit_eligible_after_days: spec_floor_zero(pl.eligible_after_days_smoke_free),
    }
}

/// Every policy the merge yields satisfies the fairness invariant,
/// whatever the two source documents held: the range invariants on rates,
/// multipliers and caps hold, and the daily cap never exceeds the annual
/// cap, even when the documents order them the other way round.
pub proof fn lemma_merged_policy_wf(rt: RuntimeRewardsDoc, pl: PlasticLoopRewardDoc)
    ensures
        spec_merged_policy(rt, pl).wf(),
{
}

fn clamp_i64(v: i64, lo: u64, hi: u64) -> (r: u64)
    requires
        lo <= hi,
        lo <= i64::MAX,
        hi <= i64::MAX,
    ensures
        r == spec_clamp(v, lo, hi),
{
    if v < lo as i64 {
        lo
    } else if v > hi as i64 {
        hi
    } else {
        v as u64
    }
}

/// Loader that merges the runtime policy document with the plastic-loop
/// reward model, then enforces the hard fairness and anti-gambling bounds.
pub struct TokenPolicyLoader;

impl TokenPolicyLoader {
    /// Merge the two parsed documents into a validated `TokenPolicy`.
    ///
    /// Succeeds exactly when the two documents agree byte-for-byte on the
    /// token symbol; the resulting policy is the clamped merge and always
    /// satisfies the fairness invariant. A mismatch is the only error.
    pub fn load_from_documents(rt: &RuntimeRewardsDoc, pl: &PlasticLoopRewardDoc) -> (r: Result<
        TokenPolicy,
        PolicyLoadError,
    >)
        ensures
            r is Ok <==> rt.token_symbol@ == pl.token_symbol@,
            r matches Ok(p) ==> p == spec_merged_policy(*rt, *pl),
            r matches Ok(p) ==> p.wf(),
            r matches Err(e) ==> e is TokenSymbolMismatch,
    {
        if !(rt.token_symbol == pl.token_symbol) {
            return Err(PolicyLoadError::TokenSymbolMismatch);
        }
        let daily = clamp_i64(rt.max_daily_tokens_per_user, MIN_DAILY_CAP, MAX_DAILY_CAP);
        let policy = TokenPolicy {
            token_symbol: rt.token_symbol.clone(),
            base_smoke_free_per_day: clamp_i64(rt.smoke_free_per_day, 0, MAX_BASE_SMOKE_FREE),
            base_eco_action_per_verified_event: clamp_i64(
                rt.eco_action_per_verified_event,
                0,
                MAX_BASE_ECO_ACTION,
            ),
            base_donation_per_verified_unit: clamp_i64(
                rt.donation_per_verified_unit,
                0,
                MAX_BASE_DONATION,
            ),
            streak_30_multiplier: clamp_i64(rt.streak_30_days, MIN_MULTIPLIER, MAX_MULTIPLIER),
            streak_90_multiplier: clamp_i64(rt.streak_90_days, MIN_MULTIPLIER, MAX_MULTIPLIER),
            streak_365_multiplier: clamp_i64(rt.streak_365_days, MIN_MULTIPLIER, MAX_MULTIPLIER),
            post_quit_eco_multiplier: clamp_i64(
                rt.post_quit_eco_focus,
                MIN_MULTIPLIER,
                MAX_MULTIPLIER,
            ),
            max_daily_tokens_per_user: daily,
            max_annual_tokens_per_user: clamp_i64(
                rt.max_annual_tokens_per_user,
                daily,
                MAX_ANNUAL_CAP,
            ),
            post_quit_eligible_after_days: if pl.eligible_after_days_smoke_free < 0 {
                0
            } else {
                pl.eligible_after_days_smoke_free as u64
            },
        };
        Ok(policy)
    }
}

} // verus!
