use cigness::policy::TokenPolicy;
use cigness::rewards::{
    AccumulatedTokensYearToDate, DonationContext, EcoActionContext, StreakContext,
    TokenRewardEngine,
};

const DAY: i64 = 86400;

fn zero_bonus_policy() -> TokenPolicy {
    TokenPolicy {
        token_symbol: "CIG".to_string(),
        base_smoke_free_per_day: 1000,
        base_eco_action_per_verified_event: 250,
        base_donation_per_verified_unit: 300,
        streak_30_multiplier: 100,
        streak_90_multiplier: 100,
        streak_365_multiplier: 100,
        post_quit_eco_multiplier: 100,
        max_daily_tokens_per_user: 100000,
        max_annual_tokens_per_user: 30000000,
        post_quit_eligible_after_days: 1000000,
    }
}

fn streak_ctx(days: i64) -> StreakContext {
    StreakContext {
        profile_id: "p1".to_string(),
        last_smoked_at: Some(0),
        now: days * DAY,
    }
}

fn eco_ctx() -> EcoActionContext {
    EcoActionContext {
        profile_id: "p1".to_string(),
        verified_eco_events_today: 0,
        verified_eco_events_this_year: 0,
        total_kg_plastic_recycled_today: 0,
        total_kg_cigarette_butts_collected_today: 0,
        cleanup_events_today: 0,
    }
}

fn donation_ctx(units: i64) -> DonationContext {
    DonationContext {
        profile_id: "p1".to_string(),
        verified_donation_units_today: units,
    }
}

fn ytd(minted_this_year: i64) -> AccumulatedTokensYearToDate {
    AccumulatedTokensYearToDate {
        profile_id: "p1".to_string(),
        year: 2026,
        tokens_minted_this_year: minted_this_year,
        tokens_minted_today: 0,
    }
}

#[test]
fn forty_day_streak_earns_the_thirty_day_bonus() {
    // Base rate 10.00 per day, thirty-day multiplier 1.5x, forty days:
    // 10 * 40 * 1.5 = 600.00 tokens.
    let mut policy = zero_bonus_policy();
    policy.streak_30_multiplier = 150;
    let (tokens, days) = TokenRewardEngine::compute_streak_tokens(&policy, &streak_ctx(40));
    assert_eq!(days, 40);
    assert_eq!(tokens, 60000);
}

#[test]
fn tier_boundaries_select_exactly_one_multiplier() {
    let mut policy = zero_bonus_policy();
    policy.base_smoke_free_per_day = 100;
    policy.streak_30_multiplier = 150;
    policy.streak_90_multiplier = 200;
    policy.streak_365_multiplier = 300;
    let expectations: [(i64, u64); 6] = [
        (29, 2900),    // 1.00 * 29 * 1.0: no bonus below thirty days
        (30, 4500),    // 1.00 * 30 * 1.5
        (89, 13350),   // 1.00 * 89 * 1.5
        (90, 18000),   // 1.00 * 90 * 2.0
        (364, 72800),  // 1.00 * 364 * 2.0
        (365, 109500), // 1.00 * 365 * 3.0
    ];
    for (days, expected) in expectations {
        let (tokens, got_days) = TokenRewardEngine::compute_streak_tokens(&policy, &streak_ctx(days));
        assert_eq!(got_days as i64, days);
        assert_eq!(tokens, expected, "at {} days", days);
    }
}

#[test]
fn unknown_last_smoked_gives_zero_streak() {
    let policy = zero_bonus_policy();
    let ctx = StreakContext {
        profile_id: "p1".to_string(),
        last_smoked_at: None,
        now: 1000 * DAY,
    };
    assert_eq!(TokenRewardEngine::compute_streak_tokens(&policy, &ctx), (0, 0));
}

#[test]
fn clock_skew_never_gives_a_negative_streak() {
    let policy = zero_bonus_policy();
    let ctx = StreakContext {
        profile_id: "p1".to_string(),
        last_smoked_at: Some(50 * DAY),
        now: 10 * DAY,
    };
    assert_eq!(TokenRewardEngine::compute_streak_tokens(&policy, &ctx), (0, 0));
}

#[test]
fn mass_without_a_verified_event_earns_nothing() {
    // Fifty kilograms of recycled plastic, but no verified event: the
    // all-or-nothing gate yields zero.
    let policy = zero_bonus_policy();
    let mut eco = eco_ctx();
    eco.total_kg_plastic_recycled_today = 5000;
    assert_eq!(TokenRewardEngine::compute_eco_tokens(&policy, 0, &eco), 0);
}

#[test]
fn eco_formula_weights_are_exact() {
    // 2 events * 2.50 + 1.5 kg plastic * 5 + 0.4 kg butts * 25
    // + 1 cleanup * 100 = 5.00 + 7.50 + 10.00 + 100.00 = 122.50.
    let policy = zero_bonus_policy();
    let mut eco = eco_ctx();
    eco.verified_eco_events_today = 2;
    eco.total_kg_plastic_recycled_today = 150;
    eco.total_kg_cigarette_butts_collected_today = 40;
    eco.cleanup_events_today = 1;
    assert_eq!(TokenRewardEngine::compute_eco_tokens(&policy, 0, &eco), 12250);
}

#[test]
fn post_quit_multiplier_boosts_the_whole_eco_total() {
    let mut policy = zero_bonus_policy();
    policy.post_quit_eligible_after_days = 14;
    policy.post_quit_eco_multiplier = 200;
    let mut eco = eco_ctx();
    eco.verified_eco_events_today = 2;
    eco.total_kg_plastic_recycled_today = 150;
    eco.total_kg_cigarette_butts_collected_today = 40;
    eco.cleanup_events_today = 1;
    // One day short of eligibility: no boost.
    assert_eq!(TokenRewardEngine::compute_eco_tokens(&policy, 13, &eco), 12250);
    // At the threshold: the whole sum doubles.
    assert_eq!(TokenRewardEngine::compute_eco_tokens(&policy, 14, &eco), 24500);
}

#[test]
fn negative_masses_are_floored_to_zero() {
    let policy = zero_bonus_policy();
    let mut eco = eco_ctx();
    eco.verified_eco_events_today = 1;
    eco.total_kg_plastic_recycled_today = -5000;
    eco.total_kg_cigarette_butts_collected_today = -1;
    assert_eq!(TokenRewardEngine::compute_eco_tokens(&policy, 0, &eco), 250);
}

#[test]
fn donation_tokens_scale_with_verified_units() {
    let policy = zero_bonus_policy();
    // 2.5 units at 3.00 per unit: 7.50 tokens.
    assert_eq!(TokenRewardEngine::compute_donation_tokens(&policy, &donation_ctx(250)), 750);
    assert_eq!(TokenRewardEngine::compute_donation_tokens(&policy, &donation_ctx(0)), 0);
    assert_eq!(TokenRewardEngine::compute_donation_tokens(&policy, &donation_ctx(-100)), 0);
}

#[test]
fn raw_total_above_both_limits_caps_to_annual_headroom() {
    // Daily cap 100.00, raw total 150.00, annual cap 10000.00 with
    // 9950.00 already minted: the daily cap trims to 100.00, the annual
    // headroom of 50.00 trims further, and both flags are set. The final
    // figure is the headroom, not the daily cap value.
    let mut policy = zero_bonus_policy();
    policy.max_daily_tokens_per_user = 10000;
    policy.max_annual_tokens_per_user = 1000000;
    let r = TokenRewardEngine::apply_caps(&policy, &ytd(995000), 15000, 0, 0);
    assert!(r.capped_daily);
    assert!(r.capped_annual);
    assert_eq!(r.total_tokens, 5000);
    assert_eq!(r.tokens_for_streak, 15000);
    assert_eq!(r.profile_id, "p1");
    assert_eq!(r.date, "2026");
}

#[test]
fn daily_cap_alone_trims_to_the_daily_limit() {
    let mut policy = zero_bonus_policy();
    policy.max_daily_tokens_per_user = 10000;
    let r = TokenRewardEngine::apply_caps(&policy, &ytd(0), 9000, 2000, 0);
    assert!(r.capped_daily);
    assert!(!r.capped_annual);
    assert_eq!(r.total_tokens, 10000);
}

#[test]
fn annual_cap_consumes_the_post_daily_total() {
    // The raw total stays under the daily cap, so only the annual flag is
    // set and the headroom is what remains.
    let mut policy = zero_bonus_policy();
    policy.max_daily_tokens_per_user = 50000;
    policy.max_annual_tokens_per_user = 1000000;
    let r = TokenRewardEngine::apply_caps(&policy, &ytd(999000), 4000, 0, 0);
    assert!(!r.capped_daily);
    assert!(r.capped_annual);
    assert_eq!(r.total_tokens, 1000);
}

#[test]
fn exhausted_annual_budget_mints_nothing() {
    let mut policy = zero_bonus_policy();
    policy.max_annual_tokens_per_user = 1000000;
    let r = TokenRewardEngine::apply_caps(&policy, &ytd(1000000), 500, 0, 0);
    assert!(r.capped_annual);
    assert_eq!(r.total_tokens, 0);
}

#[test]
fn uncapped_totals_pass_through_with_both_flags_clear() {
    let policy = zero_bonus_policy();
    let r = TokenRewardEngine::apply_caps(&policy, &ytd(0), 100, 200, 300);
    assert!(!r.capped_daily);
    assert!(!r.capped_annual);
    assert_eq!(r.total_tokens, 600);
}

#[test]
fn identical_inputs_give_identical_results() {
    let mut policy = zero_bonus_policy();
    policy.streak_30_multiplier = 150;
    policy.post_quit_eligible_after_days = 30;
    policy.post_quit_eco_multiplier = 120;
    let streak = streak_ctx(40);
    let mut eco = eco_ctx();
    eco.verified_eco_events_today = 3;
    eco.total_kg_plastic_recycled_today = 700;
    let donation = donation_ctx(1000);
    let acc = ytd(12345);
    let r1 = TokenRewardEngine::compute_daily_tokens(&policy, &streak, &eco, &donation, &acc);
    let r2 = TokenRewardEngine::compute_daily_tokens(&policy, &streak, &eco, &donation, &acc);
    assert_eq!(r1.profile_id, r2.profile_id);
    assert_eq!(r1.date, r2.date);
    assert_eq!(r1.tokens_for_streak, r2.tokens_for_streak);
    assert_eq!(r1.tokens_for_eco_actions, r2.tokens_for_eco_actions);
    assert_eq!(r1.tokens_for_donations, r2.tokens_for_donations);
    assert_eq!(r1.total_tokens, r2.total_tokens);
    assert_eq!(r1.capped_daily, r2.capped_daily);
    assert_eq!(r1.capped_annual, r2.capped_annual);
}

#[test]
fn full_pipeline_matches_the_staged_computation() {
    let mut policy = zero_bonus_policy();
    policy.streak_30_multiplier = 150;
    policy.post_quit_eligible_after_days = 30;
    policy.post_quit_eco_multiplier = 120;
    let streak = streak_ctx(40);
    let mut eco = eco_ctx();
    eco.verified_eco_events_today = 3;
    eco.total_kg_plastic_recycled_today = 700;
    let donation = donation_ctx(1000);
    let acc = ytd(12345);
    let full = TokenRewardEngine::compute_daily_tokens(&policy, &streak, &eco, &donation, &acc);
    let (s, days) = TokenRewardEngine::compute_streak_tokens(&policy, &streak);
    let e = TokenRewardEngine::compute_eco_tokens(&policy, days, &eco);
    let d = TokenRewardEngine::compute_donation_tokens(&policy, &donation);
    let staged = TokenRewardEngine::apply_caps(&policy, &acc, s, e, d);
    assert_eq!(full.tokens_for_streak, staged.tokens_for_streak);
    assert_eq!(full.tokens_for_eco_actions, staged.tokens_for_eco_actions);
    assert_eq!(full.tokens_for_donations, staged.tokens_for_donations);
    assert_eq!(full.total_tokens, staged.total_tokens);
    assert_eq!(full.capped_daily, staged.capped_daily);
    assert_eq!(full.capped_annual, staged.capped_annual);
}

#[test]
fn negative_minted_totals_widen_the_headroom() {
    // A corrective ledger entry can leave the minted figure negative; the
    // headroom then exceeds the annual cap, exactly as the subtraction
    // says, and the daily cap still binds first.
    let mut policy = zero_bonus_policy();
    policy.max_daily_tokens_per_user = 100000;
    policy.max_annual_tokens_per_user = 1000000;
    let r = TokenRewardEngine::apply_caps(&policy, &ytd(-500000), 200000, 0, 0);
    assert!(r.capped_daily);
    assert!(!r.capped_annual);
    assert_eq!(r.total_tokens, 100000);
}
