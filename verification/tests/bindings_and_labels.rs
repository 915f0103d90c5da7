use cigness::dashboard::{default_cigness_dashboard_binding, HttpMethod};
use cigness::digits::decimal_string_i32;
use cigness::system_profile::CignessBrainProfile;

#[test]
fn default_dashboard_binding_pins_endpoints_and_fields() {
    let b = default_cigness_dashboard_binding();
    assert_eq!(b.id, "CIGNESS_PUBLIC_DASHBOARD_BINDINGS");
    assert_eq!(b.service_base_url, "/api/public");
    assert_eq!(b.sections.overview.endpoint, "/metrics/overview");
    assert!(matches!(b.sections.overview.method, HttpMethod::GET));
    assert_eq!(b.sections.overview.query_defaults.city, "Phoenix");
    assert_eq!(b.sections.overview.query_defaults.state, "AZ");
    assert_eq!(
        b.sections.overview.fields.smoke_free_sessions,
        "$.total_smoke_free_sessions"
    );
    assert_eq!(
        b.sections.overview.fields.trend_endpoint.as_deref(),
        Some("/metrics/overview/timeseries")
    );
    assert_eq!(
        b.sections.overview.fields.trend_metric_param.as_deref(),
        Some("smoke_free_sessions")
    );
    assert_eq!(b.sections.impact_map.endpoint, "/impact/map");
    assert_eq!(b.sections.impact_map.tile_array_path, "$.tiles");
    assert_eq!(b.sections.impact_map.tile_fields.tile_id, "$.tile_id");
    assert_eq!(b.sections.partners.list_endpoint, "/partners");
    assert_eq!(
        b.sections.partners.detail_endpoint_template,
        "/partners/{partner_id}"
    );
    assert_eq!(b.sections.partners.filter_mapping.status_param, "status");
    assert_eq!(b.sections.partners.filter_mapping.ui_filters.len(), 4);
    let ids: Vec<&str> = b
        .sections
        .partners
        .filter_mapping
        .ui_filters
        .iter()
        .map(|f| f.id.as_str())
        .collect();
    assert_eq!(ids, ["youth", "eco", "health", "schools"]);
    assert_eq!(
        b.sections.partners.filter_mapping.ui_filters[1].expression,
        "$.eco_alignment_score >= 0.8"
    );
    assert_eq!(
        b.sections.partners.detail_fields.contact_public_email,
        "$.collaborator_profile.contact_public_email"
    );
    assert_eq!(
        b.sections.collaborator_room.source.strategy,
        "list_then_detail"
    );
    assert_eq!(
        b.sections.youth_prevention.endpoint,
        "/metrics/youth_prevention"
    );
    assert_eq!(b.sections.youth_prevention.county_param, "county");
    assert_eq!(
        b.sections.youth_prevention.fields.yac_sessions_supported,
        "$.yac_sessions_supported"
    );
    assert_eq!(b.sections.recycling.endpoint, "/metrics/overview");
    assert_eq!(
        b.sections.recycling.fields.devices_recycled,
        "$.devices_recycled"
    );
}

#[test]
fn brain_profile_default_switches_every_guard_on() {
    let p = CignessBrainProfile::default();
    assert_eq!(p.system_id, "CIGNESS-SYSTEM");
    assert!(p.require_blockchain_audit);
    assert!(p.require_datalake_sanitization);
    assert!(p.require_dreamcatcher_no_harm);
}

#[test]
fn decimal_labels_render_exactly() {
    assert_eq!(decimal_string_i32(0), "0");
    assert_eq!(decimal_string_i32(7), "7");
    assert_eq!(decimal_string_i32(2026), "2026");
    assert_eq!(decimal_string_i32(-44), "-44");
    assert_eq!(decimal_string_i32(i32::MAX), "2147483647");
    assert_eq!(decimal_string_i32(i32::MIN), "-2147483648");
}
