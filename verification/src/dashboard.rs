//! Public dashboard binding profile.
//!
//! A declarative struct graph that tells a web or mobile client how to
//! bind each section of the public dashboard to the public metrics API:
//! which endpoint serves a section, which query parameters it takes, and
//! which field-path expression feeds each widget. The default profile is
//! a constant builder whose contract pins every endpoint, parameter and
//! field path it emits.

use vstd::prelude::*;

verus! {

/// The HTTP method a binding uses; the public dashboard API is read-only.
#[derive(Debug, Clone)]
pub enum HttpMethod {
    GET,
}

/// Root of the binding profile: one service base URL and one binding per
/// dashboard section.
#[derive(Debug, Clone)]
pub struct CignessDashboardBinding {
    pub id: String,
    pub service_base_url: String,
    pub sections: SectionsBinding,
}

#[derive(Debug, Clone)]
pub struct SectionsBinding {
    pub overview: OverviewBinding,
    pub impact_map: ImpactMapBinding,
    pub partners: PartnersBinding,
    pub collaborator_room: CollaboratorRoomBinding,
    pub youth_prevention: YouthPreventionBinding,
    pub recycling: RecyclingBinding,
}

#[derive(Debug, Clone)]
pub struct OverviewBinding {
    pub endpoint: String,
    pub method: HttpMethod,
    pub query_defaults: QueryDefaults,
    pub fields: OverviewFields,
}

#[derive(Debug, Clone)]
pub struct QueryDefaults {
    pub city: String,
    pub state: String,
}

#[derive(Debug, Clone)]
pub struct OverviewFields {
    pub smoke_free_sessions: String,
    pub eco_actions_logged: String,
    pub kg_plastics_recycled: String,
    pub kg_cigarette_butts_collected: String,
    pub devices_recycled: String,
    pub az_counties_covered: String,
    pub active_tobacco_free_partners: String,
    /// Optional time-series endpoint for the trend graph.
    pub trend_endpoint: Option<String>,
    pub trend_metric_param: Option<String>,
}

#[derive(Debug, Clone)]
pub struct ImpactMapBinding {
    pub endpoint: String,
    pub method: HttpMethod,
    pub tile_array_path: String,
    pub tile_fields: ImpactTileFields,
}

#[derive(Debug, Clone)]
pub struct ImpactTileFields {
    pub tile_id: String,
    pub county: String,
    pub smoke_free_sessions: String,
    pub eco_actions: String,
    pub kg_plastics_recycled: String,
    pub kg_butts_collected: String,
    pub partner_presence: String,
    pub youth_coalition_presence: String,
}

#[derive(Debug, Clone)]
pub struct PartnersBinding {
    pub list_endpoint: String,
    pub detail_endpoint_template: String,
    pub method: HttpMethod,
    pub filter_mapping: PartnerFilterMapping,
    pub list_fields: PartnerListFields,
    pub detail_fields: PartnerDetailFields,
}

#[derive(Debug, Clone)]
pub struct PartnerFilterMapping {
    /// Query parameter name for collaboration status.
    pub status_param: String,
    /// Query parameter name for the county filter.
    pub county_param: String,
    /// Query parameter name for the organization type.
    pub org_type_param: String,
    /// Client-side filters, each mapping a UI control to an expression.
    pub ui_filters: Vec<UiFilter>,
}

#[derive(Debug, Clone)]
pub struct UiFilter {
    pub id: String,
    pub label: String,
    /// Field-path expression evaluated on the partner object.
    pub expression: String,
}

#[derive(Debug, Clone)]
pub struct PartnerListFields {
    pub partner_id: String,
    pub name: String,
    pub organization_type: String,
    pub city: String,
    pub county: String,
    pub programs_offered: String,
    pub youth_prevention_focus: String,
    pub eco_alignment_score: String,
    pub collaboration_status: String,
    pub primary_contact_channel: String,
}

#[derive(Debug, Clone)]
pub struct PartnerDetailFields {
    pub partner_root: String,
    pub collaborator_root: String,
    pub contact_public_email: String,
    pub contact_public_url: String,
    pub public_statement: String,
    pub areas_of_contribution: String,
    pub events_hosted: String,
    pub eco_events_hosted: String,
    pub youth_engagement_events: String,
    pub county_scope: String,
}

#[derive(Debug, Clone)]
pub struct CollaboratorRoomBinding {
    pub source: CollaboratorSource,
}

#[derive(Debug, Clone)]
pub struct CollaboratorSource {
    /// Fetch strategy: list first, then one detail request per entry.
    pub strategy: String,
    pub list_endpoint: String,
    pub detail_endpoint_template: String,
    pub method: HttpMethod,
}

#[derive(Debug, Clone)]
pub struct YouthPreventionBinding {
    pub endpoint: String,
    pub method: HttpMethod,
    pub county_param: String,
    pub fields: YouthPreventionFields,
}

#[derive(Debug, Clone)]
pub struct YouthPreventionFields {
    pub youth_sessions: String,
    pub youth_partners_active: String,
    pub school_events: String,
    pub stand_coalitions_supported: String,
    pub yac_sessions_supported: String,
}

#[derive(Debug, Clone)]
pub struct RecyclingBinding {
    pub endpoint: String,
    pub method: HttpMethod,
    pub fields: RecyclingFields,
}

#[derive(Debug, Clone)]
pub struct RecyclingFields {
    pub kg_plastics_recycled: String,
    pub kg_cigarette_butts_collected: String,
    pub devices_recycled: String,
}

/// The default binding profile for the public dashboard, every field of
/// which is pinned by the contract: the overview, impact map, partners,
/// collaborator room, youth prevention and recycling sections all read
/// from the public metrics API with GET requests.
pub fn default_cigness_dashboard_binding() -> (r: CignessDashboardBinding)
    ensures
        r.id@ == "CIGNESS_PUBLIC_DASHBOARD_BINDINGS"@,
        r.service_base_url@ == "/api/public"@,
        r.sections.overview.endpoint@ == "/metrics/overview"@,
        r.sections.overview.method is GET,
        r.sections.overview.query_defaults.city@ == "Phoenix"@,
        r.sections.overview.query_defaults.state@ == "AZ"@,
        r.sections.overview.fields.smoke_free_sessions@ == "$.total_smoke_free_sessions"@,
        r.sections.overview.fields.eco_actions_logged@ == "$.eco_actions_logged"@,
        r.sections.overview.fields.kg_plastics_recycled@ == "$.kg_plastics_recycled"@,
        r.sections.overview.fields.kg_cigarette_butts_collected@
            == "$.kg_cigarette_butts_collected"@,
        r.sections.overview.fields.devices_recycled@ == "$.devices_recycled"@,
        r.sections.overview.fields.az_counties_covered@ == "$.az_counties_covered"@,
        r.sections.overview.fields.active_tobacco_free_partners@
            == "$.active_tobacco_free_partners"@,
        r.sections.overview.fields.trend_endpoint matches Some(t) && t@
            == "/metrics/overview/timeseries"@,
        r.sections.overview.fields.trend_metric_param matches Some(t) && t@
            == "smoke_free_sessions"@,
        r.sections.impact_map.endpoint@ == "/impact/map"@,
        r.sections.impact_map.method is GET,
        r.sections.impact_map.tile_array_path@ == "$.tiles"@,
        r.sections.impact_map.tile_fields.tile_id@ == "$.tile_id"@,
        r.sections.impact_map.tile_fields.county@ == "$.county"@,
        r.sections.impact_map.tile_fields.smoke_free_sessions@ == "$.smoke_free_sessions"@,
        r.sections.impact_map.tile_fields.eco_actions@ == "$.eco_actions"@,
        r.sections.impact_map.tile_fields.kg_plastics_recycled@ == "$.kg_plastics_recycled"@,
        r.sections.impact_map.tile_fields.kg_butts_collected@ == "$.kg_butts_collected"@,
        r.sections.impact_map.tile_fields.partner_presence@ == "$.partner_presence"@,
        r.sections.impact_map.tile_fields.youth_coalition_presence@
            == "$.youth_coalition_presence"@,
        r.sections.partners.list_endpoint@ == "/partners"@,
        r.sections.partners.detail_endpoint_template@ == "/partners/{partner_id}"@,
        r.sections.partners.method is GET,
        r.sections.partners.filter_mapping.status_param@ == "status"@,
        r.sections.partners.filter_mapping.county_param@ == "county"@,
        r.sections.partners.filter_mapping.org_type_param@ == "organization_type"@,
        r.sections.partners.filter_mapping.ui_filters@.len() == 4,
        r.sections.partners.filter_mapping.ui_filters@[0].id@ == "youth"@,
        r.sections.partners.filter_mapping.ui_filters@[0].label@ == "Youth"@,
        r.sections.partners.filter_mapping.ui_filters@[0].expression@
            == "$.youth_prevention_focus == true"@,
        r.sections.partners.filter_mapping.ui_filters@[1].id@ == "eco"@,
        r.sections.partners.filter_mapping.ui_filters@[1].label@ == "Eco"@,
        r.sections.partners.filter_mapping.ui_filters@[1].expression@
            == "$.eco_alignment_score >= 0.8"@,
        r.sections.partners.filter_mapping.ui_filters@[2].id@ == "health"@,
        r.sections.partners.filter_mapping.ui_filters@[2].label@ == "Health"@,
        r.sections.partners.filter_mapping.ui_filters@[2].expression@
            == "$.organization_type in [\"state_agency\",\"county_health_department\",\"university_program\",\"behavioral_health_provider\"]"@,
        r.sections.partners.filter_mapping.ui_filters@[3].id@ == "schools"@,
        r.sections.partners.filter_mapping.ui_filters@[3].label@ == "Schools"@,
        r.sections.partners.filter_mapping.ui_filters@[3].expression@
            == "$.organization_type == \"school_district\""@,
        r.sections.partners.list_fields.partner_id@ == "$.partner_id"@,
        r.sections.partners.list_fields.name@ == "$.name"@,
        r.sections.partners.list_fields.organization_type@ == "$.organization_type"@,
        r.sections.partners.list_fields.city@ == "$.city"@,
        r.sections.partners.list_fields.county@ == "$.county"@,
        r.sections.partners.list_fields.programs_offered@ == "$.programs_offered"@,
        r.sections.partners.list_fields.youth_prevention_focus@ == "$.youth_prevention_focus"@,
        r.sections.partners.list_fields.eco_alignment_score@ == "$.eco_alignment_score"@,
        r.sections.partners.list_fields.collaboration_status@ == "$.collaboration_status"@,
        r.sections.partners.list_fields.primary_contact_channel@ == "$.primary_contact_channel"@,
        r.sections.partners.detail_fields.partner_root@ == "$.partner"@,
        r.sections.partners.detail_fields.collaborator_root@ == "$.collaborator_profile"@,
        r.sections.partners.detail_fields.contact_public_email@
            == "$.collaborator_profile.contact_public_email"@,
        r.sections.partners.detail_fields.contact_public_url@
            == "$.collaborator_profile.contact_public_url"@,
        r.sections.partners.detail_fields.public_statement@
            == "$.collaborator_profile.public_statement"@,
        r.sections.partners.detail_fields.areas_of_contribution@
            == "$.collaborator_profile.areas_of_contribution"@,
        r.sections.partners.detail_fields.events_hosted@
            == "$.collaborator_profile.events_hosted"@,
        r.sections.partners.detail_fields.eco_events_hosted@
            == "$.collaborator_profile.eco_events_hosted"@,
        r.sections.partners.detail_fields.youth_engagement_events@
            == "$.collaborator_profile.youth_engagement_events"@,
        r.sections.partners.detail_fields.county_scope@ == "$.collaborator_profile.county_scope"@,
        r.sections.collaborator_room.source.strategy@ == "list_then_detail"@,
        r.sections.collaborator_room.source.list_endpoint@ == "/partners"@,
        r.sections.collaborator_room.source.detail_endpoint_template@
            == "/partners/{partner_id}"@,
        r.sections.collaborator_room.source.method is GET,
        r.sections.youth_prevention.endpoint@ == "/metrics/youth_prevention"@,
        r.sections.youth_prevention.method is GET,
        r.sections.youth_prevention.county_param@ == "county"@,
        r.sections.youth_prevention.fields.youth_sessions@ == "$.youth_sessions"@,
        r.sections.youth_prevention.fields.youth_partners_active@ == "$.youth_partners_active"@,
        r.sections.youth_prevention.fields.school_events@ == "$.school_events"@,
        r.sections.youth_prevention.fields.stand_coalitions_supported@
            == "$.stand_coalitions_supported"@,
        r.sections.youth_prevention.fields.yac_sessions_supported@ == "$.yac_sessions_supported"@,
        r.sections.recycling.endpoint@ == "/metrics/overview"@,
        r.sections.recycling.method is GET,
        r.sections.recycling.fields.kg_plastics_recycled@ == "$.kg_plastics_recycled"@,
        r.sections.recycling.fields.kg_cigarette_butts_collected@
            == "$.kg_cigarette_butts_collected"@,
        r.sections.recycling.fields.devices_recycled@ == "$.devices_recycled"@,
{
    let mut ui_filters: Vec<UiFilter> = Vec::new();
    ui_filters.push(
        UiFilter {
            id: "youth".to_owned(),
            label: "Youth".to_owned(),
            expression: "$.youth_prevention_focus == true".to_owned(),
        },
    );
    ui_filters.push(
        UiFilter {
            id: "eco".to_owned(),
            label: "Eco".to_owned(),
            expression: "$.eco_alignment_score >= 0.8".to_owned(),
        },
    );
    ui_filters.push(
        UiFilter {
            id: "health".to_owned(),
            label: "Health".to_owned(),
            expression:
                "$.organization_type in [\"state_agency\",\"county_health_department\",\"university_program\",\"behavioral_health_provider\"]".to_owned(),
        },
    );
    ui_filters.push(
        UiFilter {
            id: "schools".to_owned(),
            label: "Schools".to_owned(),
            expression: "$.organization_type == \"school_district\"".to_owned(),
        },
    );
    CignessDashboardBinding {
        id: "CIGNESS_PUBLIC_DASHBOARD_BINDINGS".to_owned(),
        service_base_url: "/api/public".to_owned(),
        sections: SectionsBinding {
            overview: OverviewBinding {
                endpoint: "/metrics/overview".to_owned(),
                method: HttpMethod::GET,
                query_defaults: QueryDefaults {
                    city: "Phoenix".to_owned(),
                    state: "AZ".to_owned(),
                },
                fields: OverviewFields {
                    smoke_free_sessions: "$.total_smoke_free_sessions".to_owned(),
                    eco_actions_logged: "$.eco_actions_logged".to_owned(),
                    kg_plastics_recycled: "$.kg_plastics_recycled".to_owned(),
                    kg_cigarette_butts_collected: "$.kg_cigarette_butts_collected".to_owned(),
                    devices_recycled: "$.devices_recycled".to_owned(),
                    az_counties_covered: "$.az_counties_covered".to_owned(),
                    active_tobacco_free_partners: "$.active_tobacco_free_partners".to_owned(),
                    trend_endpoint: Option::Some("/metrics/overview/timeseries".to_owned()),
                    trend_metric_param: Option::Some("smoke_free_sessions".to_owned()),
                },
            },
            impact_map: ImpactMapBinding {
                endpoint: "/impact/map".to_owned(),
                method: HttpMethod::GET,
                tile_array_path: "$.tiles".to_owned(),
                tile_fields: ImpactTileFields {
                    tile_id: "$.tile_id".to_owned(),
                    county: "$.county".to_owned(),
                    smoke_free_sessions: "$.smoke_free_sessions".to_owned(),
                    eco_actions: "$.eco_actions".to_owned(),
                    kg_plastics_recycled: "$.kg_plastics_recycled".to_owned(),
                    kg_butts_collected: "$.kg_butts_collected".to_owned(),
                    partner_presence: "$.partner_presence".to_owned(),
                    youth_coalition_presence: "$.youth_coalition_presence".to_owned(),
                },
            },
            partners: PartnersBinding {
                list_endpoint: "/partners".to_owned(),
                detail_endpoint_template: "/partners/{partner_id}".to_owned(),
                method: HttpMethod::GET,
                filter_mapping: PartnerFilterMapping {
                    status_param: "status".to_owned(),
                    county_param: "county".to_owned(),
                    org_type_param: "organization_type".to_owned(),
                    ui_filters,
                },
                list_fields: PartnerListFields {
                    partner_id: "$.partner_id".to_owned(),
                    name: "$.name".to_owned(),
                    organization_type: "$.organization_type".to_owned(),
                    city: "$.city".to_owned(),
                    county: "$.county".to_owned(),
                    programs_offered: "$.programs_offered".to_owned(),
                    youth_prevention_focus: "$.youth_prevention_focus".to_owned(),
                    eco_alignment_score: "$.eco_alignment_score".to_owned(),
                    collaboration_status: "$.collaboration_status".to_owned(),
                    primary_contact_channel: "$.primary_contact_channel".to_owned(),
                },
                detail_fields: PartnerDetailFields {
                    partner_root: "$.partner".to_owned(),
                    collaborator_root: "$.collaborator_profile".to_owned(),
                    contact_public_email: "$.collaborator_profile.contact_public_email".to_owned(),
                    contact_public_url: "$.collaborator_profile.contact_public_url".to_owned(),
                    public_statement: "$.collaborator_profile.public_statement".to_owned(),
                    areas_of_contribution:
                        "$.collaborator_profile.areas_of_contribution".to_owned(),
                    events_hosted: "$.collaborator_profile.events_hosted".to_owned(),
                    eco_events_hosted: "$.collaborator_profile.eco_events_hosted".to_owned(),
                    youth_engagement_events:
                        "$.collaborator_profile.youth_engagement_events".to_owned(),
                    county_scope: "$.collaborator_profile.county_scope".to_owned(),
                },
            },
            collaborator_room: CollaboratorRoomBinding {
                source: CollaboratorSource {
                    strategy: "list_then_detail".to_owned(),
                    list_endpoint: "/partners".to_owned(),
                    detail_endpoint_template: "/partners/{partner_id}".to_owned(),
                    method: HttpMethod::GET,
                },
            },
            youth_prevention: YouthPreventionBinding {
                endpoint: "/metrics/youth_prevention".to_owned(),
                method: HttpMethod::GET,
                county_param: "county".to_owned(),
                fields: YouthPreventionFields {
                    youth_sessions: "$.youth_sessions".to_owned(),
                    youth_partners_active: "$.youth_partners_active".to_owned(),
                    school_events: "$.school_events".to_owned(),
                    stand_coalitions_supported: "$.stand_coalitions_supported".to_owned(),
                    yac_sessions_supported: "$.yac_sessions_supported".to_owned(),
                },
            },
            recycling: RecyclingBinding {
                endpoint: "/metrics/overview".to_owned(),
                method: HttpMethod::GET,
                fields: RecyclingFields {
                    kg_plastics_recycled: "$.kg_plastics_recycled".to_owned(),
                    kg_cigarette_butts_collected: "$.kg_cigarette_butts_collected".to_owned(),
                    devices_recycled: "$.devices_recycled".to_owned(),
                },
            },
        },
    }
}

} // verus!
