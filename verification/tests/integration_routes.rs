use euterpe_server::db::integrations::IntegrationRow;
use euterpe_server::integrations::catalog::IntegrationType;
use euterpe_server::routes::integrations::{
    catalog_type_filter, integrations_catalog, lookup_page_number, usable_integration,
    IntegrationsListQuery,
};

fn row(enabled: i64) -> IntegrationRow {
    IntegrationRow {
        id: 5,
        type_: "tag_source".into(),
        provider: "musicbrainz".into(),
        display_name: "MusicBrainz".into(),
        enabled,
        config_json: "{}".into(),
        config_secrets_enc: None,
        sort_order: 0,
        created_at: "t".into(),
        updated_at: "t".into(),
    }
}

#[test]
fn catalog_filter_accepts_known_type() {
    assert!(matches!(catalog_type_filter(None), Ok(None)));
    assert!(matches!(catalog_type_filter(Some("tag_source")), Ok(Some(IntegrationType::TagSource))));
    assert_eq!(catalog_type_filter(Some("other")).unwrap_err().message(), "invalid type");
}

#[test]
fn catalog_lists_all_providers() {
    let q = IntegrationsListQuery { integration_type: None };
    assert_eq!(integrations_catalog(&q).unwrap().items.len(), 4);
    let q = IntegrationsListQuery { integration_type: Some("bogus".into()) };
    assert!(integrations_catalog(&q).is_err());
}

#[test]
fn integration_must_exist_and_be_enabled() {
    assert_eq!(usable_integration(None).unwrap_err().message(), "integration not found");
    assert_eq!(usable_integration(Some(row(0))).unwrap_err().message(), "integration is disabled");
    assert_eq!(usable_integration(Some(row(1))).unwrap().id, 5);
}

#[test]
fn lookup_page_is_at_least_one() {
    assert_eq!(lookup_page_number(0), 1);
    assert_eq!(lookup_page_number(1), 1);
    assert_eq!(lookup_page_number(4), 4);
}
