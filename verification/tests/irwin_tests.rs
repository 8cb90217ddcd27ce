use suppression_policy_engine::irwin::{
    fire_ids_where_clause, incident_query_params, irwin_ids_where_clause, query_string,
    sync_since_where_clause, token_request_params, IncidentQueryBuilder, IrwinConfig,
};

#[test]
fn test_incident_query_builder() {
    let query = IncidentQueryBuilder::new()
        .where_clause("IsValid=1 AND IncidentTypeKind='FI'")
        .out_fields("IrwinID,IncidentName,UniqueFireIdentifier")
        .return_geometry("true")
        .include_resources(true)
        .include_relationships(true)
        .build();

    assert_eq!(query.where_clause, Some("IsValid=1 AND IncidentTypeKind='FI'".to_string()));
    assert_eq!(query.out_fields, Some("IrwinID,IncidentName,UniqueFireIdentifier".to_string()));
    assert_eq!(query.return_geometry, Some("true".to_string()));
    assert!(query.include_resources);
    assert!(query.include_relationships);
}

#[test]
fn builder_defaults_are_empty() {
    let query = IncidentQueryBuilder::default().build();
    assert_eq!(query.where_clause, None);
    assert_eq!(query.out_fields, None);
    assert_eq!(query.return_geometry, None);
    assert!(!query.include_ads_status);
    assert!(!query.include_resources);
    assert!(!query.include_relationships);
    assert!(!query.include_last_sync_date_time);
    assert!(!query.include_ffr);
}

#[test]
fn query_params_follow_wire_order() {
    let query = IncidentQueryBuilder::new()
        .where_clause("IsValid=1")
        .include_ads_status(true)
        .include_ffr(true)
        .build();
    let params = incident_query_params(&query);
    assert_eq!(
        params,
        vec![
            ("f".to_string(), "json".to_string()),
            ("where".to_string(), "IsValid=1".to_string()),
            ("includeADSStatus".to_string(), "true".to_string()),
            ("includeFFR".to_string(), "true".to_string()),
        ]
    );
}

#[test]
fn query_string_joins_pairs() {
    let params = vec![
        ("f".to_string(), "json".to_string()),
        ("where".to_string(), "IsValid=1".to_string()),
    ];
    assert_eq!(query_string(&params), "f=json&where=IsValid=1");
    assert_eq!(query_string(&Vec::new()), "");
}

#[test]
fn where_clauses_select_by_identifier_lists() {
    let ids = vec!["a1".to_string(), "b2".to_string()];
    assert_eq!(irwin_ids_where_clause(&ids), "IrwinID IN (a1,b2)");
    assert_eq!(fire_ids_where_clause(&ids), "UniqueFireIdentifier IN (a1,b2)");
    assert_eq!(
        irwin_ids_where_clause(&vec!["only".to_string()]),
        "IrwinID IN (only)"
    );
    assert_eq!(sync_since_where_clause(1712345678901), "ModifiedOnDateTime >= 1712345678901");
}

#[test]
fn token_request_carries_the_credentials() {
    let config = IrwinConfig::new(
        "https://irwin.example/arcgis/rest/services".to_string(),
        "user".to_string(),
        "pass".to_string(),
        "ref".to_string(),
    );
    assert_eq!(config.timeout_ms, 30_000);
    let params = token_request_params(&config);
    assert_eq!(
        params,
        vec![
            ("username".to_string(), "user".to_string()),
            ("password".to_string(), "pass".to_string()),
            ("client".to_string(), "referer".to_string()),
            ("referer".to_string(), "ref".to_string()),
            ("expiration".to_string(), "60".to_string()),
            ("f".to_string(), "json".to_string()),
        ]
    );
}

#[test]
fn config_with_custom_timeout() {
    let config = IrwinConfig::with_timeout(
        "https://irwin.example".to_string(),
        "u".to_string(),
        "p".to_string(),
        "r".to_string(),
        5_000,
    );
    assert_eq!(config.timeout_ms, 5_000);
    assert_eq!(config.base_url, "https://irwin.example");
}
