use sage_data_bridge::connection::ConnectionConfig;
use sage_data_bridge::schema::{
    detect_sage_schema_from_probes, explicit_schema_for_connection, has_custom_mapping,
    is_sage1000_schema, resolve_schema_from_selection, sage1000_route_source, DetectionResult,
    SageEdition, SageSchema,
};

fn names(items: &[&str]) -> Vec<String> {
    items.iter().map(|s| s.to_string()).collect()
}

#[test]
fn sage1000_route_uses_schema_hint_first() {
    let schema = SageSchema::for_edition(&SageEdition::Sage1000);
    assert_eq!(sage1000_route_source(Some(&schema), false), Some("schema_hint"));
}

#[test]
fn sage1000_route_uses_database_probe_without_hint() {
    assert_eq!(sage1000_route_source(None, true), Some("database_probe"));
}

#[test]
fn sage1000_route_uses_database_probe_for_generic_hint() {
    let schema = SageSchema::for_edition(&SageEdition::Generic);
    assert_eq!(sage1000_route_source(Some(&schema), true), Some("database_probe"));
}

#[test]
fn sage1000_route_falls_back_when_no_hint_or_tables() {
    assert_eq!(sage1000_route_source(None, false), None);
}

#[test]
fn detect_sage1000_from_probe_fixture() {
    let result = detect_sage_schema_from_probes(
        vec![],
        vec![],
        names(&["TECRITURE", "TCOMPTEGENERAL", "TTIERS", "TROLETIERS", "TPIECE"]),
        true,
    );
    assert_eq!(result.edition, "sage1000");
    assert_eq!(result.schema.edition, SageEdition::Sage1000);
    assert_eq!(result.confidence, 99);
    assert!(result.evidence.iter().any(|item| item == "TECRITURE.eDate"));
}

#[test]
fn detect_sage100_from_probe_fixture() {
    let result = detect_sage_schema_from_probes(
        names(&["F_ECRITUREC", "F_COMPTET", "F_TIERS"]),
        vec![],
        vec![],
        false,
    );
    assert_eq!(result.edition, "sage100");
    assert_eq!(result.schema.edition, SageEdition::Sage100);
    assert_eq!(result.confidence, 95);
}

#[test]
fn auto_selection_uses_detected_sage1000_schema() {
    let detection = DetectionResult {
        edition: "sage1000".into(),
        confidence: 99,
        evidence: names(&["TECRITURE", "TCOMPTEGENERAL"]),
        schema: SageSchema::for_edition(&SageEdition::Sage1000),
    };
    let resolved = resolve_schema_from_selection("auto", None, Some(detection));
    assert_eq!(resolved.schema.edition, SageEdition::Sage1000);
    assert_eq!(resolved.source, "auto-detect");
    assert_eq!(resolved.confidence, 99);
}

#[test]
fn manual_sage1000_override_wins_over_detection() {
    let detection = DetectionResult {
        edition: "sage100".into(),
        confidence: 95,
        evidence: names(&["F_ECRITUREC"]),
        schema: SageSchema::for_edition(&SageEdition::Sage100),
    };
    let resolved = resolve_schema_from_selection("sage1000", None, Some(detection));
    assert_eq!(resolved.schema.edition, SageEdition::Sage1000);
    assert_eq!(resolved.source, "manual");
    assert!(resolved.evidence.iter().any(|item| item == "manual:sage1000"));
}

#[test]
fn auto_selection_uses_custom_mapping_when_probe_is_generic() {
    let mut custom = SageSchema::for_edition(&SageEdition::Generic);
    custom.table_ecritures = "CUSTOM_ECRITURES".into();
    custom.table_comptes = "CUSTOM_COMPTES".into();
    custom.table_tiers = "CUSTOM_TIERS".into();
    custom.table_journaux = "CUSTOM_JOURNAUX".into();
    custom.confidence = 61;

    let detection = DetectionResult {
        edition: "generic".into(),
        confidence: 0,
        evidence: names(&["sage1000:TECRITURE"]),
        schema: SageSchema::for_edition(&SageEdition::Generic),
    };
    let resolved = resolve_schema_from_selection("auto", Some(custom.duplicate()), Some(detection));
    assert_eq!(resolved.schema.table_ecritures, custom.table_ecritures);
    assert_eq!(resolved.source, "custom-fallback");
    assert!(resolved.evidence.iter().any(|item| item == "fallback:custom"));
}

#[test]
fn auto_selection_refreshes_when_detection_changes_after_database_switch() {
    let sage100 = DetectionResult {
        edition: "sage100".into(),
        confidence: 95,
        evidence: names(&["F_ECRITUREC"]),
        schema: SageSchema::for_edition(&SageEdition::Sage100),
    };
    let sage1000 = DetectionResult {
        edition: "sage1000".into(),
        confidence: 99,
        evidence: names(&["TECRITURE"]),
        schema: SageSchema::for_edition(&SageEdition::Sage1000),
    };
    let initial = resolve_schema_from_selection("auto", None, Some(sage100));
    let after_switch = resolve_schema_from_selection("auto", None, Some(sage1000));
    assert_eq!(initial.schema.edition, SageEdition::Sage100);
    assert_eq!(after_switch.schema.edition, SageEdition::Sage1000);
    assert_eq!(after_switch.source, "auto-detect");
}

#[test]
fn generic_detection_keeps_labelled_evidence() {
    let result = detect_sage_schema_from_probes(
        names(&["F_ECRITUREC"]),
        names(&["GACCOUNT"]),
        names(&["TECRITURE"]),
        true,
    );
    assert_eq!(result.edition, "generic");
    assert_eq!(result.confidence, 0);
    assert_eq!(
        result.evidence,
        names(&[
            "sage100:F_ECRITUREC",
            "sagex3:GACCOUNT",
            "sage1000:TECRITURE",
            "sage1000:TECRITURE.eDate"
        ])
    );
    assert_eq!(result.schema.edition, SageEdition::Generic);
}

#[test]
fn sage1000_without_edate_keeps_lower_confidence() {
    let result = detect_sage_schema_from_probes(
        vec![],
        vec![],
        names(&["tecriture", "TCOMPTEGENERAL", "TTIERS", "TPIECE"]),
        false,
    );
    assert_eq!(result.confidence, 95);
    assert_eq!(result.schema.confidence, 95);
    assert_eq!(result.evidence.len(), 4);
}

#[test]
fn x3_detection_wins_over_sage1000() {
    let result = detect_sage_schema_from_probes(
        vec![],
        names(&["GACCENTRY", "GACCOUNT", "BPARTNER"]),
        names(&["TECRITURE", "TCOMPTEGENERAL", "TTIERS", "TPIECE"]),
        true,
    );
    assert_eq!(result.edition, "sagex3");
    assert_eq!(result.confidence, 92);
}

#[test]
fn custom_without_tables_falls_back_to_generic() {
    let blank = SageSchema::for_edition(&SageEdition::Generic);
    assert!(!has_custom_mapping(&blank));
    let resolved = resolve_schema_from_selection("  CUSTOM ", Some(blank), None);
    assert_eq!(resolved.source, "custom");
    assert_eq!(resolved.schema.edition, SageEdition::Generic);
    assert_eq!(resolved.evidence, names(&["manual:custom"]));
    let fallback = resolve_schema_from_selection("auto", None, None);
    assert_eq!(fallback.source, "generic-fallback");
    assert!(fallback.evidence.is_empty());
}

#[test]
fn standard_mappings_name_their_tables() {
    let s100 = SageSchema::for_edition(&SageEdition::Sage100);
    assert_eq!(s100.table_ecritures, "F_ECRITUREC");
    assert_eq!(s100.confidence, 100);
    let s1000 = SageSchema::for_edition(&SageEdition::Sage1000);
    assert_eq!(s1000.table_comptes, "TCOMPTEGENERAL");
    assert!(is_sage1000_schema(Some(&s1000)));
    assert!(!is_sage1000_schema(Some(&s100)));
    assert_eq!(SageEdition::SageX3.as_str(), "sagex3");
    assert!(SageEdition::Generic.is_generic());
}

fn profile(edition: &str) -> ConnectionConfig {
    ConnectionConfig {
        id: "c1".into(),
        name: "Main".into(),
        host: "srv".into(),
        instance_name: String::new(),
        port: 1433,
        database: "COMPTA".into(),
        username: "sa".into(),
        password: "pw".into(),
        use_windows_auth: false,
        encrypt: false,
        trust_cert: true,
        sage_edition: edition.into(),
        custom_schema: None,
    }
}

#[test]
fn explicit_schema_follows_the_profile() {
    assert_eq!(explicit_schema_for_connection(&profile("sage100")).unwrap().edition, SageEdition::Sage100);
    assert_eq!(explicit_schema_for_connection(&profile("custom")).unwrap().edition, SageEdition::Generic);
    assert!(explicit_schema_for_connection(&profile("auto")).is_none());
}

#[test]
fn a_request_is_read_without_spaces_or_case() {
    let raw = resolve_schema_from_selection(" SAGE1000 ", None, None);
    let plain = resolve_schema_from_selection("sage1000", None, None);
    assert_eq!(raw.schema.edition, SageEdition::Sage1000);
    assert_eq!(raw.source, "manual");
    assert_eq!(raw.evidence, vec!["manual:sage1000".to_string()]);
    assert_eq!((raw.schema.edition, raw.source, raw.evidence, raw.confidence), (plain.schema.edition, plain.source, plain.evidence, plain.confidence));
}
