use terrafusion_core::agents::compliance::{
    ComplianceAgent, ComplianceStatus, ComplianceViolation, ViolationSeverity,
};
use terrafusion_core::agents::data_processing::{
    ComparableSalesProcessor, MLSDataProcessor, MarketDataProcessor, PropertyDataProcessor,
};
use terrafusion_core::agents::env_adapter::{FNCHandler, MISMOHandler, TOTALHandler};
use terrafusion_core::agents::sketch::{SketchAgent, SketchProcessingEngine};
use terrafusion_core::agents::uad_adapter::{UADAdapterAgent, UAD_SCHEMA_VERSION};
use terrafusion_core::fieldmap::FieldMap;
use terrafusion_core::importer::{ImportEngine, SqliteImporter};
use terrafusion_core::template::{Field, Fields, Template, TemplateSettings};

fn text(s: &str) -> String {
    s.to_string()
}

fn violation(severity: ViolationSeverity, suggestion: &str) -> ComplianceViolation {
    ComplianceViolation {
        rule: text("rule"),
        severity,
        description: text("description"),
        field: None,
        suggestion: text(suggestion),
    }
}

fn field(index: usize, key: &str) -> Field {
    Field { index, friendly_name: text(key), data_type: text("string"), key: text(key) }
}

fn template(primary: Vec<Field>, secondary: Vec<Field>, split_option: &str) -> Template {
    Template {
        primary_fields: Fields { fields: primary },
        secondary_fields: Fields { fields: secondary },
        direction: text("forward"),
        mapping_option: text("by-place"),
        split_option: text(split_option),
        settings: TemplateSettings {
            source_file_path: text("in.csv"),
            source_delimiter: text(","),
            source_has_header: text("true"),
        },
        primary_converter: text("csv"),
        secondary_converter: text("xml"),
        customer_number: text("1"),
        template_name: text("t"),
        description: text("d"),
    }
}

#[test]
fn processors_are_known_by_their_kind() {
    assert_eq!(PropertyDataProcessor::new().processor_type(), "property_data");
    assert_eq!(ComparableSalesProcessor::new().processor_type(), "comparable_sales");
    assert_eq!(MarketDataProcessor::new().processor_type(), "market_data");
    assert_eq!(MLSDataProcessor::new().processor_type(), "mls_data");
}

#[test]
fn handlers_are_known_by_their_format() {
    assert_eq!(MISMOHandler::new().format_name(), "MISMO");
    assert_eq!(FNCHandler::new().format_name(), "FNC");
    assert_eq!(TOTALHandler::new().format_name(), "TOTAL");
}

#[test]
fn new_compliance_agent_is_empty() {
    let agent = ComplianceAgent::new();
    assert!(agent.ruleset.uspap_rules.is_empty());
    assert!(agent.ruleset.uad_requirements.is_empty());
    assert!(agent.ruleset.state_regulations.is_empty());
    assert!(agent.violations_cache.is_empty());
}

#[test]
fn status_goes_by_the_worst_violation() {
    let agent = ComplianceAgent::new();
    assert_eq!(agent.overall_status(&vec![]), ComplianceStatus::Compliant);
    assert_eq!(
        agent.overall_status(&vec![violation(ViolationSeverity::Info, "a")]),
        ComplianceStatus::Compliant
    );
    assert_eq!(
        agent.overall_status(&vec![
            violation(ViolationSeverity::Info, "a"),
            violation(ViolationSeverity::Warning, "b"),
        ]),
        ComplianceStatus::ConditionallyCompliant
    );
    assert_eq!(
        agent.overall_status(&vec![
            violation(ViolationSeverity::Warning, "a"),
            violation(ViolationSeverity::Critical, "b"),
            violation(ViolationSeverity::Warning, "c"),
        ]),
        ComplianceStatus::NonCompliant
    );
}

#[test]
fn violations_are_counted_by_severity() {
    let agent = ComplianceAgent::new();
    let list = vec![
        violation(ViolationSeverity::Warning, "a"),
        violation(ViolationSeverity::Critical, "b"),
        violation(ViolationSeverity::Warning, "c"),
    ];
    assert_eq!(agent.count_with_severity(&list, ViolationSeverity::Warning), 2);
    assert_eq!(agent.count_with_severity(&list, ViolationSeverity::Critical), 1);
    assert_eq!(agent.count_with_severity(&list, ViolationSeverity::Info), 0);
}

#[test]
fn recommendations_are_the_suggestions_in_order() {
    let agent = ComplianceAgent::new();
    let list = vec![
        violation(ViolationSeverity::Warning, "add comparables"),
        violation(ViolationSeverity::Critical, "add the address"),
    ];
    assert_eq!(
        agent.generate_recommendations(&list),
        vec![text("add comparables"), text("add the address")]
    );
    assert!(agent.generate_recommendations(&vec![]).is_empty());
}

#[test]
fn field_map_pairs_fields_by_place() {
    let t = template(
        vec![field(3, "a"), field(0, "b"), field(7, "c")],
        vec![field(0, "X"), field(1, "Y")],
        ";",
    );
    let map = FieldMap::from_template(&t);
    assert_eq!(map.src_index_to_dest.len(), 2);
    assert_eq!(map.src_index_to_dest.get(&3), Some(&text("X")));
    assert_eq!(map.src_index_to_dest.get(&0), Some(&text("Y")));
    assert_eq!(map.src_index_to_dest.get(&7), None);
    assert_eq!(map.split_delim, Some(text(";")));
}

#[test]
fn field_map_lets_the_later_field_win() {
    let t = template(vec![field(1, "a"), field(1, "b")], vec![field(0, "X"), field(1, "Y")], "");
    let map = FieldMap::from_template(&t);
    assert_eq!(map.src_index_to_dest.len(), 1);
    assert_eq!(map.src_index_to_dest.get(&1), Some(&text("Y")));
    assert_eq!(map.split_delim, None);
}

#[test]
fn blank_split_option_means_no_delimiter() {
    let blank = template(vec![], vec![], " \t\n ");
    assert_eq!(FieldMap::from_template(&blank).split_delim, None);
    let padded = template(vec![], vec![], " | ");
    assert_eq!(FieldMap::from_template(&padded).split_delim, Some(text(" | ")));
    assert!(FieldMap::from_template(&padded).src_index_to_dest.is_empty());
}

#[test]
fn uad_adapter_starts_with_the_standard_mappings() {
    let agent = UADAdapterAgent::new();
    assert_eq!(agent.schema_version, "3.2");
    assert_eq!(UAD_SCHEMA_VERSION, "3.2");
    let expected = [
        ("SubjectPropertyAddress", "subject_address"),
        ("BorrowerName", "borrower_name"),
        ("PropertyRightsAppraised", "property_rights"),
        ("LegalDescription", "legal_description"),
        ("AssessorParcelNumber", "apn"),
    ];
    for (element, field) in expected {
        assert_eq!(agent.field_mappings.get(&text(element)), Some(text(field)));
    }
    assert_eq!(agent.field_mappings.get(&text("Unmapped")), None);
}

#[test]
fn standard_mappings_replace_what_was_there() {
    let mut agent = UADAdapterAgent::new();
    agent.field_mappings.insert(text("BorrowerName"), text("someone"));
    agent.field_mappings.insert(text("Extra"), text("kept"));
    assert_eq!(agent.field_mappings.get(&text("BorrowerName")), Some(text("someone")));
    agent.initialize_field_mappings();
    assert_eq!(agent.field_mappings.get(&text("BorrowerName")), Some(text("borrower_name")));
    assert_eq!(agent.field_mappings.get(&text("Extra")), Some(text("kept")));
}

#[test]
fn sketch_agent_starts_without_models() {
    assert!(SketchProcessingEngine::new().cv_models.insertions().is_empty());
    let agent = SketchAgent::new();
    assert_eq!(agent.processing_engine.cv_models.get(&text("any")), None);
}

#[test]
fn delimiter_is_the_option_unless_nothing_is_left_of_it() {
    assert_eq!(FieldMap::delimiter_from(&text("  "), ""), None);
    assert_eq!(FieldMap::delimiter_from(&text(" ; "), ";"), Some(text(" ; ")));
}

#[test]
fn agents_are_known_by_their_ids() {
    assert_eq!(SketchAgent::new().id(), "sketch-agent");
    assert_eq!(ComplianceAgent::new().id(), "compliance-agent");
    assert_eq!(UADAdapterAgent::new().id(), "uad-adapter-agent");
}

#[test]
fn agents_say_what_they_can_handle() {
    assert_eq!(
        SketchAgent::new().capabilities(),
        vec![
            text("sketch-analysis"),
            text("floor-plan-extraction"),
            text("3d-modeling"),
            text("gla-calculation"),
            text("room-schedule-generation"),
        ]
    );
    assert_eq!(
        ComplianceAgent::new().capabilities(),
        vec![
            text("uspap-compliance"),
            text("uad-compliance"),
            text("form-validation"),
            text("regulatory-review"),
        ]
    );
    assert_eq!(
        UADAdapterAgent::new().capabilities(),
        vec![
            text("uad-xml-parsing"),
            text("uad-xml-generation"),
            text("uad-validation"),
            text("field-mapping"),
        ]
    );
}

#[test]
fn the_one_supported_format_is_the_sqlite_database() {
    assert_eq!(SqliteImporter::get_format_name(), "SQLite Database");
    assert_eq!(SqliteImporter::get_supported_extensions(), vec!["sqlite", "db", "sqlite3"]);
    assert_eq!(
        ImportEngine::list_supported_formats(),
        vec![("SQLite Database", vec!["sqlite", "db", "sqlite3"])]
    );
}
