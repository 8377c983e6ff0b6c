use sbom_convert::convert::{convert_document, convert_package, find_purl, generate_cyclonedx};
use sbom_convert::model::{
    spdx_purpose_to_classification, Classification, ConversionError, ExternalReference,
    PackagePurpose, PackageRecord, SourceDocument,
};

fn package(name: &str) -> PackageRecord {
    PackageRecord {
        name: name.to_string(),
        version: None,
        spdx_identifier: format!("SPDXRef-{}", name),
        primary_purpose: None,
        summary_description: None,
        detailed_description: None,
        external_references: Vec::new(),
    }
}

fn reference(reference_type: &str, reference_locator: &str) -> ExternalReference {
    ExternalReference {
        reference_type: reference_type.to_string(),
        reference_locator: reference_locator.to_string(),
    }
}

fn parse(output: &str) -> serde_json::Value {
    serde_json::from_str(output).expect("output must be valid JSON")
}

#[test]
fn classification_table_is_total() {
    let cases = [
        (PackagePurpose::Application, Classification::Application),
        (PackagePurpose::Framework, Classification::Framework),
        (PackagePurpose::Library, Classification::Library),
        (PackagePurpose::Container, Classification::Container),
        (PackagePurpose::OperatingSystem, Classification::OperatingSystem),
        (PackagePurpose::Device, Classification::Device),
        (PackagePurpose::Firmware, Classification::Firmware),
        (PackagePurpose::Source, Classification::File),
        (PackagePurpose::Archive, Classification::File),
        (PackagePurpose::File, Classification::File),
        (PackagePurpose::Install, Classification::Application),
        (PackagePurpose::Other, Classification::Application),
    ];
    for (purpose, classification) in cases {
        assert_eq!(spdx_purpose_to_classification(&purpose), classification);
    }
}

#[test]
fn absent_purpose_falls_back_to_library() {
    let component = convert_package(&package("a"));
    assert_eq!(component.classification, Classification::Library);
}

#[test]
fn empty_document_is_rejected() {
    let document = SourceDocument { packages: Vec::new() };
    assert!(matches!(
        convert_document(&document),
        Err(ConversionError::EmptyResult)
    ));
    assert!(matches!(
        generate_cyclonedx(&document),
        Err(ConversionError::EmptyResult)
    ));
}

#[test]
fn cardinality_and_order_are_preserved() {
    let document = SourceDocument {
        packages: vec![package("alpha"), package("beta"), package("gamma")],
    };
    let output = generate_cyclonedx(&document).expect("conversion must succeed");
    let json = parse(&output);
    let components = json["components"].as_array().expect("components array");
    assert_eq!(components.len(), 3);
    assert_eq!(components[0]["name"], "alpha");
    assert_eq!(components[1]["name"], "beta");
    assert_eq!(components[2]["name"], "gamma");
}

#[test]
fn version_key_is_absent_when_source_has_none() {
    let document = SourceDocument {
        packages: vec![package("bare")],
    };
    let output = generate_cyclonedx(&document).expect("conversion must succeed");
    let json = parse(&output);
    let component = &json["components"][0];
    assert!(component.as_object().unwrap().get("version").is_none());
}

#[test]
fn version_is_copied_verbatim_when_present() {
    let mut record = package("versioned");
    record.version = Some("8.1.0".to_string());
    let document = SourceDocument {
        packages: vec![record],
    };
    let output = generate_cyclonedx(&document).expect("conversion must succeed");
    let json = parse(&output);
    assert_eq!(json["components"][0]["version"], "8.1.0");
}

#[test]
fn description_prefers_summary() {
    let mut record = package("described");
    record.summary_description = Some("short".to_string());
    record.detailed_description = Some("long and detailed".to_string());
    let component = convert_package(&record);
    assert_eq!(component.description.as_deref(), Some("short"));
}

#[test]
fn description_falls_back_to_detailed() {
    let mut record = package("described");
    record.detailed_description = Some("long and detailed".to_string());
    let component = convert_package(&record);
    assert_eq!(component.description.as_deref(), Some("long and detailed"));
}

#[test]
fn description_is_absent_when_neither_exists() {
    let component = convert_package(&package("plain"));
    assert_eq!(component.description, None);
}

#[test]
fn purl_takes_first_qualifying_reference_case_insensitively() {
    let references = vec![
        reference("other", "x"),
        reference("PURL", "pkg:npm/foo@1.0.0"),
    ];
    assert_eq!(find_purl(&references).as_deref(), Some("pkg:npm/foo@1.0.0"));
}

#[test]
fn unparsable_purl_is_omitted_not_fatal() {
    let mut record = package("soft");
    record.external_references = vec![reference("purl", "not-a-purl")];
    let document = SourceDocument {
        packages: vec![record],
    };
    let output = generate_cyclonedx(&document).expect("conversion must still succeed");
    let json = parse(&output);
    let component = json["components"][0].as_object().unwrap();
    assert!(component.get("purl").is_none());
}

#[test]
fn non_purl_references_are_ignored() {
    let references = vec![reference("website", "https://example.com")];
    assert_eq!(find_purl(&references), None);
}

#[test]
fn end_to_end_single_package() {
    let record = PackageRecord {
        name: "curl".to_string(),
        version: Some("8.1.0".to_string()),
        spdx_identifier: "SPDXRef-curl".to_string(),
        primary_purpose: Some(PackagePurpose::Library),
        summary_description: None,
        detailed_description: None,
        external_references: vec![reference("purl", "pkg:generic/curl@8.1.0")],
    };
    let document = SourceDocument {
        packages: vec![record],
    };
    let output = generate_cyclonedx(&document).expect("conversion must succeed");
    let json = parse(&output);
    assert_eq!(json["specVersion"], "1.4");
    let components = json["components"].as_array().expect("components array");
    assert_eq!(components.len(), 1);
    assert_eq!(components[0]["type"], "library");
    assert_eq!(components[0]["name"], "curl");
    assert_eq!(components[0]["version"], "8.1.0");
    assert_eq!(components[0]["bom-ref"], "SPDXRef-curl");
    assert_eq!(components[0]["purl"], "pkg:generic/curl@8.1.0");
}

#[test]
fn conversion_is_deterministic() {
    let document = SourceDocument {
        packages: vec![package("alpha")],
    };
    let again = SourceDocument {
        packages: vec![package("alpha")],
    };
    assert_eq!(
        generate_cyclonedx(&document).unwrap(),
        generate_cyclonedx(&again).unwrap()
    );
}
