//! Trusted bindings to the cyclonedx_bom crate: package-URL validation and
//! serialization of the finished component list to the target schema's JSON
//! wire format.

use vstd::prelude::*;
use std::str::FromStr;
use cyclonedx_bom::external_models::normalized_string::NormalizedString;
use cyclonedx_bom::external_models::uri::{validate_purl, Purl};
use cyclonedx_bom::models::bom::{Bom, SpecVersion};
use cyclonedx_bom::models::component::Classification as CdxClassification;
use cyclonedx_bom::models::component::Component as CdxComponent;
use cyclonedx_bom::models::component::Components;
use crate::model::{components_view, Classification, Component};

verus! {

pub uninterp spec fn purl_well_formed(locator: Seq<char>) -> bool;

/// Relies on cyclonedx_bom's `validate_purl`: whether a locator conforms to
/// the package-URL grammar depends on the locator text alone. In this crate
/// version `Purl::from_str` keeps the locator verbatim and never fails;
/// `validate_purl` holds it against the grammar.
#[verifier::external_body]
pub(crate) fn locator_is_well_formed_purl(locator: &str) -> (ok: bool)
    ensures
        ok == purl_well_formed(locator@),
{
    match Purl::from_str(locator) {
        Ok(purl) => validate_purl(&purl).is_ok(),
        Err(()) => false,
    }
}

#[verifier::external_type_specification]
#[verifier::external_body]
pub struct ExCdxClassification(CdxClassification);

#[verifier::external_type_specification]
#[verifier::external_body]
pub struct ExCdxComponent(CdxComponent);

/// Relies on nothing computed: carries the library's classification
/// vocabulary onto cyclonedx_bom's, one variant each.
#[verifier::external_body]
fn to_cdx_classification(classification: &Classification) -> CdxClassification {
    match classification {
        Classification::Application => CdxClassification::Application,
        Classification::Framework => CdxClassification::Framework,
        Classification::Library => CdxClassification::Library,
        Classification::Container => CdxClassification::Container,
        Classification::OperatingSystem => CdxClassification::OperatingSystem,
        Classification::Device => CdxClassification::Device,
        Classification::Firmware => CdxClassification::Firmware,
        Classification::File => CdxClassification::File,
    }
}

/// Relies on cyclonedx_bom's `Component::new`, `NormalizedString::new` and
/// `Purl::from_str` to assemble one target-schema component record; carries
/// each field of the library's component across one for one.
#[verifier::external_body]
fn to_cdx_component(component: &Component) -> CdxComponent {
    let mut out = CdxComponent::new(
        to_cdx_classification(&component.classification),
        component.name.as_str(),
        "",
        Some(component.bom_ref.clone()),
    );
    out.version = component.version.as_ref().map(|v| NormalizedString::new(v));
    out.description = component.description.as_ref().map(|d| NormalizedString::new(d));
    out.purl = component.purl.as_ref().and_then(|p| Purl::from_str(p).ok());
    out
}

pub uninterp spec fn bom_json(components: Seq<crate::model::ComponentModel>) -> Option<Seq<char>>;

/// Relies on cyclonedx_bom's `Bom::output_as_json` at the fixed 1.4
/// specification version: the serialized text depends on the component
/// records alone once the document's randomly generated serial number is
/// cleared, and is UTF-8.
#[verifier::external_body]
pub(crate) fn render_bom(components: &Vec<Component>) -> (output: Option<String>)
    ensures
        output matches Some(text) ==> bom_json(components_view(components@)) == Some(text@),
        output is None ==> bom_json(components_view(components@)) is None,
{
    let mut bom = Bom::default();
    bom.serial_number = None;
    bom.spec_version = SpecVersion::V1_4;
    bom.components = Some(Components(components.iter().map(to_cdx_component).collect()));
    let mut buffer: Vec<u8> = Vec::new();
    if bom.output_as_json(&mut buffer, SpecVersion::V1_4).is_err() {
        return None;
    }
    String::from_utf8(buffer).ok()
}

} // verus!
