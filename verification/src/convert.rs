//! The schema converter: each source package record becomes exactly one
//! target component record, in source order, and the finished component
//! list is serialized to the target schema's JSON wire format.

use vstd::prelude::*;
use crate::bom::{bom_json, locator_is_well_formed_purl, purl_well_formed, render_bom};
use crate::model::{
    classification_of_optional, components_view, references_view, Classification, Component,
    ComponentModel, ConversionError, ExternalReference, ExternalReferenceModel, PackageModel,
    PackageRecord, SourceDocument,
};

verus! {

/// Whether a reference type string equals `"purl"` up to ASCII case.
pub open spec fn is_purl_reference_type(reference_type: Seq<char>) -> bool {
    &&& reference_type.len() == 4
    &&& (reference_type[0] == 'p' || reference_type[0] == 'P')
    &&& (reference_type[1] == 'u' || reference_type[1] == 'U')
    &&& (reference_type[2] == 'r' || reference_type[2] == 'R')
    &&& (reference_type[3] == 'l' || reference_type[3] == 'L')
}

/// The package URL carried over from a sequence of external references: the
/// locator of the first reference typed `"purl"` (ASCII case-insensitively),
/// if that locator conforms to the package-URL grammar; absent otherwise.
/// A malformed locator is a per-field soft failure, never a document error.
pub open spec fn purl_of(references: Seq<ExternalReferenceModel>) -> Option<Seq<char>>
    decreases references.len(),
{
    if references.len() == 0 {
        None
    } else if is_purl_reference_type(references[0].reference_type) {
        if purl_well_formed(references[0].reference_locator) {
            Some(references[0].reference_locator)
        } else {
            None
        }
    } else {
        purl_of(references.drop_first())
    }
}

/// The description carried over from a package: the summary description
/// when present, else the detailed description, else absent.
pub open spec fn description_of(package: PackageModel) -> Option<Seq<char>> {
    if package.summary_description is Some {
        package.summary_description
    } else {
        package.detailed_description
    }
}

/// The one component record a source package record yields.
pub open spec fn component_of(package: PackageModel) -> ComponentModel {
    ComponentModel {
        classification: classification_of_optional(package.primary_purpose),
        name: package.name,
        version: package.version,
        bom_ref: package.spdx_identifier,
        description: description_of(package),
        purl: purl_of(package.external_references),
    }
}

/// The component records a source document yields: one per package record,
/// in source order.
pub open spec fn components_of(packages: Seq<PackageModel>) -> Seq<ComponentModel> {
    packages.map_values(|p: PackageModel| component_of(p))
}

/// Whether a reference type string equals `"purl"` up to ASCII case.
fn reference_type_is_purl(reference_type: &str) -> (is_purl: bool)
    ensures
        is_purl == is_purl_reference_type(reference_type@),
{
    if reference_type.unicode_len() != 4 {
        return false;
    }
    let c0 = reference_type.get_char(0);
    let c1 = reference_type.get_char(1);
    let c2 = reference_type.get_char(2);
    let c3 = reference_type.get_char(3);
    (c0 == 'p' || c0 == 'P') && (c1 == 'u' || c1 == 'U') && (c2 == 'r' || c2 == 'R') && (c3 == 'l'
        || c3 == 'L')
}

/// Scan external references for the first one typed `"purl"` and keep its
/// locator if it conforms to the package-URL grammar.
pub fn find_purl(references: &Vec<ExternalReference>) -> (purl: Option<String>)
    ensures
        purl.deep_view() == purl_of(references_view(references@)),
{
    let ghost rv = references_view(references@);
    proof {
        assert(rv.skip(0) =~= rv);
    }
    let n = references.len();
    let mut i: usize = 0;
    while i < n
        invariant
            n == references.len(),
            i <= n,
            rv == references_view(references@),
            rv.len() == n,
            purl_of(rv) == purl_of(rv.skip(i as int)),
        decreases n - i,
    {
        let reference = &references[i];
        proof {
            assert(rv.skip(i as int)[0] == rv[i as int]);
        }
        if reference_type_is_purl(&reference.reference_type) {
            if locator_is_well_formed_purl(&reference.reference_locator) {
                return Some(reference.reference_locator.clone());
            } else {
                return None;
            }
        }
        proof {
            assert(rv.skip(i as int).drop_first() =~= rv.skip(i as int + 1));
        }
        i = i + 1;
    }
    proof {
        assert(rv.skip(n as int) =~= Seq::<ExternalReferenceModel>::empty());
    }
    None
}

/// Clone an optional string, keeping presence and contents.
fn clone_optional(value: &Option<String>) -> (cloned: Option<String>)
    ensures
        cloned.deep_view() == value.deep_view(),
{
    match value {
        Some(v) => Some(v.clone()),
        None => None,
    }
}

/// Convert one source package record into its one target component record.
pub fn convert_package(package: &PackageRecord) -> (component: Component)
    ensures
        component@ == component_of(package@),
{
    let classification = match &package.primary_purpose {
        Some(purpose) => crate::model::spdx_purpose_to_classification(purpose),
        None => Classification::Library,
    };
    let description = if package.summary_description.is_some() {
        clone_optional(&package.summary_description)
    } else {
        clone_optional(&package.detailed_description)
    };
    let component = Component {
        classification,
        name: package.name.clone(),
        version: clone_optional(&package.version),
        bom_ref: package.spdx_identifier.clone(),
        description,
        purl: find_purl(&package.external_references),
    };
    proof {
        assert(component@ =~= component_of(package@));
    }
    component
}

/// Convert a whole source document into the ordered component list of the
/// target document; a source document with no packages is rejected.
pub fn convert_document(document: &SourceDocument) -> (result: Result<
    Vec<Component>,
    ConversionError,
>)
    ensures
        document@.len() == 0 <==> result == Err::<Vec<Component>, ConversionError>(
            ConversionError::EmptyResult,
        ),
        document@.len() > 0 ==> (result matches Ok(components) && components_view(components@)
            == components_of(document@)),
{
    let n = document.packages.len();
    if n == 0 {
        return Err(ConversionError::EmptyResult);
    }
    let mut components: Vec<Component> = Vec::new();
    let mut i: usize = 0;
    while i < n
        invariant
            n == document.packages.len(),
            i <= n,
            components@.len() == i,
            forall|j: int| 0 <= j < i ==> components@[j]@ == component_of(document@[j]),
        decreases n - i,
    {
        let component = convert_package(&document.packages[i]);
        proof {
            assert(document.packages@[i as int]@ == document@[i as int]);
        }
        components.push(component);
        i = i + 1;
    }
    proof {
        assert(components_view(components@) =~= components_of(document@));
    }
    Ok(components)
}

/// Convert a parsed source document into the serialized target document.
///
/// A source document with no packages yields `EmptyResult`; a target
/// document that cannot be encoded to its wire format yields
/// `SerializationError`; otherwise the result is the JSON text of the
/// target document built from exactly one component per source package,
/// in source order.
pub fn generate_cyclonedx(document: &SourceDocument) -> (result: Result<String, ConversionError>)
    ensures
        document@.len() == 0 <==> result == Err::<String, ConversionError>(
            ConversionError::EmptyResult,
        ),
        document@.len() > 0 ==> match bom_json(components_of(document@)) {
            Some(text) => result matches Ok(output) && output@ == text,
            None => result == Err::<String, ConversionError>(ConversionError::SerializationError),
        },
{
    let components = match convert_document(document) {
        Ok(components) => components,
        Err(error) => {
            return Err(error);
        },
    };
    match render_bom(&components) {
        Some(output) => Ok(output),
        None => Err(ConversionError::SerializationError),
    }
}

/// Law: conversion preserves cardinality and order — a source document with
/// N packages yields exactly N components, the component at each position
/// arising from the package at the same position.
pub proof fn lemma_cardinality_preserved(packages: Seq<PackageModel>)
    ensures
        components_of(packages).len() == packages.len(),
        forall|i: int|
            0 <= i < packages.len() ==> components_of(packages)[i] == component_of(packages[i]),
{
}

} // verus!
