//! Data model of the source (package-oriented) and target
//! (component-oriented) SBOM documents, and the classification vocabulary
//! mapping between the two.

use vstd::prelude::*;

verus! {

/// The fixed vocabulary of purpose tags a source package may carry.
#[derive(Clone, Copy, PartialEq, Eq, Structural, Debug)]
pub enum PackagePurpose {
    Application,
    Framework,
    Library,
    Container,
    OperatingSystem,
    Device,
    Firmware,
    Source,
    Archive,
    File,
    Install,
    Other,
}

/// The classification vocabulary of the target schema.
#[derive(Clone, Copy, PartialEq, Eq, Structural, Debug)]
pub enum Classification {
    Application,
    Framework,
    Library,
    Container,
    OperatingSystem,
    Device,
    Firmware,
    File,
}

/// Why a conversion failed as a whole.
#[derive(Clone, Copy, PartialEq, Eq, Structural, Debug)]
pub enum ConversionError {
    /// The source document held no packages, so the target document would
    /// hold no components.
    EmptyResult,
    /// The assembled target document could not be encoded to its wire format.
    SerializationError,
}

/// One external reference of a source package: a typed locator string.
pub struct ExternalReference {
    pub reference_type: String,
    pub reference_locator: String,
}

/// Mathematical model of an [`ExternalReference`].
#[verifier::ext_equal]
pub ghost struct ExternalReferenceModel {
    pub reference_type: Seq<char>,
    pub reference_locator: Seq<char>,
}

impl View for ExternalReference {
    type V = ExternalReferenceModel;

    open spec fn view(&self) -> ExternalReferenceModel {
        ExternalReferenceModel {
            reference_type: self.reference_type@,
            reference_locator: self.reference_locator@,
        }
    }
}

/// One package record of the source document.
pub struct PackageRecord {
    pub name: String,
    pub version: Option<String>,
    pub spdx_identifier: String,
    pub primary_purpose: Option<PackagePurpose>,
    pub summary_description: Option<String>,
    pub detailed_description: Option<String>,
    pub external_references: Vec<ExternalReference>,
}

/// Mathematical model of a [`PackageRecord`].
#[verifier::ext_equal]
pub ghost struct PackageModel {
    pub name: Seq<char>,
    pub version: Option<Seq<char>>,
    pub spdx_identifier: Seq<char>,
    pub primary_purpose: Option<PackagePurpose>,
    pub summary_description: Option<Seq<char>>,
    pub detailed_description: Option<Seq<char>>,
    pub external_references: Seq<ExternalReferenceModel>,
}

/// The models of a sequence of external references, in order.
pub open spec fn references_view(references: Seq<ExternalReference>) -> Seq<ExternalReferenceModel> {
    references.map_values(|r: ExternalReference| r@)
}

impl View for PackageRecord {
    type V = PackageModel;

    open spec fn view(&self) -> PackageModel {
        PackageModel {
            name: self.name@,
            version: self.version.deep_view(),
            spdx_identifier: self.spdx_identifier@,
            primary_purpose: self.primary_purpose,
            summary_description: self.summary_description.deep_view(),
            detailed_description: self.detailed_description.deep_view(),
            external_references: references_view(self.external_references@),
        }
    }
}

/// The source document: an ordered sequence of package records.
pub struct SourceDocument {
    pub packages: Vec<PackageRecord>,
}

impl View for SourceDocument {
    type V = Seq<PackageModel>;

    open spec fn view(&self) -> Seq<PackageModel> {
        self.packages@.map_values(|p: PackageRecord| p@)
    }
}

/// One component record of the target document.
pub struct Component {
    pub classification: Classification,
    pub name: String,
    pub version: Option<String>,
    pub bom_ref: String,
    pub description: Option<String>,
    pub purl: Option<String>,
}

/// Mathematical model of a [`Component`].
#[verifier::ext_equal]
pub ghost struct ComponentModel {
    pub classification: Classification,
    pub name: Seq<char>,
    pub version: Option<Seq<char>>,
    pub bom_ref: Seq<char>,
    pub description: Option<Seq<char>>,
    pub purl: Option<Seq<char>>,
}

impl View for Component {
    type V = ComponentModel;

    open spec fn view(&self) -> ComponentModel {
        ComponentModel {
            classification: self.classification,
            name: self.name@,
            version: self.version.deep_view(),
            bom_ref: self.bom_ref@,
            description: self.description.deep_view(),
            purl: self.purl.deep_view(),
        }
    }
}

/// The models of a sequence of components, in order.
pub open spec fn components_view(components: Seq<Component>) -> Seq<ComponentModel> {
    components.map_values(|c: Component| c@)
}

/// The fixed, total lookup table from source purpose tags to target
/// classifications.
pub open spec fn classification_of(purpose: PackagePurpose) -> Classification {
    match purpose {
        PackagePurpose::Application => Classification::Application,
        PackagePurpose::Framework => Classification::Framework,
        PackagePurpose::Library => Classification::Library,
        PackagePurpose::Container => Classification::Container,
        PackagePurpose::OperatingSystem => Classification::OperatingSystem,
        PackagePurpose::Device => Classification::Device,
        PackagePurpose::Firmware => Classification::Firmware,
        PackagePurpose::Source => Classification::File,
        PackagePurpose::Archive => Classification::File,
        PackagePurpose::File => Classification::File,
        PackagePurpose::Install => Classification::Application,
        PackagePurpose::Other => Classification::Application,
    }
}

/// The classification of a package with an optional purpose tag: an absent
/// purpose falls back to `Library`, so no component is ever left unclassified.
pub open spec fn classification_of_optional(purpose: Option<PackagePurpose>) -> Classification {
    match purpose {
        Some(p) => classification_of(p),
        None => Classification::Library,
    }
}

/// Translate one source purpose tag through the fixed lookup table.
pub fn spdx_purpose_to_classification(purpose: &PackagePurpose) -> (classification: Classification)
    ensures
        classification == classification_of(*purpose),
{
    match purpose {
        PackagePurpose::Application => Classification::Application,
        PackagePurpose::Framework => Classification::Framework,
        PackagePurpose::Library => Classification::Library,
        PackagePurpose::Container => Classification::Container,
        PackagePurpose::OperatingSystem => Classification::OperatingSystem,
        PackagePurpose::Device => Classification::Device,
        PackagePurpose::Firmware => Classification::Firmware,
        PackagePurpose::Source => Classification::File,
        PackagePurpose::Archive => Classification::File,
        PackagePurpose::File => Classification::File,
        PackagePurpose::Install => Classification::Application,
        PackagePurpose::Other => Classification::Application,
    }
}

/// Law: the classification mapping is total — each of the twelve purpose
/// tags maps to exactly the table's value, an optional purpose always maps
/// through the table when present, and an absent purpose maps to `Library`,
/// so no component is ever left unclassified.
pub proof fn lemma_classification_total()
    ensures
        classification_of(PackagePurpose::Application) == Classification::Application,
        classification_of(PackagePurpose::Framework) == Classification::Framework,
        classification_of(PackagePurpose::Library) == Classification::Library,
        classification_of(PackagePurpose::Container) == Classification::Container,
        classification_of(PackagePurpose::OperatingSystem) == Classification::OperatingSystem,
        classification_of(PackagePurpose::Device) == Classification::Device,
        classification_of(PackagePurpose::Firmware) == Classification::Firmware,
        classification_of(PackagePurpose::Source) == Classification::File,
        classification_of(PackagePurpose::Archive) == Classification::File,
        classification_of(PackagePurpose::File) == Classification::File,
        classification_of(PackagePurpose::Install) == Classification::Application,
        classification_of(PackagePurpose::Other) == Classification::Application,
        forall|purpose: PackagePurpose|
            classification_of_optional(Some(purpose)) == classification_of(purpose),
        classification_of_optional(None::<PackagePurpose>) == Classification::Library,
{
}

} // verus!
