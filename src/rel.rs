//! The relationship vocabulary and its canonical, direction-free form.

use vstd::prelude::*;

verus! {

/// A relationship type of the SPDX vocabulary.
#[derive(Clone, Copy, Debug, PartialEq, Eq, Hash, Structural)]
pub enum RelationshipType {
    Describes,
    DescribedBy,
    Contains,
    ContainedBy,
    DependsOn,
    DependencyOf,
    DependencyManifestOf,
    BuildDependencyOf,
    DevDependencyOf,
    OptionalDependencyOf,
    ProvidedDependencyOf,
    TestDependencyOf,
    RuntimeDependencyOf,
    ExampleOf,
    Generates,
    GeneratedFrom,
    AncestorOf,
    DescendantOf,
    VariantOf,
    DistributionArtifact,
    PatchFor,
    PatchApplied,
    CopyOf,
    FileAdded,
    FileDeleted,
    FileModified,
    ExpandedFromArchive,
    DynamicLink,
    StaticLink,
    DataFileOf,
    TestCaseOf,
    BuildToolOf,
    DevToolOf,
    TestOf,
    TestToolOf,
    DocumentationOf,
    OptionalComponentOf,
    MetafileOf,
    PackageOf,
    Amends,
    PrerequisiteFor,
    HasPrerequisite,
    RequirementDescriptionFor,
    SpecificationFor,
    Other,
}

impl RelationshipType {
    /// The label of this type as the vocabulary writes it.
    pub open spec fn label_spec(self) -> Seq<char> {
        match self {
            RelationshipType::Describes => "DESCRIBES"@,
            RelationshipType::DescribedBy => "DESCRIBED_BY"@,
            RelationshipType::Contains => "CONTAINS"@,
            RelationshipType::ContainedBy => "CONTAINED_BY"@,
            RelationshipType::DependsOn => "DEPENDS_ON"@,
            RelationshipType::DependencyOf => "DEPENDENCY_OF"@,
            RelationshipType::DependencyManifestOf => "DEPENDENCY_MANIFEST_OF"@,
            RelationshipType::BuildDependencyOf => "BUILD_DEPENDENCY_OF"@,
            RelationshipType::DevDependencyOf => "DEV_DEPENDENCY_OF"@,
            RelationshipType::OptionalDependencyOf => "OPTIONAL_DEPENDENCY_OF"@,
            RelationshipType::ProvidedDependencyOf => "PROVIDED_DEPENDENCY_OF"@,
            RelationshipType::TestDependencyOf => "TEST_DEPENDENCY_OF"@,
            RelationshipType::RuntimeDependencyOf => "RUNTIME_DEPENDENCY_OF"@,
            RelationshipType::ExampleOf => "EXAMPLE_OF"@,
            RelationshipType::Generates => "GENERATES"@,
            RelationshipType::GeneratedFrom => "GENERATED_FROM"@,
            RelationshipType::AncestorOf => "ANCESTOR_OF"@,
            RelationshipType::DescendantOf => "DESCENDANT_OF"@,
            RelationshipType::VariantOf => "VARIANT_OF"@,
            RelationshipType::DistributionArtifact => "DISTRIBUTION_ARTIFACT"@,
            RelationshipType::PatchFor => "PATCH_FOR"@,
            RelationshipType::PatchApplied => "PATCH_APPLIED"@,
            RelationshipType::CopyOf => "COPY_OF"@,
            RelationshipType::FileAdded => "FILE_ADDED"@,
            RelationshipType::FileDeleted => "FILE_DELETED"@,
            RelationshipType::FileModified => "FILE_MODIFIED"@,
            RelationshipType::ExpandedFromArchive => "EXPANDED_FROM_ARCHIVE"@,
            RelationshipType::DynamicLink => "DYNAMIC_LINK"@,
            RelationshipType::StaticLink => "STATIC_LINK"@,
            RelationshipType::DataFileOf => "DATA_FILE_OF"@,
            RelationshipType::TestCaseOf => "TEST_CASE_OF"@,
            RelationshipType::BuildToolOf => "BUILD_TOOL_OF"@,
            RelationshipType::DevToolOf => "DEV_TOOL_OF"@,
            RelationshipType::TestOf => "TEST_OF"@,
            RelationshipType::TestToolOf => "TEST_TOOL_OF"@,
            RelationshipType::DocumentationOf => "DOCUMENTATION_OF"@,
            RelationshipType::OptionalComponentOf => "OPTIONAL_COMPONENT_OF"@,
            RelationshipType::MetafileOf => "METAFILE_OF"@,
            RelationshipType::PackageOf => "PACKAGE_OF"@,
            RelationshipType::Amends => "AMENDS"@,
            RelationshipType::PrerequisiteFor => "PREREQUISITE_FOR"@,
            RelationshipType::HasPrerequisite => "HAS_PREREQUISITE"@,
            RelationshipType::RequirementDescriptionFor => "REQUIREMENT_DESCRIPTION_FOR"@,
            RelationshipType::SpecificationFor => "SPECIFICATION_FOR"@,
            RelationshipType::Other => "OTHER"@,
        }
    }

    /// The label of this type as the vocabulary writes it.
    pub fn label(&self) -> (r: &'static str)
        ensures
            r@ == self.label_spec(),
    {
        match self {
            RelationshipType::Describes => "DESCRIBES",
            RelationshipType::DescribedBy => "DESCRIBED_BY",
            RelationshipType::Contains => "CONTAINS",
            RelationshipType::ContainedBy => "CONTAINED_BY",
            RelationshipType::DependsOn => "DEPENDS_ON",
            RelationshipType::DependencyOf => "DEPENDENCY_OF",
            RelationshipType::DependencyManifestOf => "DEPENDENCY_MANIFEST_OF",
            RelationshipType::BuildDependencyOf => "BUILD_DEPENDENCY_OF",
            RelationshipType::DevDependencyOf => "DEV_DEPENDENCY_OF",
            RelationshipType::OptionalDependencyOf => "OPTIONAL_DEPENDENCY_OF",
            RelationshipType::ProvidedDependencyOf => "PROVIDED_DEPENDENCY_OF",
            RelationshipType::TestDependencyOf => "TEST_DEPENDENCY_OF",
            RelationshipType::RuntimeDependencyOf => "RUNTIME_DEPENDENCY_OF",
            RelationshipType::ExampleOf => "EXAMPLE_OF",
            RelationshipType::Generates => "GENERATES",
            RelationshipType::GeneratedFrom => "GENERATED_FROM",
            RelationshipType::AncestorOf => "ANCESTOR_OF",
            RelationshipType::DescendantOf => "DESCENDANT_OF",
            RelationshipType::VariantOf => "VARIANT_OF",
            RelationshipType::DistributionArtifact => "DISTRIBUTION_ARTIFACT",
            RelationshipType::PatchFor => "PATCH_FOR",
            RelationshipType::PatchApplied => "PATCH_APPLIED",
            RelationshipType::CopyOf => "COPY_OF",
            RelationshipType::FileAdded => "FILE_ADDED",
            RelationshipType::FileDeleted => "FILE_DELETED",
            RelationshipType::FileModified => "FILE_MODIFIED",
            RelationshipType::ExpandedFromArchive => "EXPANDED_FROM_ARCHIVE",
            RelationshipType::DynamicLink => "DYNAMIC_LINK",
            RelationshipType::StaticLink => "STATIC_LINK",
            RelationshipType::DataFileOf => "DATA_FILE_OF",
            RelationshipType::TestCaseOf => "TEST_CASE_OF",
            RelationshipType::BuildToolOf => "BUILD_TOOL_OF",
            RelationshipType::DevToolOf => "DEV_TOOL_OF",
            RelationshipType::TestOf => "TEST_OF",
            RelationshipType::TestToolOf => "TEST_TOOL_OF",
            RelationshipType::DocumentationOf => "DOCUMENTATION_OF",
            RelationshipType::OptionalComponentOf => "OPTIONAL_COMPONENT_OF",
            RelationshipType::MetafileOf => "METAFILE_OF",
            RelationshipType::PackageOf => "PACKAGE_OF",
            RelationshipType::Amends => "AMENDS",
            RelationshipType::PrerequisiteFor => "PREREQUISITE_FOR",
            RelationshipType::HasPrerequisite => "HAS_PREREQUISITE",
            RelationshipType::RequirementDescriptionFor => "REQUIREMENT_DESCRIPTION_FOR",
            RelationshipType::SpecificationFor => "SPECIFICATION_FOR",
            RelationshipType::Other => "OTHER",
        }
    }
}

/// The type that states the same fact as `kind` with the two endpoints exchanged,
/// for the types that have such a counterpart.
pub open spec fn converse(kind: RelationshipType) -> Option<RelationshipType> {
    match kind {
        RelationshipType::Describes => Some(RelationshipType::DescribedBy),
        RelationshipType::DescribedBy => Some(RelationshipType::Describes),
        RelationshipType::Contains => Some(RelationshipType::ContainedBy),
        RelationshipType::ContainedBy => Some(RelationshipType::Contains),
        RelationshipType::DependsOn => Some(RelationshipType::DependencyOf),
        RelationshipType::DependencyOf => Some(RelationshipType::DependsOn),
        RelationshipType::Generates => Some(RelationshipType::GeneratedFrom),
        RelationshipType::GeneratedFrom => Some(RelationshipType::Generates),
        RelationshipType::AncestorOf => Some(RelationshipType::DescendantOf),
        RelationshipType::DescendantOf => Some(RelationshipType::AncestorOf),
        RelationshipType::PrerequisiteFor => Some(RelationshipType::HasPrerequisite),
        RelationshipType::HasPrerequisite => Some(RelationshipType::PrerequisiteFor),
        _ => None,
    }
}

/// Whether `kind` is the passive member of a converse pair, written with its
/// endpoints in the opposite order of the canonical edge.
pub open spec fn is_reversed(kind: RelationshipType) -> bool {
    match kind {
        RelationshipType::DescribedBy => true,
        RelationshipType::ContainedBy => true,
        RelationshipType::DependencyOf => true,
        RelationshipType::GeneratedFrom => true,
        RelationshipType::DescendantOf => true,
        RelationshipType::HasPrerequisite => true,
        _ => false,
    }
}

/// The canonical label of `kind`: the active member of its converse pair, or
/// `kind` itself.
pub open spec fn canonical_kind(kind: RelationshipType) -> RelationshipType {
    if is_reversed(kind) {
        converse(kind).unwrap()
    } else {
        kind
    }
}

/// The canonical form of the edge `source -[kind]-> target`.
pub open spec fn canonical(source: Seq<char>, kind: RelationshipType, target: Seq<char>) -> (
    Seq<char>,
    RelationshipType,
    Seq<char>,
) {
    if is_reversed(kind) {
        (target, canonical_kind(kind), source)
    } else {
        (source, kind, target)
    }
}

/// Maps the relationship `source -[kind]-> target` to its canonical triple: the
/// passive member of a converse pair becomes the active one with its endpoints
/// exchanged; every other type passes through unchanged.
pub fn canonicalize(source: String, kind: RelationshipType, target: String) -> (r: (
    String,
    RelationshipType,
    String,
))
    ensures
        (r.0@, r.1, r.2@) == canonical(source@, kind, target@),
{
    match kind {
        RelationshipType::DescribedBy => (target, RelationshipType::Describes, source),
        RelationshipType::ContainedBy => (target, RelationshipType::Contains, source),
        RelationshipType::DependencyOf => (target, RelationshipType::DependsOn, source),
        RelationshipType::GeneratedFrom => (target, RelationshipType::Generates, source),
        RelationshipType::DescendantOf => (target, RelationshipType::AncestorOf, source),
        RelationshipType::HasPrerequisite => (target, RelationshipType::PrerequisiteFor, source),
        _ => (source, kind, target),
    }
}

/// Both members of a converse pair describe one edge: `a -[k]-> b` and
/// `b -[k']-> a` canonicalize to the same triple when `k'` is the converse of `k`.
pub proof fn lemma_converse_collapses(a: Seq<char>, kind: RelationshipType, b: Seq<char>)
    requires
        converse(kind) is Some,
    ensures
        canonical(a, kind, b) == canonical(b, converse(kind).unwrap(), a),
{
}

/// Canonicalization is idempotent: a canonical triple is its own canonical form.
pub proof fn lemma_canonical_idempotent(a: Seq<char>, kind: RelationshipType, b: Seq<char>)
    ensures
        ({
            let c = canonical(a, kind, b);
            canonical(c.0, c.1, c.2) == c
        }),
{
}

/// The canonical label never is the passive member of a converse pair, and the
/// converse of a pair's member leads back to it.
pub proof fn lemma_canonical_kind_active(kind: RelationshipType)
    ensures
        !is_reversed(canonical_kind(kind)),
        converse(kind) is Some ==> converse(converse(kind).unwrap()) == Some(kind),
        converse(kind) is Some ==> is_reversed(kind) != is_reversed(converse(kind).unwrap()),
{
}

} // verus!
