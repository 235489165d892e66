use sbom_graph::cli::{is_candidate, Cli};
use sbom_graph::dup::DetectDuplicates;
use sbom_graph::graph::{
    document_row, edge_row, package_row, Document, ExternalReference, Graph, Package, Relation,
};
use sbom_graph::key::{derive_id, Key, ROOT_NAMESPACE};
use sbom_graph::license::{fix_license, replacement};
use sbom_graph::rel::{canonicalize, RelationshipType};

fn s(v: &str) -> String {
    v.to_string()
}

#[test]
fn test_args() {
    clap::Command::new("sbom_graph")
        .arg(
            clap::Arg::new("root")
                .env("ROOT_DIR")
                .default_value("data"),
        )
        .arg(
            clap::Arg::new("prefix")
                .short('p')
                .long("prefix")
                .env("PREFIXES")
                .value_delimiter(',')
                .action(clap::ArgAction::Append),
        )
        .debug_assert()
}

#[test]
fn uuid_is_two_stage_v5() {
    let key = Key::new(s("SPDXRef-DOCUMENT"), s("https://example.com/doc-1"));
    let root = uuid::Uuid::from_u128(ROOT_NAMESPACE);
    let ns = uuid::Uuid::new_v5(&root, b"https://example.com/doc-1");
    let expected = uuid::Uuid::new_v5(&ns, b"SPDXRef-DOCUMENT");
    assert_eq!(key.to_uuid(), expected.as_u128());
    assert_eq!(
        root.to_string(),
        "c7091b73-48ed-46cc-b05d-088a23c79913"
    );
}

#[test]
fn uuid_is_deterministic_and_varies() {
    let a = derive_id("ns-a", "id-1");
    assert_eq!(a, derive_id("ns-a", "id-1"));
    assert_eq!(a, Key::new(s("id-1"), s("ns-a")).to_uuid());
    assert_ne!(a, derive_id("ns-b", "id-1"));
    assert_ne!(a, derive_id("ns-a", "id-2"));
    assert_ne!(derive_id("ab", "c"), derive_id("a", "bc"));
}

#[test]
fn key_describe() {
    let key = Key::new(s("SPDXRef-A"), s("urn:ns"));
    assert_eq!(key.describe(), "urn:ns / SPDXRef-A");
}

#[test]
fn converse_pairs_collapse() {
    let pairs = [
        (RelationshipType::Describes, RelationshipType::DescribedBy),
        (RelationshipType::Contains, RelationshipType::ContainedBy),
        (RelationshipType::DependsOn, RelationshipType::DependencyOf),
        (RelationshipType::Generates, RelationshipType::GeneratedFrom),
        (RelationshipType::AncestorOf, RelationshipType::DescendantOf),
        (RelationshipType::PrerequisiteFor, RelationshipType::HasPrerequisite),
    ];
    for (active, passive) in pairs {
        let x = canonicalize(s("a"), active, s("b"));
        let y = canonicalize(s("b"), passive, s("a"));
        assert_eq!(x, y);
        assert_eq!(x, (s("a"), active, s("b")));
        let again = canonicalize(x.0.clone(), x.1, x.2.clone());
        assert_eq!(again, x);
    }
}

#[test]
fn unpaired_types_pass_through() {
    let r = canonicalize(s("a"), RelationshipType::StaticLink, s("b"));
    assert_eq!(r, (s("a"), RelationshipType::StaticLink, s("b")));
    let r = canonicalize(s("x"), RelationshipType::Other, s("y"));
    assert_eq!(r, (s("x"), RelationshipType::Other, s("y")));
}

#[test]
fn labels() {
    assert_eq!(RelationshipType::ContainedBy.label(), "CONTAINED_BY");
    assert_eq!(RelationshipType::DependsOn.label(), "DEPENDS_ON");
    assert_eq!(RelationshipType::Other.label(), "OTHER");
}

fn reference(kind: &str, locator: &str) -> ExternalReference {
    ExternalReference { reference_type: s(kind), reference_locator: s(locator) }
}

fn package(id: &str, name: &str, refs: Vec<ExternalReference>) -> Package {
    Package { spdx_id: s(id), name: s(name), external_references: refs }
}

fn relation(a: &str, kind: RelationshipType, b: &str) -> Relation {
    Relation { source: s(a), kind, target: s(b) }
}

fn sample() -> Document {
    Document {
        spdx_id: s("SPDXRef-DOCUMENT"),
        namespace: s("https://example.com/sbom-1"),
        name: s("sample"),
        packages: vec![
            package(
                "SPDXRef-A",
                "a",
                vec![
                    reference("purl", "pkg:cargo/a@1.0"),
                    reference("cpe22Type", "cpe:/a:vendor:a:1.0"),
                ],
            ),
            package("SPDXRef-B", "b", vec![reference("other", "x")]),
            package("SPDXRef-C", "c", vec![]),
        ],
        relationships: vec![
            relation("SPDXRef-DOCUMENT", RelationshipType::Describes, "SPDXRef-A"),
            relation("SPDXRef-A", RelationshipType::DependsOn, "SPDXRef-B"),
        ],
    }
}

#[test]
fn rows_of_a_document() {
    let doc = sample();
    let row = document_row(&doc);
    assert_eq!(row.uid, derive_id("https://example.com/sbom-1", "SPDXRef-DOCUMENT"));
    assert_eq!(row.name, "sample");
    let p = package_row(&doc.namespace, &doc.packages[0]);
    assert_eq!(p.uid, derive_id("https://example.com/sbom-1", "SPDXRef-A"));
    assert_eq!(p.purls, vec![s("pkg:cargo/a@1.0")]);
    assert_eq!(p.cpes, vec![s("cpe:/a:vendor:a:1.0")]);
    let q = package_row(&doc.namespace, &doc.packages[1]);
    assert!(q.purls.is_empty());
    assert!(q.cpes.is_empty());
    let e = edge_row(
        &doc.namespace,
        &relation("SPDXRef-B", RelationshipType::DependencyOf, "SPDXRef-A"),
    );
    assert_eq!(e.start, derive_id("https://example.com/sbom-1", "SPDXRef-A"));
    assert_eq!(e.end, derive_id("https://example.com/sbom-1", "SPDXRef-B"));
    assert_eq!(e.kind, RelationshipType::DependsOn);
}

#[test]
fn purl_and_cpe_one_each() {
    let mut g = Graph::new();
    let doc = sample();
    assert!(g.ingest(&doc));
    let row = &g.packages()[0];
    assert_eq!(row.purls.len(), 1);
    assert_eq!(row.cpes.len(), 1);
    assert_eq!(row.purls[0], "pkg:cargo/a@1.0");
    assert_eq!(row.cpes[0], "cpe:/a:vendor:a:1.0");
}

#[test]
fn ingest_counts_rows() {
    let mut g = Graph::new();
    assert!(g.ingest(&sample()));
    assert_eq!(g.documents().len(), 1);
    assert_eq!(g.packages().len(), 3);
    assert_eq!(g.edges().len(), 2);
}

#[test]
fn ingest_twice_is_a_no_op() {
    let mut g = Graph::new();
    assert!(g.ingest(&sample()));
    assert!(!g.ingest(&sample()));
    assert_eq!(g.documents().len(), 1);
    assert_eq!(g.packages().len(), 3);
    assert_eq!(g.edges().len(), 2);
}

#[test]
fn converse_edges_in_one_document_are_one_edge() {
    let mut doc = sample();
    doc.relationships.push(relation("SPDXRef-B", RelationshipType::DependencyOf, "SPDXRef-A"));
    let mut g = Graph::new();
    assert!(g.ingest(&doc));
    assert_eq!(g.edges().len(), 2);
}

#[test]
fn packages_shared_across_documents() {
    let mut g = Graph::new();
    assert!(g.ingest(&sample()));
    let mut other = sample();
    other.spdx_id = s("SPDXRef-OTHER");
    other.name = s("other");
    assert!(g.ingest(&other));
    assert_eq!(g.documents().len(), 2);
    assert_eq!(g.packages().len(), 3);
    assert_eq!(g.edges().len(), 2);
    assert_eq!(g.packages()[0].name, "a");
}

#[test]
fn edges_to_undeclared_ids_are_kept() {
    let mut doc = sample();
    doc.relationships = vec![relation("SPDXRef-A", RelationshipType::Contains, "SPDXRef-NOWHERE")];
    let mut g = Graph::new();
    assert!(g.ingest(&doc));
    assert_eq!(g.edges().len(), 1);
    assert_eq!(g.edges()[0].end, derive_id("https://example.com/sbom-1", "SPDXRef-NOWHERE"));
}

fn licenses(v: &serde_json::Value) -> Vec<Option<String>> {
    v["packages"]
        .as_array()
        .unwrap()
        .iter()
        .map(|p| p["licenseDeclared"].as_str().map(String::from))
        .collect()
}

#[test]
fn invalid_license_is_replaced() {
    let mut v: serde_json::Value = serde_json::from_str(
        r#"{"packages": [{"licenseDeclared": "(MIT OR"}, {"licenseDeclared": "MIT OR Apache-2.0"}, {"name": "x"}]}"#,
    )
    .unwrap();
    assert!(fix_license(&mut v));
    assert_eq!(
        licenses(&v),
        vec![Some(s("NOASSERTION")), Some(s("MIT OR Apache-2.0")), None]
    );
    assert_eq!(v["packages"][2]["name"], "x");
}

#[test]
fn valid_license_is_kept() {
    let mut v: serde_json::Value =
        serde_json::from_str(r#"{"packages": [{"licenseDeclared": "MIT OR Apache-2.0"}]}"#).unwrap();
    let before = v.clone();
    assert!(!fix_license(&mut v));
    assert_eq!(v, before);
}

#[test]
fn license_without_packages() {
    let mut v: serde_json::Value = serde_json::from_str(r#"{"name": "doc"}"#).unwrap();
    let before = v.clone();
    assert!(!fix_license(&mut v));
    assert_eq!(v, before);
}

#[test]
fn replacement_decision() {
    assert_eq!(replacement(&Some(s("(MIT OR")), false), Some(s("NOASSERTION")));
    assert_eq!(replacement(&Some(s("MIT")), true), None);
    assert_eq!(replacement(&None, false), None);
}

#[test]
fn prefix_filter() {
    let all = Cli::new(s("data"), vec![]);
    assert!(all.accepted("anything.bz2"));
    let some = Cli::new(s("data"), vec![s("rhel-"), s("quarkus")]);
    assert!(some.accepted("rhel-9.json.bz2"));
    assert!(some.accepted("quarkus-3.json.bz2"));
    assert!(!some.accepted("openshift.json.bz2"));
    assert!(!some.accepted("rhe"));
}

#[test]
fn candidates_are_bz2() {
    assert!(is_candidate("a.json.bz2"));
    assert!(is_candidate(".bz2"));
    assert!(!is_candidate("a.json"));
    assert!(!is_candidate("bz2"));
    assert!(!is_candidate("a.json.bz2.processed"));
}

#[test]
fn duplicate_namespaces() {
    let mut d = DetectDuplicates::new();
    d.process(s("a/1.bz2"), s("ns-1"));
    d.process(s("a/2.bz2"), s("ns-2"));
    d.process(s("b/1.bz2"), s("ns-1"));
    d.process(s("c/1.bz2"), s("ns-1"));
    let dups = d.dump();
    assert_eq!(dups.len(), 1);
    assert_eq!(dups[0].namespace, "ns-1");
    assert_eq!(dups[0].paths, vec![s("a/1.bz2"), s("b/1.bz2"), s("c/1.bz2")]);
}

#[test]
fn no_duplicates() {
    let mut d = DetectDuplicates::new();
    d.process(s("a/1.bz2"), s("ns-1"));
    d.process(s("a/2.bz2"), s("ns-2"));
    assert!(d.dump().is_empty());
}
