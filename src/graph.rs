//! The document model handed to ingestion, the rows it produces, and an
//! in-memory property graph that applies the transactional ingestion protocol.

use crate::key::{identity_of, derive_id};
use crate::rel::{canonical, canonicalize, RelationshipType};
use vstd::prelude::*;

verus! {

/// An external reference of a package: its kind (`purl`, `cpe22Type`, ...) and locator.
#[derive(Clone, Debug)]
pub struct ExternalReference {
    pub reference_type: String,
    pub reference_locator: String,
}

/// A package declared by a document.
#[derive(Clone, Debug)]
pub struct Package {
    pub spdx_id: String,
    pub name: String,
    pub external_references: Vec<ExternalReference>,
}

/// A relationship declared by a document, between two of its local ids.
#[derive(Clone, Debug)]
pub struct Relation {
    pub source: String,
    pub kind: RelationshipType,
    pub target: String,
}

/// A parsed SBOM document.
#[derive(Clone, Debug)]
pub struct Document {
    pub spdx_id: String,
    pub namespace: String,
    pub name: String,
    pub packages: Vec<Package>,
    pub relationships: Vec<Relation>,
}

/// The row of a document node.
#[derive(Clone, Debug)]
pub struct DocumentRow {
    pub uid: u128,
    pub id: String,
    pub namespace: String,
    pub name: String,
}

/// The row of a package node, with the CPEs and package URLs of its external references.
#[derive(Clone, Debug)]
pub struct PackageRow {
    pub uid: u128,
    pub id: String,
    pub namespace: String,
    pub name: String,
    pub purls: Vec<String>,
    pub cpes: Vec<String>,
}

/// The row of a canonical edge; it is unique on all three fields.
#[derive(Clone, Copy, Debug, PartialEq, Eq, Structural)]
pub struct EdgeRow {
    pub start: u128,
    pub end: u128,
    pub kind: RelationshipType,
}

pub struct DocumentRowView {
    pub uid: u128,
    pub id: Seq<char>,
    pub namespace: Seq<char>,
    pub name: Seq<char>,
}

pub struct PackageRowView {
    pub uid: u128,
    pub id: Seq<char>,
    pub namespace: Seq<char>,
    pub name: Seq<char>,
    pub purls: Seq<Seq<char>>,
    pub cpes: Seq<Seq<char>>,
}

pub open spec fn strings_view(v: Seq<String>) -> Seq<Seq<char>> {
    v.map_values(|s: String| s@)
}

impl View for DocumentRow {
    type V = DocumentRowView;

    open spec fn view(&self) -> DocumentRowView {
        DocumentRowView { uid: self.uid, id: self.id@, namespace: self.namespace@, name: self.name@ }
    }
}

impl View for PackageRow {
    type V = PackageRowView;

    open spec fn view(&self) -> PackageRowView {
        PackageRowView {
            uid: self.uid,
            id: self.id@,
            namespace: self.namespace@,
            name: self.name@,
            purls: strings_view(self.purls@),
            cpes: strings_view(self.cpes@),
        }
    }
}

/// The locators of the references of kind `kind`, in their order.
pub open spec fn locators_of(refs: Seq<ExternalReference>, kind: Seq<char>) -> Seq<Seq<char>>
    decreases refs.len(),
{
    if refs.len() == 0 {
        seq![]
    } else {
        let rest = locators_of(refs.drop_last(), kind);
        if refs.last().reference_type@ == kind {
            rest.push(refs.last().reference_locator@)
        } else {
            rest
        }
    }
}

pub open spec fn purl_kind() -> Seq<char> {
    "purl"@
}

pub open spec fn cpe_kind() -> Seq<char> {
    "cpe22Type"@
}

pub open spec fn document_row_of(doc: Document) -> DocumentRowView {
    DocumentRowView {
        uid: identity_of(doc.namespace@, doc.spdx_id@),
        id: doc.spdx_id@,
        namespace: doc.namespace@,
        name: doc.name@,
    }
}

pub open spec fn package_row_of(namespace: Seq<char>, p: Package) -> PackageRowView {
    PackageRowView {
        uid: identity_of(namespace, p.spdx_id@),
        id: p.spdx_id@,
        namespace,
        name: p.name@,
        purls: locators_of(p.external_references@, purl_kind()),
        cpes: locators_of(p.external_references@, cpe_kind()),
    }
}

/// The edge of a relationship: its canonical triple, with both endpoints resolved
/// in the document's namespace.
pub open spec fn edge_row_of(namespace: Seq<char>, r: Relation) -> EdgeRow {
    let c = canonical(r.source@, r.kind, r.target@);
    EdgeRow { start: identity_of(namespace, c.0), end: identity_of(namespace, c.2), kind: c.1 }
}

pub open spec fn package_rows_of(namespace: Seq<char>, ps: Seq<Package>) -> Seq<PackageRowView> {
    ps.map_values(|p: Package| package_row_of(namespace, p))
}

pub open spec fn edge_rows_of(namespace: Seq<char>, rs: Seq<Relation>) -> Seq<EdgeRow> {
    rs.map_values(|r: Relation| edge_row_of(namespace, r))
}

/// The row of a document node.
pub fn document_row(doc: &Document) -> (r: DocumentRow)
    ensures
        r@ == document_row_of(*doc),
{
    DocumentRow {
        uid: derive_id(doc.namespace.as_str(), doc.spdx_id.as_str()),
        id: doc.spdx_id.clone(),
        namespace: doc.namespace.clone(),
        name: doc.name.clone(),
    }
}

/// The locators of the references of kind `kind`.
pub fn locators(refs: &Vec<ExternalReference>, kind: &String) -> (r: Vec<String>)
    ensures
        strings_view(r@) == locators_of(refs@, kind@),
{
    let mut r: Vec<String> = Vec::new();
    let mut i: usize = 0;
    while i < refs.len()
        invariant
            i <= refs.len(),
            strings_view(r@) == locators_of(refs@.subrange(0, i as int), kind@),
        decreases refs.len() - i,
    {
        let ghost before = r@;
        assert(refs@.subrange(0, i + 1).drop_last() =~= refs@.subrange(0, i as int));
        if refs[i].reference_type == *kind {
            r.push(refs[i].reference_locator.clone());
            assert(strings_view(r@) =~= strings_view(before).push(refs@[i as int].reference_locator@));
        }
        i = i + 1;
    }
    assert(refs@.subrange(0, refs.len() as int) =~= refs@);
    r
}

/// The row of a package declared under `namespace`.
pub fn package_row(namespace: &String, p: &Package) -> (r: PackageRow)
    ensures
        r@ == package_row_of(namespace@, *p),
{
    let purl = String::from_str("purl");
    let cpe = String::from_str("cpe22Type");
    PackageRow {
        uid: derive_id(namespace.as_str(), p.spdx_id.as_str()),
        id: p.spdx_id.clone(),
        namespace: namespace.clone(),
        name: p.name.clone(),
        purls: locators(&p.external_references, &purl),
        cpes: locators(&p.external_references, &cpe),
    }
}

/// The canonical edge of a relationship declared under `namespace`.
pub fn edge_row(namespace: &String, r: &Relation) -> (e: EdgeRow)
    ensures
        e == edge_row_of(namespace@, *r),
{
    let (a, kind, b) = canonicalize(r.source.clone(), r.kind, r.target.clone());
    EdgeRow {
        start: derive_id(namespace.as_str(), a.as_str()),
        end: derive_id(namespace.as_str(), b.as_str()),
        kind,
    }
}


/// What the store holds: its three tables, in the order the rows were inserted.
pub struct GraphView {
    pub documents: Seq<DocumentRowView>,
    pub packages: Seq<PackageRowView>,
    pub edges: Seq<EdgeRow>,
}

pub open spec fn has_document(rows: Seq<DocumentRowView>, uid: u128) -> bool {
    exists|j: int| 0 <= j < rows.len() && #[trigger] rows[j].uid == uid
}

pub open spec fn has_package(rows: Seq<PackageRowView>, uid: u128) -> bool {
    exists|j: int| 0 <= j < rows.len() && #[trigger] rows[j].uid == uid
}

/// A conflict-free insert of a package row: a no-op where its identifier is taken.
pub open spec fn insert_package(rows: Seq<PackageRowView>, row: PackageRowView) -> Seq<PackageRowView> {
    if has_package(rows, row.uid) {
        rows
    } else {
        rows.push(row)
    }
}

/// A conflict-free insert of an edge row: a no-op where the same triple is present.
pub open spec fn insert_edge(rows: Seq<EdgeRow>, row: EdgeRow) -> Seq<EdgeRow> {
    if rows.contains(row) {
        rows
    } else {
        rows.push(row)
    }
}

pub open spec fn insert_packages(rows: Seq<PackageRowView>, new: Seq<PackageRowView>) -> Seq<PackageRowView>
    decreases new.len(),
{
    if new.len() == 0 {
        rows
    } else {
        insert_package(insert_packages(rows, new.drop_last()), new.last())
    }
}

pub open spec fn insert_edges(rows: Seq<EdgeRow>, new: Seq<EdgeRow>) -> Seq<EdgeRow>
    decreases new.len(),
{
    if new.len() == 0 {
        rows
    } else {
        insert_edge(insert_edges(rows, new.drop_last()), new.last())
    }
}

/// The store after one document is ingested into `g` in a single transaction:
/// unchanged where the document is already present; else the document row, then
/// each package row, then each canonical edge, every one inserted conflict-free.
pub open spec fn ingested(g: GraphView, doc: Document) -> GraphView {
    let d = document_row_of(doc);
    if has_document(g.documents, d.uid) {
        g
    } else {
        GraphView {
            documents: g.documents.push(d),
            packages: insert_packages(g.packages, package_rows_of(doc.namespace@, doc.packages@)),
            edges: insert_edges(g.edges, edge_rows_of(doc.namespace@, doc.relationships@)),
        }
    }
}

/// No two document rows share an identifier.
pub open spec fn unique_documents(rows: Seq<DocumentRowView>) -> bool {
    forall|i: int, j: int| 0 <= i < j < rows.len() ==> #[trigger] rows[i].uid != #[trigger] rows[j].uid
}

/// No two package rows share an identifier.
pub open spec fn unique_packages(rows: Seq<PackageRowView>) -> bool {
    forall|i: int, j: int| 0 <= i < j < rows.len() ==> #[trigger] rows[i].uid != #[trigger] rows[j].uid
}

/// No edge triple occurs twice.
pub open spec fn unique_edges(rows: Seq<EdgeRow>) -> bool {
    forall|i: int, j: int| 0 <= i < j < rows.len() ==> #[trigger] rows[i] != #[trigger] rows[j]
}

/// An in-memory property graph of documents, packages and edges.
pub struct Graph {
    documents: Vec<DocumentRow>,
    packages: Vec<PackageRow>,
    edges: Vec<EdgeRow>,
}

impl View for Graph {
    type V = GraphView;

    closed spec fn view(&self) -> GraphView {
        GraphView {
            documents: self.documents@.map_values(|r: DocumentRow| r@),
            packages: self.packages@.map_values(|r: PackageRow| r@),
            edges: self.edges@,
        }
    }
}

impl Graph {
    /// The uniqueness constraints of the three tables.
    pub open spec fn wf(&self) -> bool {
        unique_documents(self@.documents) && unique_packages(self@.packages) && unique_edges(
            self@.edges,
        )
    }

    /// An empty graph.
    pub fn new() -> (g: Graph)
        ensures
            g.wf(),
            g@.documents.len() == 0,
            g@.packages.len() == 0,
            g@.edges.len() == 0,
    {
        Graph { documents: Vec::new(), packages: Vec::new(), edges: Vec::new() }
    }

    pub fn documents(&self) -> (r: &Vec<DocumentRow>)
        ensures
            r@.map_values(|d: DocumentRow| d@) == self@.documents,
    {
        &self.documents
    }

    pub fn packages(&self) -> (r: &Vec<PackageRow>)
        ensures
            r@.map_values(|p: PackageRow| p@) == self@.packages,
    {
        &self.packages
    }

    pub fn edges(&self) -> (r: &Vec<EdgeRow>)
        ensures
            r@ == self@.edges,
    {
        &self.edges
    }

    fn contains_document(&self, uid: u128) -> (r: bool)
        ensures
            r == has_document(self@.documents, uid),
    {
        let mut j: usize = 0;
        while j < self.documents.len()
            invariant
                j <= self.documents.len(),
                forall|k: int| 0 <= k < j ==> self@.documents[k].uid != uid,
            decreases self.documents.len() - j,
        {
            if self.documents[j].uid == uid {
                assert(self@.documents[j as int].uid == uid);
                return true;
            }
            j = j + 1;
        }
        false
    }

    fn contains_package(&self, uid: u128) -> (r: bool)
        ensures
            r == has_package(self@.packages, uid),
    {
        let mut j: usize = 0;
        while j < self.packages.len()
            invariant
                j <= self.packages.len(),
                forall|k: int| 0 <= k < j ==> self@.packages[k].uid != uid,
            decreases self.packages.len() - j,
        {
            if self.packages[j].uid == uid {
                assert(self@.packages[j as int].uid == uid);
                return true;
            }
            j = j + 1;
        }
        false
    }

    fn contains_edge(&self, e: EdgeRow) -> (r: bool)
        ensures
            r == self@.edges.contains(e),
    {
        let mut j: usize = 0;
        while j < self.edges.len()
            invariant
                j <= self.edges.len(),
                forall|k: int| 0 <= k < j ==> self@.edges[k] != e,
            decreases self.edges.len() - j,
        {
            if self.edges[j] == e {
                assert(self@.edges[j as int] == e);
                return true;
            }
            j = j + 1;
        }
        false
    }

    /// Conflict-free insert of a package row; returns the number of rows inserted.
    pub fn insert_package(&mut self, row: PackageRow) -> (n: u64)
        requires
            old(self).wf(),
        ensures
            final(self).wf(),
            final(self)@.packages == insert_package(old(self)@.packages, row@),
            final(self)@.documents == old(self)@.documents,
            final(self)@.edges == old(self)@.edges,
            n == (if has_package(old(self)@.packages, row.uid) { 0u64 } else { 1u64 }),
    {
        if self.contains_package(row.uid) {
            0
        } else {
            let ghost before = self.packages@;
            self.packages.push(row);
            assert(self.packages@.map_values(|r: PackageRow| r@) =~= before.map_values(
                |r: PackageRow| r@,
            ).push(row@));
            assert forall|i: int, j: int| 0 <= i < j < self@.packages.len() implies #[trigger] self@.packages[i].uid
                != #[trigger] self@.packages[j].uid by {
                if j == self@.packages.len() - 1 {
                    assert(self@.packages[i] == before.map_values(|r: PackageRow| r@)[i]);
                } else {
                    assert(self@.packages[i] == before.map_values(|r: PackageRow| r@)[i]);
                    assert(self@.packages[j] == before.map_values(|r: PackageRow| r@)[j]);
                }
            }
            1
        }
    }

    /// Conflict-free insert of an edge row; returns the number of rows inserted.
    pub fn insert_edge(&mut self, row: EdgeRow) -> (n: u64)
        requires
            old(self).wf(),
        ensures
            final(self).wf(),
            final(self)@.edges == insert_edge(old(self)@.edges, row),
            final(self)@.documents == old(self)@.documents,
            final(self)@.packages == old(self)@.packages,
            n == (if old(self)@.edges.contains(row) { 0u64 } else { 1u64 }),
    {
        if self.contains_edge(row) {
            0
        } else {
            let ghost before = self.edges@;
            self.edges.push(row);
            assert forall|i: int, j: int| 0 <= i < j < self@.edges.len() implies #[trigger] self@.edges[i]
                != #[trigger] self@.edges[j] by {
                assert(self@.edges[i] == before[i]);
                if j < before.len() {
                    assert(self@.edges[j] == before[j]);
                } else {
                    assert(!before.contains(row));
                }
            }
            1
        }
    }

    /// Ingests one document as a unit: where its identifier is already present
    /// nothing is inserted and `false` is returned; else its row, its packages and
    /// its canonical edges are inserted, each conflict-free, and `true` is returned.
    pub fn ingest(&mut self, doc: &Document) -> (inserted: bool)
        requires
            old(self).wf(),
        ensures
            final(self).wf(),
            final(self)@ == ingested(old(self)@, *doc),
            inserted == !has_document(old(self)@.documents, document_row_of(*doc).uid),
    {
        let row = document_row(doc);
        if self.contains_document(row.uid) {
            return false;
        }
        let ghost g0 = self@;
        let ghost ns = doc.namespace@;
        let ghost before = self.documents@;
        self.documents.push(row);
        assert(self.documents@.map_values(|r: DocumentRow| r@) =~= before.map_values(
            |r: DocumentRow| r@,
        ).push(row@));
        assert forall|a: int, b: int| 0 <= a < b < self@.documents.len() implies #[trigger] self@.documents[a].uid
            != #[trigger] self@.documents[b].uid by {
            assert(self@.documents[a] == g0.documents[a]);
            if b < g0.documents.len() {
                assert(self@.documents[b] == g0.documents[b]);
            }
        }
        let mut i: usize = 0;
        while i < doc.packages.len()
            invariant
                i <= doc.packages.len(),
                ns == doc.namespace@,
                self.wf(),
                self@.documents == g0.documents.push(document_row_of(*doc)),
                self@.edges == g0.edges,
                self@.packages == insert_packages(
                    g0.packages,
                    package_rows_of(ns, doc.packages@.subrange(0, i as int)),
                ),
            decreases doc.packages.len() - i,
        {
            let p = package_row(&doc.namespace, &doc.packages[i]);
            assert(package_rows_of(ns, doc.packages@.subrange(0, i + 1)).drop_last()
                =~= package_rows_of(ns, doc.packages@.subrange(0, i as int)));
            self.insert_package(p);
            i = i + 1;
        }
        assert(doc.packages@.subrange(0, doc.packages.len() as int) =~= doc.packages@);
        let mut k: usize = 0;
        while k < doc.relationships.len()
            invariant
                k <= doc.relationships.len(),
                ns == doc.namespace@,
                self.wf(),
                self@.documents == g0.documents.push(document_row_of(*doc)),
                self@.packages == insert_packages(g0.packages, package_rows_of(ns, doc.packages@)),
                self@.edges == insert_edges(
                    g0.edges,
                    edge_rows_of(ns, doc.relationships@.subrange(0, k as int)),
                ),
            decreases doc.relationships.len() - k,
        {
            let e = edge_row(&doc.namespace, &doc.relationships[k]);
            assert(edge_rows_of(ns, doc.relationships@.subrange(0, k + 1)).drop_last()
                =~= edge_rows_of(ns, doc.relationships@.subrange(0, k as int)));
            self.insert_edge(e);
            k = k + 1;
        }
        assert(doc.relationships@.subrange(0, doc.relationships.len() as int)
            =~= doc.relationships@);
        true
    }
}


/// Conflict-free inserts of rows whose identifiers are all new and pairwise
/// distinct append every one of them.
pub proof fn lemma_insert_packages_fresh(rows: Seq<PackageRowView>, new: Seq<PackageRowView>)
    requires
        forall|i: int| 0 <= i < new.len() ==> !has_package(rows, #[trigger] new[i].uid),
        forall|i: int, j: int| 0 <= i < j < new.len() ==> new[i].uid != new[j].uid,
    ensures
        insert_packages(rows, new) == rows + new,
    decreases new.len(),
{
    if new.len() > 0 {
        let init = new.drop_last();
        lemma_insert_packages_fresh(rows, init);
        let last = new.last();
        assert(!has_package(rows, new[new.len() - 1].uid));
        assert forall|j: int| 0 <= j < (rows + init).len() implies (rows + init)[j].uid
            != last.uid by {
            if j >= rows.len() {
                assert((rows + init)[j] == new[j - rows.len()]);
            } else {
                assert((rows + init)[j] == rows[j]);
            }
        }
        assert((rows + init).push(last) =~= rows + new);
    }
}

/// Conflict-free inserts of edges that are all new and pairwise distinct append
/// every one of them.
pub proof fn lemma_insert_edges_fresh(rows: Seq<EdgeRow>, new: Seq<EdgeRow>)
    requires
        forall|i: int| 0 <= i < new.len() ==> !rows.contains(#[trigger] new[i]),
        forall|i: int, j: int| 0 <= i < j < new.len() ==> new[i] != new[j],
    ensures
        insert_edges(rows, new) == rows + new,
    decreases new.len(),
{
    if new.len() > 0 {
        let init = new.drop_last();
        lemma_insert_edges_fresh(rows, init);
        let last = new.last();
        assert(!rows.contains(new[new.len() - 1]));
        assert forall|j: int| 0 <= j < (rows + init).len() implies (rows + init)[j]
            != last by {
            if j >= rows.len() {
                assert((rows + init)[j] == new[j - rows.len()]);
            } else {
                assert((rows + init)[j] == rows[j]);
            }
        }
        assert((rows + init).push(last) =~= rows + new);
    }
}

/// Ingesting the same document twice leaves the store as ingesting it once: the
/// second time the document is found and nothing is inserted.
pub proof fn lemma_ingest_twice(g: GraphView, doc: Document)
    ensures
        has_document(ingested(g, doc).documents, document_row_of(doc).uid),
        ingested(ingested(g, doc), doc) == ingested(g, doc),
{
    let once = ingested(g, doc);
    if !has_document(g.documents, document_row_of(doc).uid) {
        assert(once.documents[g.documents.len() as int].uid == document_row_of(doc).uid);
    }
}

/// A document with N packages and M relationships, none of them already in the
/// store and none repeated within the document, adds exactly one document row,
/// N package rows and M edge rows.
pub proof fn lemma_ingest_counts(g: GraphView, doc: Document)
    requires
        !has_document(g.documents, document_row_of(doc).uid),
        forall|i: int|
            0 <= i < doc.packages.len() ==> !has_package(
                g.packages,
                #[trigger] identity_of(doc.namespace@, doc.packages@[i].spdx_id@),
            ),
        forall|i: int, j: int|
            0 <= i < j < doc.packages.len() ==> identity_of(doc.namespace@, doc.packages@[i].spdx_id@)
                != identity_of(doc.namespace@, doc.packages@[j].spdx_id@),
        forall|i: int|
            0 <= i < doc.relationships.len() ==> !g.edges.contains(
                #[trigger] edge_row_of(doc.namespace@, doc.relationships@[i]),
            ),
        forall|i: int, j: int|
            0 <= i < j < doc.relationships.len() ==> edge_row_of(
                doc.namespace@,
                doc.relationships@[i],
            ) != edge_row_of(doc.namespace@, doc.relationships@[j]),
    ensures
        ingested(g, doc).documents.len() == g.documents.len() + 1,
        ingested(g, doc).packages.len() == g.packages.len() + doc.packages.len(),
        ingested(g, doc).edges.len() == g.edges.len() + doc.relationships.len(),
        ingested(g, doc).packages == g.packages + package_rows_of(doc.namespace@, doc.packages@),
        ingested(g, doc).edges == g.edges + edge_rows_of(doc.namespace@, doc.relationships@),
{
    let ns = doc.namespace@;
    let ps = package_rows_of(ns, doc.packages@);
    let es = edge_rows_of(ns, doc.relationships@);
    assert forall|i: int| 0 <= i < ps.len() implies !has_package(g.packages, #[trigger] ps[i].uid) by {
        assert(ps[i].uid == identity_of(ns, doc.packages@[i].spdx_id@));
    }
    assert forall|i: int, j: int| 0 <= i < j < ps.len() implies ps[i].uid != ps[j].uid by {
        assert(ps[i].uid == identity_of(ns, doc.packages@[i].spdx_id@));
        assert(ps[j].uid == identity_of(ns, doc.packages@[j].spdx_id@));
    }
    lemma_insert_packages_fresh(g.packages, ps);
    assert forall|i: int| 0 <= i < es.len() implies !g.edges.contains(#[trigger] es[i]) by {
        assert(es[i] == edge_row_of(ns, doc.relationships@[i]));
    }
    assert forall|i: int, j: int| 0 <= i < j < es.len() implies es[i] != es[j] by {
        assert(es[i] == edge_row_of(ns, doc.relationships@[i]));
        assert(es[j] == edge_row_of(ns, doc.relationships@[j]));
    }
    lemma_insert_edges_fresh(g.edges, es);
}

} // verus!
