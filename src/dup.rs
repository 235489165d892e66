//! Detection of one document namespace declared by several input files.

use vstd::prelude::*;

verus! {

/// A document namespace and the paths of the files that declared it, in the order
/// they were seen.
pub struct NamespaceSources {
    pub namespace: String,
    pub paths: Vec<String>,
}

pub open spec fn sources_view(e: NamespaceSources) -> (Seq<char>, Seq<Seq<char>>) {
    (e.namespace@, e.paths@.map_values(|p: String| p@))
}

pub open spec fn entries_view(s: Seq<NamespaceSources>) -> Seq<(Seq<char>, Seq<Seq<char>>)> {
    s.map_values(|e: NamespaceSources| sources_view(e))
}

/// The entries seen from more than one path, in order.
pub open spec fn duplicates_of(entries: Seq<(Seq<char>, Seq<Seq<char>>)>) -> Seq<
    (Seq<char>, Seq<Seq<char>>),
>
    decreases entries.len(),
{
    if entries.len() == 0 {
        seq![]
    } else {
        let rest = duplicates_of(entries.drop_last());
        if entries.last().1.len() > 1 {
            rest.push(entries.last())
        } else {
            rest
        }
    }
}

/// `after` is `before` with `path` recorded for `namespace`: appended to the
/// paths of its entry, or as a new entry at the end where it has none.
pub open spec fn recorded(
    before: Seq<(Seq<char>, Seq<Seq<char>>)>,
    after: Seq<(Seq<char>, Seq<Seq<char>>)>,
    namespace: Seq<char>,
    path: Seq<char>,
) -> bool {
    if exists|j: int| 0 <= j < before.len() && #[trigger] before[j].0 == namespace {
        exists|j: int|
            0 <= j < before.len() && #[trigger] before[j].0 == namespace && after == before.update(
                j,
                (namespace, before[j].1.push(path)),
            )
    } else {
        after == before.push((namespace, seq![path]))
    }
}

/// Records, per document namespace, every path that declared it.
pub struct DetectDuplicates {
    entries: Vec<NamespaceSources>,
}

impl View for DetectDuplicates {
    type V = Seq<(Seq<char>, Seq<Seq<char>>)>;

    closed spec fn view(&self) -> Seq<(Seq<char>, Seq<Seq<char>>)> {
        entries_view(self.entries@)
    }
}

impl DetectDuplicates {
    /// Each namespace has one entry.
    pub open spec fn wf(&self) -> bool {
        forall|i: int, j: int|
            0 <= i < j < self@.len() ==> #[trigger] self@[i].0 != #[trigger] self@[j].0
    }

    pub fn new() -> (r: DetectDuplicates)
        ensures
            r.wf(),
            r@.len() == 0,
    {
        DetectDuplicates { entries: Vec::new() }
    }

    /// Records that the file at `path` declared `namespace`: the path is appended
    /// to the namespace's entry, or a new entry is appended where there is none.
    pub fn process(&mut self, path: String, namespace: String)
        requires
            old(self).wf(),
        ensures
            final(self).wf(),
            recorded(old(self)@, final(self)@, namespace@, path@),
    {
        let ghost before = self@;
        let mut j: usize = 0;
        while j < self.entries.len()
            invariant
                j <= self.entries.len(),
                self@ == before,
                before == old(self)@,
                self.wf(),
                forall|k: int| 0 <= k < j ==> #[trigger] self@[k].0 != namespace@,
            decreases self.entries.len() - j,
        {
            if self.entries[j].namespace == namespace {
                let mut e = self.entries.remove(j);
                let ghost paths0 = e.paths@;
                e.paths.push(path);
                assert(e.paths@.map_values(|p: String| p@) =~= paths0.map_values(
                    |p: String| p@,
                ).push(path@));
                self.entries.insert(j, e);
                assert(self@ =~= before.update(j as int, (namespace@, before[j as int].1.push(path@))));
                assert(before[j as int].0 == namespace@);

                assert forall|a: int, b: int| 0 <= a < b < self@.len() implies #[trigger] self@[a].0
                    != #[trigger] self@[b].0 by {
                    assert(self@[a].0 == before[a].0);
                    assert(self@[b].0 == before[b].0);
                }
                return;
            }
            j = j + 1;
        }
        let mut paths: Vec<String> = Vec::new();
        paths.push(path);
        assert(paths@.map_values(|p: String| p@) =~= seq![path@]);
        self.entries.push(NamespaceSources { namespace, paths });
        assert(self@ =~= before.push((namespace@, seq![path@])));
        assert forall|a: int, b: int| 0 <= a < b < self@.len() implies #[trigger] self@[a].0
            != #[trigger] self@[b].0 by {
            assert(self@[a].0 == before[a].0);
            if b < before.len() {
                assert(self@[b].0 == before[b].0);
            }
        }
    }

    /// The namespaces that were declared from more than one path, each with its
    /// paths, in the order they were first seen.
    pub fn dump(self) -> (r: Vec<NamespaceSources>)
        ensures
            entries_view(r@) == duplicates_of(self@),
    {
        let ghost all = self@;
        let mut entries = self.entries;
        let ghost n = entries@.len();
        let mut r: Vec<NamespaceSources> = Vec::new();
        while entries.len() > 0
            invariant
                entries@.len() <= n,
                all.len() == n,
                entries_view(entries@) == all.subrange(
                    n - entries@.len(),
                    n as int,
                ),
                entries_view(r@) == duplicates_of(
                    all.subrange(0, n - entries@.len()),
                ),
            decreases entries.len(),
        {
            let ghost i = n - entries@.len();
            let ghost rest = entries@;
            let ghost r0 = r@;
            let e = entries.remove(0);
            assert(sources_view(e) == all[i]) by {
                assert(entries_view(rest)[0] == all.subrange(i, n as int)[0]);
            }
            assert(entries_view(entries@) =~= all.subrange(
                i + 1,
                n as int,
            )) by {
                assert forall|k: int| 0 <= k < entries@.len() implies entries_view(entries@)[k] == all.subrange(i + 1, n as int)[k] by {
                    assert(#[trigger] entries@[k] == rest[k + 1]);
                    assert(entries_view(rest)[k + 1] == all.subrange(i, n as int)[k + 1]);
                }
            }
            assert(all.subrange(0, i + 1).drop_last() =~= all.subrange(0, i));
            if e.paths.len() > 1 {
                r.push(e);
                assert(entries_view(r@) =~= entries_view(r0).push(all[i]));
            }
        }
        assert(all.subrange(0, n as int) =~= all);
        r
    }
}

} // verus!
