//! Selection of the input files to ingest.

use vstd::prelude::*;

verus! {

/// Whether `p` is a prefix of `s`.
pub open spec fn is_prefix(p: Seq<char>, s: Seq<char>) -> bool {
    p.len() <= s.len() && s.subrange(0, p.len() as int) == p
}

/// Whether `p` is a suffix of `s`.
pub open spec fn is_suffix(p: Seq<char>, s: Seq<char>) -> bool {
    p.len() <= s.len() && s.subrange(s.len() - p.len(), s.len() as int) == p
}

/// The extension of the compressed documents that are candidates for ingestion.
pub open spec fn archive_suffix() -> Seq<char> {
    ".bz2"@
}

/// Whether the text of `s` starting at `offset` begins with `p`.
fn matches_at(s: &str, offset: usize, p: &str) -> (r: bool)
    requires
        offset <= s@.len(),
    ensures
        r == (offset + p@.len() <= s@.len() && s@.subrange(offset as int, offset + p@.len()) == p@),
{
    let n = s.unicode_len();
    let m = p.unicode_len();
    if m > n - offset {
        return false;
    }
    let mut i: usize = 0;
    while i < m
        invariant
            n == s@.len(),
            m == p@.len(),
            offset + m <= n,
            i <= m,
            forall|k: int| 0 <= k < i ==> s@[offset + k] == p@[k],
        decreases m - i,
    {
        if s.get_char(offset + i) != p.get_char(i) {
            assert(s@.subrange(offset as int, offset + m)[i as int] != p@[i as int]);
            return false;
        }
        i = i + 1;
    }
    assert(s@.subrange(offset as int, offset + m) =~= p@);
    true
}

/// Whether `s` begins with `p`.
pub fn starts_with(s: &str, p: &str) -> (r: bool)
    ensures
        r == is_prefix(p@, s@),
{
    matches_at(s, 0, p)
}

/// Whether `s` ends with `p`.
pub fn ends_with(s: &str, p: &str) -> (r: bool)
    ensures
        r == is_suffix(p@, s@),
{
    let n = s.unicode_len();
    let m = p.unicode_len();
    if m > n {
        return false;
    }
    matches_at(s, n - m, p)
}

/// Whether a file of this name is a compressed document, a candidate for ingestion.
pub fn is_candidate(file_name: &str) -> (r: bool)
    ensures
        r == is_suffix(archive_suffix(), file_name@),
{
    ends_with(file_name, ".bz2")
}

/// The configuration of a run: the directory to walk and the file-name prefixes
/// that select the files to ingest (all files where there are none).
pub struct Cli {
    pub root: String,
    pub prefix: Vec<String>,
}

impl Cli {
    pub fn new(root: String, prefix: Vec<String>) -> (r: Cli)
        ensures
            r.root == root,
            r.prefix == prefix,
    {
        Cli { root, prefix }
    }

    /// Whether the file of this name is selected: there is no prefix, or it begins
    /// with one of them.
    pub fn accepted(&self, file_name: &str) -> (r: bool)
        ensures
            r == (self.prefix@.len() == 0 || exists|i: int|
                0 <= i < self.prefix@.len() && is_prefix(#[trigger] self.prefix@[i]@, file_name@)),
    {
        if self.prefix.len() == 0 {
            return true;
        }
        let mut i: usize = 0;
        while i < self.prefix.len()
            invariant
                i <= self.prefix.len(),
                forall|k: int| 0 <= k < i ==> !is_prefix(#[trigger] self.prefix@[k]@, file_name@),
            decreases self.prefix.len() - i,
        {
            if starts_with(file_name, self.prefix[i].as_str()) {
                return true;
            }
            i = i + 1;
        }
        false
    }
}

} // verus!
