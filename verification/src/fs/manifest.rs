//! Building a manifest from the sources a user picked: single files, and directories
//! walked in file-name order.
use vstd::prelude::*;

use crate::fs::paths::{file_name_of, path_file_name};
use crate::ids::new_id;
use crate::protocol::messages::{total_size, FileEntry, Manifest};
use crate::text::{backslashes_to_slashes, contains_double_dot, has_double_dot, replace_backslashes};

verus! {

/// Why a manifest could not be built.
#[derive(Debug)]
pub enum ManifestError {
    /// A path holds `..`; the path is given.
    PathTraversal(String),
}

/// One entry found walking a directory: its path relative to the directory's parent,
/// whether it is a directory, and its size in bytes.
#[derive(Debug, Clone)]
pub struct WalkedEntry {
    pub rel_path: String,
    pub is_dir: bool,
    pub size: u64,
}

/// What one source path turned out to be.
#[derive(Debug, Clone)]
pub enum SourceItem {
    /// A file, with its file name and size.
    File { name: String, size: u64 },
    /// A directory, with everything a walk of it found (itself first), in order.
    Dir { entries: Vec<WalkedEntry> },
    /// Neither a file nor a directory: it contributes nothing.
    Other,
}

/// The path, size and kind of a manifest entry.
pub struct EntrySpec {
    pub path: Seq<char>,
    pub size: u64,
    pub is_dir: bool,
}

/// The manifest entry of a walked entry: its path with `/` separators; directories count 0 bytes.
pub open spec fn walked_spec(e: WalkedEntry) -> EntrySpec {
    EntrySpec {
        path: backslashes_to_slashes(e.rel_path@),
        size: if e.is_dir {
            0
        } else {
            e.size
        },
        is_dir: e.is_dir,
    }
}

/// The manifest entries of one source.
pub open spec fn item_specs(it: SourceItem) -> Seq<EntrySpec> {
    match it {
        SourceItem::File { name, size } => seq![EntrySpec { path: name@, size, is_dir: false }],
        SourceItem::Dir { entries } => entries@.map_values(|e: WalkedEntry| walked_spec(e)),
        SourceItem::Other => Seq::empty(),
    }
}

/// The manifest entries of a list of sources, in order.
pub open spec fn all_specs(items: Seq<SourceItem>) -> Seq<EntrySpec>
    decreases items.len(),
{
    if items.len() == 0 {
        Seq::empty()
    } else {
        all_specs(items.drop_last()) + item_specs(items.last())
    }
}

/// The bytes that a list of manifest entries counts.
pub open spec fn specs_bytes(s: Seq<EntrySpec>) -> nat
    decreases s.len(),
{
    if s.len() == 0 {
        0
    } else {
        specs_bytes(s.drop_last()) + s.last().size as nat
    }
}

/// A source is a directory of which some walked path holds `..`.
pub open spec fn item_traverses(it: SourceItem) -> bool {
    match it {
        SourceItem::Dir { entries } => exists|j: int|
            0 <= j < entries@.len() && has_double_dot(#[trigger] entries@[j].rel_path@),
        _ => false,
    }
}

/// Some source is a directory of which some walked path holds `..`.
pub open spec fn any_traverses(items: Seq<SourceItem>) -> bool {
    exists|i: int| 0 <= i < items.len() && item_traverses(#[trigger] items[i])
}

/// `files` lists exactly the entries `specs` describes, in order.
pub open spec fn files_match(files: Seq<FileEntry>, specs: Seq<EntrySpec>) -> bool {
    files.len() == specs.len() && forall|i: int|
        0 <= i < files.len() ==> {
            &&& (#[trigger] files[i]).relative_path@ == specs[i].path
            &&& files[i].size == specs[i].size
            &&& files[i].is_dir == specs[i].is_dir
        }
}

proof fn lemma_files_match_append(
    a: Seq<FileEntry>,
    sa: Seq<EntrySpec>,
    b: Seq<FileEntry>,
    sb: Seq<EntrySpec>,
)
    requires
        files_match(a, sa),
        files_match(b, sb),
    ensures
        files_match(a + b, sa + sb),
{
    assert forall|i: int| 0 <= i < (a + b).len() implies {
        &&& (#[trigger] (a + b)[i]).relative_path@ == (sa + sb)[i].path
        &&& (a + b)[i].size == (sa + sb)[i].size
        &&& (a + b)[i].is_dir == (sa + sb)[i].is_dir
    } by {
        if i < a.len() {
            assert((a + b)[i] == a[i]);
        } else {
            assert((a + b)[i] == b[i - a.len()]);
        }
    }
}

proof fn lemma_specs_bytes_append(a: Seq<EntrySpec>, b: Seq<EntrySpec>)
    ensures
        specs_bytes(a + b) == specs_bytes(a) + specs_bytes(b),
    decreases b.len(),
{
    if b.len() == 0 {
        assert(a + b =~= a);
    } else {
        lemma_specs_bytes_append(a, b.drop_last());
        assert((a + b).drop_last() =~= a + b.drop_last());
    }
}

proof fn lemma_specs_bytes_prefix(s: Seq<EntrySpec>, k: int)
    requires
        0 <= k <= s.len(),
    ensures
        specs_bytes(s.subrange(0, k)) <= specs_bytes(s),
    decreases s.len() - k,
{
    if k < s.len() {
        lemma_specs_bytes_prefix(s, k + 1);
        assert(s.subrange(0, k + 1).drop_last() =~= s.subrange(0, k));
    } else {
        assert(s.subrange(0, k) =~= s);
    }
}

proof fn lemma_all_specs_prefix_bytes(items: Seq<SourceItem>, i: int)
    requires
        0 <= i <= items.len(),
    ensures
        specs_bytes(all_specs(items.subrange(0, i))) <= specs_bytes(all_specs(items)),
    decreases items.len() - i,
{
    if i < items.len() {
        lemma_all_specs_prefix_bytes(items, i + 1);
        let p = items.subrange(0, i + 1);
        assert(p.drop_last() =~= items.subrange(0, i));
        lemma_specs_bytes_append(all_specs(items.subrange(0, i)), item_specs(items[i]));
    } else {
        assert(items.subrange(0, i) =~= items);
    }
}

/// The name of a transfer of the picked `paths`: the file name of the first, or
/// `transfer` when there is none.
pub open spec fn transfer_name_of(paths: Seq<String>) -> Seq<char> {
    if paths.len() > 0 {
        match file_name_of(paths[0]@) {
            Some(n) => n,
            None => "transfer"@,
        }
    } else {
        "transfer"@
    }
}

proof fn lemma_files_match_total(files: Seq<FileEntry>, specs: Seq<EntrySpec>)
    requires
        files_match(files, specs),
    ensures
        total_size(files) == specs_bytes(specs),
    decreases files.len(),
{
    if files.len() > 0 {
        let (f, s) = (files.drop_last(), specs.drop_last());
        assert forall|i: int| 0 <= i < f.len() implies {
            &&& (#[trigger] f[i]).relative_path@ == s[i].path
            &&& f[i].size == s[i].size
            &&& f[i].is_dir == s[i].is_dir
        } by {
            assert(f[i] == files[i]);
            assert(s[i] == specs[i]);
        }
        lemma_files_match_total(f, s);
        assert(files.last() == files[files.len() - 1]);
    }
}

proof fn lemma_all_specs_dirs_empty(items: Seq<SourceItem>)
    ensures
        forall|i: int|
            0 <= i < all_specs(items).len() && (#[trigger] all_specs(items)[i]).is_dir ==> all_specs(
                items,
            )[i].size == 0,
    decreases items.len(),
{
    if items.len() > 0 {
        lemma_all_specs_dirs_empty(items.drop_last());
        let a = all_specs(items.drop_last());
        let b = item_specs(items.last());
        assert(all_specs(items) == a + b);
        assert forall|i: int| 0 <= i < (a + b).len() && (#[trigger] (a + b)[i]).is_dir implies (a
            + b)[i].size == 0 by {
            if i < a.len() {
                assert((a + b)[i] == a[i]);
            } else {
                assert((a + b)[i] == b[i - a.len()]);
            }
        }
    }
}

/// Builds manifests.
pub struct ManifestBuilder;

impl ManifestBuilder {
    /// A relative path with `/` separators; a path holding `..` is refused.
    pub fn normalize_path(path: &str) -> (r: Result<String, ManifestError>)
        ensures
            r matches Ok(s) ==> !has_double_dot(path@) && s@ == backslashes_to_slashes(path@),
            r matches Err(ManifestError::PathTraversal(p)) ==> has_double_dot(path@) && p@ == path@,
    {
        if contains_double_dot(path) {
            return Err(ManifestError::PathTraversal(String::from_str(path)));
        }
        Ok(replace_backslashes(path))
    }

    /// Appends the entries of one walked directory, adding the sizes of its files to
    /// `total`; stops at the first path that holds `..`.
    fn push_walked(
        entries: &Vec<WalkedEntry>,
        files: &mut Vec<FileEntry>,
        total: &mut u64,
    ) -> (r: Result<(), ManifestError>)
        requires
            old(total) + specs_bytes(entries@.map_values(|e: WalkedEntry| walked_spec(e)))
                <= u64::MAX,
        ensures
            r is Ok <==> !(exists|j: int|
                0 <= j < entries@.len() && has_double_dot(#[trigger] entries@[j].rel_path@)),
            r is Ok ==> files_match(
                final(files)@.subrange(old(files)@.len() as int, final(files)@.len() as int),
                entries@.map_values(|e: WalkedEntry| walked_spec(e)),
            ) && final(files)@.len() == old(files)@.len() + entries@.len()
                && final(files)@.subrange(0, old(files)@.len() as int) == old(files)@
                && *final(total) == old(total) + specs_bytes(
                entries@.map_values(|e: WalkedEntry| walked_spec(e)),
            ),
    {
        let ghost specs = entries@.map_values(|e: WalkedEntry| walked_spec(e));
        let ghost start = files@.len();
        let ghost total0 = *total;
        let mut j: usize = 0;
        while j < entries.len()
            invariant
                j <= entries@.len(),
                specs == entries@.map_values(|e: WalkedEntry| walked_spec(e)),
                start == old(files)@.len(),
                total0 == *old(total),
                files@.len() == start + j,
                files@.subrange(0, start as int) == old(files)@,
                files_match(files@.subrange(start as int, files@.len() as int), specs.subrange(0, j as int)),
                forall|k: int| 0 <= k < j ==> !has_double_dot(#[trigger] entries@[k].rel_path@),
                *total == total0 + specs_bytes(specs.subrange(0, j as int)),
                total0 + specs_bytes(specs) <= u64::MAX,
            decreases entries@.len() - j,
        {
            let e = &entries[j];
            let rel = match Self::normalize_path(e.rel_path.as_str()) {
                Ok(s) => s,
                Err(err) => {
                    return Err(err);
                },
            };
            proof {
                assert(specs.subrange(0, j + 1).drop_last() =~= specs.subrange(0, j as int));
                lemma_specs_bytes_prefix(specs, j + 1);
            }
            let size = if e.is_dir {
                0
            } else {
                e.size
            };
            *total = *total + size;
            let ghost prev = files@;
            files.push(FileEntry { file_id: new_id(), relative_path: rel, size, is_dir: e.is_dir });
            proof {
                assert(files@ =~= prev.push(files@.last()));
                assert(files@.subrange(0, start as int) =~= prev.subrange(0, start as int));
                assert(files@.subrange(start as int, files@.len() as int) =~= prev.subrange(
                    start as int,
                    prev.len() as int,
                ) + seq![files@.last()]);
                assert(specs.subrange(0, j + 1) =~= specs.subrange(0, j as int) + seq![specs[j as int]]);
                assert(specs[j as int] == walked_spec(entries@[j as int]));
                lemma_files_match_append(
                    prev.subrange(start as int, prev.len() as int),
                    specs.subrange(0, j as int),
                    seq![files@.last()],
                    seq![specs[j as int]],
                );
            }
            j = j + 1;
        }
        proof {
            assert(specs.subrange(0, j as int) =~= specs);
        }
        Ok(())
    }

    /// The name of a transfer of the picked `paths`: the file name of the first, or
    /// `transfer` when there is none.
    pub fn transfer_name(paths: &Vec<String>) -> (name: String)
        ensures
            name@ == transfer_name_of(paths@),
    {
        if paths.len() == 0 {
            return String::from_str("transfer");
        }
        match path_file_name(paths[0].as_str()) {
            Some(n) => n,
            None => String::from_str("transfer"),
        }
    }

    /// The manifest of a transfer of the picked `paths`, each already looked at on
    /// disk as `sources` (by position): files
    /// become one entry each (by their file name), directories one entry per walked
    /// path, anything else none. Every entry gets a fresh random id, as does the
    /// session. The transfer is named after the first source (`transfer_name`), or
    /// `transfer` when it has no name. Fails when a walked path holds `..`.
    pub fn build(paths: &Vec<String>, sources: &Vec<SourceItem>) -> (r: Result<
        Manifest,
        ManifestError,
    >)
        requires
            specs_bytes(all_specs(sources@)) <= u64::MAX,
        ensures
            r is Ok <==> !any_traverses(sources@),
            r matches Ok(m) ==> {
                &&& files_match(m.files@, all_specs(sources@))
                &&& m.total_bytes == specs_bytes(all_specs(sources@))
                &&& m.transfer_name@ == transfer_name_of(paths@)
                &&& m.total_bytes == total_size(m.files@)
                &&& forall|i: int|
                    0 <= i < m.files@.len() && (#[trigger] m.files@[i]).is_dir ==> m.files@[i].size == 0
            },
    {
        let name = Self::transfer_name(paths);
        let mut files: Vec<FileEntry> = Vec::new();
        let mut total: u64 = 0;
        let mut i: usize = 0;
        while i < sources.len()
            invariant
                i <= sources@.len(),
                files_match(files@, all_specs(sources@.subrange(0, i as int))),
                total == specs_bytes(all_specs(sources@.subrange(0, i as int))),
                !any_traverses(sources@.subrange(0, i as int)),
                specs_bytes(all_specs(sources@)) <= u64::MAX,
            decreases sources@.len() - i,
        {
            proof {
                let p = sources@.subrange(0, i + 1);
                assert(p.drop_last() =~= sources@.subrange(0, i as int));
                lemma_all_specs_prefix_bytes(sources@, i + 1);
                lemma_specs_bytes_append(all_specs(sources@.subrange(0, i as int)), item_specs(sources@[i as int]));
            }
            let ghost before = files@;
            match &sources[i] {
                SourceItem::File { name: fname, size } => {
                    total = total + *size;
                    files.push(FileEntry {
                        file_id: new_id(),
                        relative_path: fname.clone(),
                        size: *size,
                        is_dir: false,
                    });
                    proof {
                        reveal_with_fuel(specs_bytes, 2);
                        let s1 = item_specs(sources@[i as int]);
                        assert(s1.drop_last() =~= Seq::<EntrySpec>::empty());
                        assert(files@.subrange(before.len() as int, files@.len() as int) =~= seq![
                            files@.last(),
                        ]);
                        assert(files@.subrange(0, before.len() as int) =~= before);
                    }
                },
                SourceItem::Dir { entries } => {
                    match Self::push_walked(entries, &mut files, &mut total) {
                        Ok(()) => {},
                        Err(e) => {
                            proof {
                                assert(item_traverses(sources@[i as int]));
                            }
                            return Err(e);
                        },
                    }
                },
                SourceItem::Other => {
                    proof {
                        assert(files@.subrange(before.len() as int, files@.len() as int) =~= Seq::<
                            FileEntry,
                        >::empty());
                        assert(files@.subrange(0, before.len() as int) =~= before);
                    }
                },
            }
            proof {
                let p = sources@.subrange(0, i + 1);
                let added = files@.subrange(before.len() as int, files@.len() as int);
                assert(files_match(added, item_specs(sources@[i as int])));
                assert(files@ =~= before + added);
                assert(all_specs(p) == all_specs(sources@.subrange(0, i as int)) + item_specs(
                    sources@[i as int],
                ));
                lemma_files_match_append(
                    before,
                    all_specs(sources@.subrange(0, i as int)),
                    added,
                    item_specs(sources@[i as int]),
                );
                assert forall|k: int| 0 <= k < p.len() implies !item_traverses(#[trigger] p[k]) by {
                    if k < i {
                        assert(p[k] == sources@.subrange(0, i as int)[k]);
                    }
                }
            }
            i = i + 1;
        }
        proof {
            assert(sources@.subrange(0, sources@.len() as int) =~= sources@);
            lemma_files_match_total(files@, all_specs(sources@));
            lemma_all_specs_dirs_empty(sources@);
            assert forall|i: int| 0 <= i < files@.len() && (#[trigger] files@[i]).is_dir implies files@[i].size
                == 0 by {
                assert(all_specs(sources@)[i].is_dir);
            }
        }
        Ok(Manifest { session_id: new_id(), transfer_name: name, files, total_bytes: total })
    }
}

} // verus!
