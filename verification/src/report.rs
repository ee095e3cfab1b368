//! Preview grouping, the end-of-run summary, and the executor's accounting.
//!
//! A plan is grouped by the folder-name component of each operation's
//! destination, in first-appearance order. The summary is derived from the
//! plan alone, so a dry run reports exactly what an executed run reports for
//! the same plan.

use vstd::prelude::*;
use crate::organizer::FileOperation;
use crate::strings::{spec_base_name, spec_folder_of, spec_parent_dir, base_name_of, folder_of, parent_dir_of, str_eq};

verus! {

/// The folder-name component an operation moves its file into.
pub open spec fn op_folder(op: FileOperation) -> Option<Seq<char>> {
    spec_folder_of(op.destination@)
}

/// The directory an operation's destination lies in.
pub open spec fn op_parent_dir(op: FileOperation) -> Option<Seq<char>> {
    spec_parent_dir(op.destination@)
}

/// The distinct destination folder names of a plan, in first-appearance
/// order. Operations whose destination names no folder contribute nothing.
pub open spec fn spec_folders(ops: Seq<FileOperation>) -> Seq<Seq<char>>
    decreases ops.len(),
{
    if ops.len() == 0 {
        Seq::empty()
    } else {
        let rest = spec_folders(ops.drop_last());
        match op_folder(ops.last()) {
            Some(f) => if rest.contains(f) {
                rest
            } else {
                rest.push(f)
            },
            None => rest,
        }
    }
}

/// How many operations of a plan move into a given folder.
pub open spec fn spec_folder_count(ops: Seq<FileOperation>, f: Seq<char>) -> nat
    decreases ops.len(),
{
    if ops.len() == 0 {
        0
    } else {
        spec_folder_count(ops.drop_last(), f) + (if op_folder(ops.last()) == Some(f) {
            1nat
        } else {
            0nat
        })
    }
}

/// The source file names a plan moves into a given folder, in plan order.
pub open spec fn spec_group_sources(ops: Seq<FileOperation>, f: Seq<char>) -> Seq<Seq<char>>
    decreases ops.len(),
{
    if ops.len() == 0 {
        Seq::empty()
    } else {
        let rest = spec_group_sources(ops.drop_last(), f);
        if op_folder(ops.last()) == Some(f) {
            rest.push(spec_base_name(ops.last().source@))
        } else {
            rest
        }
    }
}

/// The distinct destination directories of a plan, in first-appearance order:
/// the directories an executor must create.
pub open spec fn spec_parent_dirs(ops: Seq<FileOperation>) -> Seq<Seq<char>>
    decreases ops.len(),
{
    if ops.len() == 0 {
        Seq::empty()
    } else {
        let rest = spec_parent_dirs(ops.drop_last());
        match op_parent_dir(ops.last()) {
            Some(p) => if rest.contains(p) {
                rest
            } else {
                rest.push(p)
            },
            None => rest,
        }
    }
}

/// The folders of a plan are pairwise distinct.
pub proof fn lemma_folders_distinct(ops: Seq<FileOperation>)
    ensures
        forall|a: int, b: int|
            0 <= a < b < spec_folders(ops).len() ==> spec_folders(ops)[a] != spec_folders(ops)[b],
    decreases ops.len(),
{
    if ops.len() > 0 {
        lemma_folders_distinct(ops.drop_last());
        let rest = spec_folders(ops.drop_last());
        match op_folder(ops.last()) {
            Some(f) => {
                if !rest.contains(f) {
                    let cur = rest.push(f);
                    assert forall|a: int, b: int| 0 <= a < b < cur.len() implies cur[a]
                        != cur[b] by {
                        if b == rest.len() {
                            assert(cur[a] == rest[a]);
                            if rest[a] == f {
                                assert(rest.contains(f));
                            }
                        }
                    }
                }
            },
            None => {},
        }
    }
}

/// The destination directories of a plan are pairwise distinct.
pub proof fn lemma_parent_dirs_distinct(ops: Seq<FileOperation>)
    ensures
        forall|a: int, b: int|
            0 <= a < b < spec_parent_dirs(ops).len() ==> spec_parent_dirs(ops)[a]
                != spec_parent_dirs(ops)[b],
    decreases ops.len(),
{
    if ops.len() > 0 {
        lemma_parent_dirs_distinct(ops.drop_last());
        let rest = spec_parent_dirs(ops.drop_last());
        match op_parent_dir(ops.last()) {
            Some(p) => {
                if !rest.contains(p) {
                    let cur = rest.push(p);
                    assert forall|a: int, b: int| 0 <= a < b < cur.len() implies cur[a]
                        != cur[b] by {
                        if b == rest.len() {
                            assert(cur[a] == rest[a]);
                            if rest[a] == p {
                                assert(rest.contains(p));
                            }
                        }
                    }
                }
            },
            None => {},
        }
    }
}

/// Every operation that names a destination folder is covered by the
/// grouping: its folder appears in the plan's folder list.
pub proof fn lemma_folders_complete(ops: Seq<FileOperation>, i: int)
    requires
        0 <= i < ops.len(),
        op_folder(ops[i]) is Some,
    ensures
        spec_folders(ops).contains(op_folder(ops[i])->0),
    decreases ops.len(),
{
    let rest = spec_folders(ops.drop_last());
    if i == ops.len() - 1 {
        let f = op_folder(ops.last())->0;
        if rest.contains(f) {
            assert(spec_folders(ops) == rest);
        } else {
            assert(spec_folders(ops) == rest.push(f));
            assert(spec_folders(ops)[rest.len() as int] == f);
        }
    } else {
        lemma_folders_complete(ops.drop_last(), i);
        let f = op_folder(ops[i])->0;
        let j = choose|j: int| 0 <= j < rest.len() && rest[j] == f;
        match op_folder(ops.last()) {
            Some(g) => {
                if rest.contains(g) {
                    assert(spec_folders(ops) == rest);
                } else {
                    assert(spec_folders(ops) == rest.push(g));
                    assert(spec_folders(ops)[j] == f);
                }
            },
            None => {
                assert(spec_folders(ops) == rest);
            },
        }
    }
}

/// Every operation whose destination lies in a directory is covered by the
/// executor's preparation: that directory appears in the list to create.
pub proof fn lemma_parent_dirs_complete(ops: Seq<FileOperation>, i: int)
    requires
        0 <= i < ops.len(),
        op_parent_dir(ops[i]) is Some,
    ensures
        spec_parent_dirs(ops).contains(op_parent_dir(ops[i])->0),
    decreases ops.len(),
{
    let rest = spec_parent_dirs(ops.drop_last());
    if i == ops.len() - 1 {
        let p = op_parent_dir(ops.last())->0;
        if rest.contains(p) {
            assert(spec_parent_dirs(ops) == rest);
        } else {
            assert(spec_parent_dirs(ops) == rest.push(p));
            assert(spec_parent_dirs(ops)[rest.len() as int] == p);
        }
    } else {
        lemma_parent_dirs_complete(ops.drop_last(), i);
        let p = op_parent_dir(ops[i])->0;
        let j = choose|j: int| 0 <= j < rest.len() && rest[j] == p;
        match op_parent_dir(ops.last()) {
            Some(q) => {
                if rest.contains(q) {
                    assert(spec_parent_dirs(ops) == rest);
                } else {
                    assert(spec_parent_dirs(ops) == rest.push(q));
                    assert(spec_parent_dirs(ops)[j] == p);
                }
            },
            None => {
                assert(spec_parent_dirs(ops) == rest);
            },
        }
    }
}

/// A folder that never appears in a plan's folder list gathers no sources.
proof fn lemma_unseen_sources_empty(ops: Seq<FileOperation>, f: Seq<char>)
    requires
        !spec_folders(ops).contains(f),
    ensures
        spec_group_sources(ops, f) == Seq::<Seq<char>>::empty(),
    decreases ops.len(),
{
    if ops.len() > 0 {
        let rest = spec_folders(ops.drop_last());
        assert(!rest.contains(f)) by {
            if rest.contains(f) {
                match op_folder(ops.last()) {
                    Some(g) => {
                        if rest.contains(g) {
                            assert(spec_folders(ops).contains(f));
                        } else {
                            let i = choose|i: int| 0 <= i < rest.len() && rest[i] == f;
                            assert(rest.push(g)[i] == f);
                            assert(spec_folders(ops).contains(f));
                        }
                    },
                    None => {
                        assert(spec_folders(ops).contains(f));
                    },
                }
            }
        }
        lemma_unseen_sources_empty(ops.drop_last(), f);
        assert(op_folder(ops.last()) != Some(f)) by {
            if op_folder(ops.last()) == Some(f) {
                let rest2 = spec_folders(ops.drop_last());
                if rest2.contains(f) {
                    assert(spec_folders(ops).contains(f));
                } else {
                    assert(spec_folders(ops) == rest2.push(f));
                    assert(spec_folders(ops)[rest2.len() as int] == f);
                    assert(spec_folders(ops).contains(f));
                }
            }
        }
    }
}

/// In every grouping of a plan, the number of source names listed under a
/// folder equals that folder's count: the preview and the summary agree.
pub proof fn lemma_sources_len_matches_count(ops: Seq<FileOperation>, f: Seq<char>)
    ensures
        spec_group_sources(ops, f).len() == spec_folder_count(ops, f),
    decreases ops.len(),
{
    if ops.len() > 0 {
        lemma_sources_len_matches_count(ops.drop_last(), f);
    }
}

/// A folder's count never exceeds the plan's length.
pub proof fn lemma_folder_count_le_len(ops: Seq<FileOperation>, f: Seq<char>)
    ensures
        spec_folder_count(ops, f) <= ops.len(),
    decreases ops.len(),
{
    if ops.len() > 0 {
        lemma_folder_count_le_len(ops.drop_last(), f);
    }
}

/// One folder of the preview: its name and the source file names moved into
/// it, in plan order.
#[derive(Debug)]
pub struct FolderGroup {
    /// The destination folder's name.
    pub folder: String,
    /// The base names of the source files moved into the folder.
    pub sources: Vec<String>,
}

/// Groups a plan by the folder-name component of each destination, in
/// first-appearance order.
pub fn group_by_folder(operations: &Vec<FileOperation>) -> (r: Vec<FolderGroup>)
    ensures
        r@.len() == spec_folders(operations@).len(),
        forall|j: int|
            0 <= j < r@.len() ==> (#[trigger] r@[j]).folder@ == spec_folders(operations@)[j],
        forall|j: int|
            0 <= j < r@.len() ==> (#[trigger] r@[j]).sources@.map_values(|s: String| s@)
                == spec_group_sources(operations@, spec_folders(operations@)[j]),
{
    let mut groups: Vec<FolderGroup> = Vec::new();
    let n = operations.len();
    let mut i: usize = 0;
    proof {
        assert(operations@.subrange(0, 0) =~= Seq::<FileOperation>::empty());
    }
    while i < n
        invariant
            i <= n,
            n == operations@.len(),
            groups@.len() == spec_folders(operations@.subrange(0, i as int)).len(),
            forall|j: int|
                0 <= j < groups@.len() ==> (#[trigger] groups@[j]).folder@ == spec_folders(
                    operations@.subrange(0, i as int),
                )[j],
            forall|j: int|
                0 <= j < groups@.len() ==> (#[trigger] groups@[j]).sources@.map_values(
                    |s: String| s@,
                ) == spec_group_sources(
                    operations@.subrange(0, i as int),
                    spec_folders(operations@.subrange(0, i as int))[j],
                ),
        decreases n - i,
    {
        let ghost pre = operations@.subrange(0, i as int);
        let ghost post = operations@.subrange(0, i + 1);
        proof {
            assert(post.drop_last() =~= pre);
            assert(post.last() == operations@[i as int]);
            lemma_folders_distinct(pre);
        }
        let op = &operations[i];
        match folder_of(op.destination.as_str()) {
            Some(f) => {
                let name = base_name_of(op.source.as_str());
                let m = groups.len();
                let mut j: usize = 0;
                let mut found: bool = false;
                while j < m && !found
                    invariant
                        j <= m,
                        m == groups@.len(),
                        found ==> j < m && (#[trigger] groups@[j as int]).folder@ == f@,
                        !found ==> forall|k: int|
                            0 <= k < j ==> (#[trigger] groups@[k]).folder@ != f@,
                    decreases m - j + (if found {
                        0int
                    } else {
                        1int
                    }),
                {
                    if str_eq(groups[j].folder.as_str(), f) {
                        found = true;
                    } else {
                        j += 1;
                    }
                }
                if found {
                    proof {
                        assert(spec_folders(pre)[j as int] == f@);
                        assert(spec_folders(pre).contains(f@));
                        assert(spec_folders(post) == spec_folders(pre));
                    }
                    let mut g = groups.remove(j);
                    g.sources.push(name.to_owned());
                    groups.insert(j, g);
                    proof {
                        assert forall|k: int| 0 <= k < groups@.len() implies (
                        #[trigger] groups@[k]).sources@.map_values(|s: String| s@)
                            == spec_group_sources(post, spec_folders(post)[k]) by {
                            if k == j {
                                assert(groups@[k].sources@.map_values(|s: String| s@)
                                    =~= spec_group_sources(pre, f@).push(
                                    spec_base_name(operations@[i as int].source@),
                                ));
                            } else {
                                assert(spec_folders(pre)[k] != f@);
                            }
                        }
                    }
                } else {
                    proof {
                        assert forall|k: int|
                            0 <= k < spec_folders(pre).len() implies spec_folders(pre)[k]
                            != f@ by {
                            assert((#[trigger] groups@[k]).folder@ != f@);
                        }
                        assert(!spec_folders(pre).contains(f@));
                        assert(spec_folders(post) == spec_folders(pre).push(f@));
                        lemma_unseen_sources_empty(pre, f@);
                    }
                    let mut sources: Vec<String> = Vec::new();
                    sources.push(name.to_owned());
                    let g = FolderGroup { folder: f.to_owned(), sources };
                    groups.push(g);
                    proof {
                        assert forall|k: int| 0 <= k < groups@.len() implies (
                        #[trigger] groups@[k]).sources@.map_values(|s: String| s@)
                            == spec_group_sources(post, spec_folders(post)[k]) by {
                            if k == groups@.len() - 1 {
                                assert(groups@[k].sources@.map_values(|s: String| s@)
                                    =~= Seq::<Seq<char>>::empty().push(
                                    spec_base_name(operations@[i as int].source@),
                                ));
                            } else {
                                assert(spec_folders(pre)[k] != f@);
                            }
                        }
                    }
                }
            },
            None => {
                proof {
                    assert(spec_folders(post) == spec_folders(pre));
                    assert forall|k: int| 0 <= k < groups@.len() implies (
                    #[trigger] groups@[k]).sources@.map_values(|s: String| s@)
                        == spec_group_sources(post, spec_folders(post)[k]) by {
                    }
                }
            },
        }
        i += 1;
    }
    proof {
        assert(operations@.subrange(0, n as int) =~= operations@);
    }
    groups
}

impl FolderGroup {
    /// Up to three example source names, from the front of the group.
    pub fn examples(&self) -> (r: Vec<String>)
        ensures
            r@.len() == if self.sources@.len() <= 3 {
                self.sources@.len()
            } else {
                3
            },
            forall|i: int| 0 <= i < r@.len() ==> #[trigger] r@[i] == self.sources@[i],
    {
        let mut r: Vec<String> = Vec::new();
        let count: usize = if self.sources.len() <= 3 {
            self.sources.len()
        } else {
            3
        };
        let mut i: usize = 0;
        while i < count
            invariant
                i <= count,
                count <= self.sources@.len(),
                r@.len() == i,
                forall|k: int| 0 <= k < i ==> #[trigger] r@[k] == self.sources@[k],
            decreases count - i,
        {
            r.push(self.sources[i].clone());
            i += 1;
        }
        r
    }

    /// How many sources the preview elides beyond the three examples.
    pub fn more_count(&self) -> (n: usize)
        ensures
            n == if self.sources@.len() > 3 {
                self.sources@.len() - 3
            } else {
                0
            },
    {
        if self.sources.len() > 3 {
            self.sources.len() - 3
        } else {
            0
        }
    }
}

/// Summary of an organization run: derived from the plan alone, never from
/// the outcome of executing it.
#[derive(Debug)]
pub struct OrganizationSummary {
    /// How many files the plan covers.
    pub total_files: usize,
    /// How many distinct destination folders the plan names.
    pub folders_created: usize,
    /// Per-folder file counts, keyed by folder name, in first-appearance
    /// order; every key is distinct.
    pub categories: Vec<(String, usize)>,
}

impl OrganizationSummary {
    /// The empty summary: nothing planned, nothing counted.
    pub fn new() -> (r: Self)
        ensures
            r.total_files == 0,
            r.folders_created == 0,
            r.categories@.len() == 0,
    {
        OrganizationSummary { total_files: 0, folders_created: 0, categories: Vec::new() }
    }

    /// Summarizes a plan: the file total, the distinct destination folders,
    /// and each folder's file count.
    pub fn from_operations(operations: &Vec<FileOperation>) -> (r: Self)
        ensures
            r.total_files == operations@.len(),
            r.folders_created == spec_folders(operations@).len(),
            r.categories@.len() == spec_folders(operations@).len(),
            forall|j: int|
                0 <= j < r.categories@.len() ==> (#[trigger] r.categories@[j]).0@ == spec_folders(
                    operations@,
                )[j],
            forall|j: int|
                0 <= j < r.categories@.len() ==> (#[trigger] r.categories@[j]).1
                    == spec_folder_count(operations@, spec_folders(operations@)[j]),
    {
        let groups = group_by_folder(operations);
        let mut categories: Vec<(String, usize)> = Vec::new();
        let m = groups.len();
        let mut k: usize = 0;
        while k < m
            invariant
                k <= m,
                m == groups@.len(),
                m == spec_folders(operations@).len(),
                forall|j: int|
                    0 <= j < m ==> (#[trigger] groups@[j]).folder@ == spec_folders(operations@)[j],
                forall|j: int|
                    0 <= j < m ==> (#[trigger] groups@[j]).sources@.map_values(|s: String| s@)
                        == spec_group_sources(operations@, spec_folders(operations@)[j]),
                categories@.len() == k,
                forall|j: int|
                    0 <= j < k ==> (#[trigger] categories@[j]).0@ == spec_folders(operations@)[j],
                forall|j: int|
                    0 <= j < k ==> (#[trigger] categories@[j]).1 == spec_folder_count(
                        operations@,
                        spec_folders(operations@)[j],
                    ),
            decreases m - k,
        {
            let g = &groups[k];
            proof {
                lemma_sources_len_matches_count(operations@, spec_folders(operations@)[k as int]);
                assert(g.sources@.map_values(|s: String| s@).len() == g.sources@.len());
            }
            categories.push((g.folder.clone(), g.sources.len()));
            k += 1;
        }
        OrganizationSummary {
            total_files: operations.len(),
            folders_created: categories.len(),
            categories,
        }
    }
}

/// The distinct destination directories of a plan, in first-appearance order:
/// what an executor creates before it moves anything.
pub fn folders_to_create(operations: &Vec<FileOperation>) -> (r: Vec<String>)
    ensures
        r@.len() == spec_parent_dirs(operations@).len(),
        forall|j: int| 0 <= j < r@.len() ==> (#[trigger] r@[j])@ == spec_parent_dirs(operations@)[j],
{
    let mut dirs: Vec<String> = Vec::new();
    let n = operations.len();
    let mut i: usize = 0;
    proof {
        assert(operations@.subrange(0, 0) =~= Seq::<FileOperation>::empty());
    }
    while i < n
        invariant
            i <= n,
            n == operations@.len(),
            dirs@.len() == spec_parent_dirs(operations@.subrange(0, i as int)).len(),
            forall|j: int|
                0 <= j < dirs@.len() ==> (#[trigger] dirs@[j])@ == spec_parent_dirs(
                    operations@.subrange(0, i as int),
                )[j],
        decreases n - i,
    {
        let ghost pre = operations@.subrange(0, i as int);
        let ghost post = operations@.subrange(0, i + 1);
        proof {
            assert(post.drop_last() =~= pre);
            assert(post.last() == operations@[i as int]);
        }
        let op = &operations[i];
        match parent_dir_of(op.destination.as_str()) {
            Some(p) => {
                let m = dirs.len();
                let mut j: usize = 0;
                let mut found: bool = false;
                while j < m && !found
                    invariant
                        j <= m,
                        m == dirs@.len(),
                        found ==> j < m && (#[trigger] dirs@[j as int])@ == p@,
                        !found ==> forall|k: int| 0 <= k < j ==> (#[trigger] dirs@[k])@ != p@,
                    decreases m - j + (if found {
                        0int
                    } else {
                        1int
                    }),
                {
                    if str_eq(dirs[j].as_str(), p) {
                        found = true;
                    } else {
                        j += 1;
                    }
                }
                if found {
                    proof {
                        assert(spec_parent_dirs(pre)[j as int] == p@);
                        assert(spec_parent_dirs(pre).contains(p@));
                        assert(spec_parent_dirs(post) == spec_parent_dirs(pre));
                    }
                } else {
                    proof {
                        assert forall|k: int|
                            0 <= k < spec_parent_dirs(pre).len() implies spec_parent_dirs(pre)[k]
                            != p@ by {
                            assert((#[trigger] dirs@[k])@ != p@);
                        }
                        assert(!spec_parent_dirs(pre).contains(p@));
                        assert(spec_parent_dirs(post) == spec_parent_dirs(pre).push(p@));
                    }
                    dirs.push(p.to_owned());
                }
            },
            None => {
                proof {
                    assert(spec_parent_dirs(post) == spec_parent_dirs(pre));
                }
            },
        }
        i += 1;
    }
    proof {
        assert(operations@.subrange(0, n as int) =~= operations@);
    }
    dirs
}

/// A dry run reports the same summary an executed run reports for the same
/// plan: the summary's total, folder count and per-folder tallies are
/// functions of the operation list alone, never of any move's outcome, so any
/// two summaries of one plan agree.
pub proof fn lemma_dry_run_summary_matches(
    ops: Seq<FileOperation>,
    s1: OrganizationSummary,
    s2: OrganizationSummary,
)
    requires
        s1.total_files == ops.len(),
        s1.folders_created == spec_folders(ops).len(),
        s1.categories@.len() == spec_folders(ops).len(),
        forall|j: int|
            0 <= j < s1.categories@.len() ==> (#[trigger] s1.categories@[j]).0@ == spec_folders(
                ops,
            )[j] && s1.categories@[j].1 == spec_folder_count(ops, spec_folders(ops)[j]),
        s2.total_files == ops.len(),
        s2.folders_created == spec_folders(ops).len(),
        s2.categories@.len() == spec_folders(ops).len(),
        forall|j: int|
            0 <= j < s2.categories@.len() ==> (#[trigger] s2.categories@[j]).0@ == spec_folders(
                ops,
            )[j] && s2.categories@[j].1 == spec_folder_count(ops, spec_folders(ops)[j]),
    ensures
        s1.total_files == s2.total_files,
        s1.folders_created == s2.folders_created,
        s1.categories@.len() == s2.categories@.len(),
        forall|j: int|
            0 <= j < s1.categories@.len() ==> (#[trigger] s1.categories@[j]).0@
                == s2.categories@[j].0@ && s1.categories@[j].1 == s2.categories@[j].1,
{
}

/// How many of a sequence of outcomes succeeded.
pub open spec fn spec_count_true(s: Seq<bool>) -> nat
    decreases s.len(),
{
    if s.len() == 0 {
        0
    } else {
        spec_count_true(s.drop_last()) + (if s.last() {
            1nat
        } else {
            0nat
        })
    }
}

/// The executor's accounting: how many moves succeeded and how many failed.
#[derive(Debug, Clone, Copy, PartialEq, Eq, Structural)]
pub struct ExecutionTally {
    /// Moves that succeeded.
    pub moved: usize,
    /// Moves that failed.
    pub failed: usize,
}

/// Tallies per-operation move outcomes: every outcome is accounted, a failed
/// move costs the batch nothing beyond its own failure.
pub fn tally_outcomes(outcomes: &Vec<bool>) -> (t: ExecutionTally)
    ensures
        t.moved == spec_count_true(outcomes@),
        t.moved + t.failed == outcomes@.len(),
{
    let n = outcomes.len();
    let mut moved: usize = 0;
    let mut i: usize = 0;
    proof {
        assert(outcomes@.subrange(0, 0) =~= Seq::<bool>::empty());
    }
    while i < n
        invariant
            i <= n,
            n == outcomes@.len(),
            moved == spec_count_true(outcomes@.subrange(0, i as int)),
            moved <= i,
        decreases n - i,
    {
        proof {
            assert(outcomes@.subrange(0, i + 1).drop_last() =~= outcomes@.subrange(0, i as int));
            assert(outcomes@.subrange(0, i + 1).last() == outcomes@[i as int]);
        }
        if outcomes[i] {
            moved += 1;
        }
        i += 1;
    }
    proof {
        assert(outcomes@.subrange(0, n as int) =~= outcomes@);
    }
    ExecutionTally { moved, failed: n - moved }
}

} // verus!
