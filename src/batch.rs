//! Batch runs over a directory tree: which entries are processed, and the
//! per-file record of what came of each.

use vstd::prelude::*;

verus! {

/// The depth to which a recursive run descends: effectively unbounded, capped
/// against runaway recursion and link loops.
pub const BATCH_MAX_DIRLEVEL: usize = 1000;

/// An entry met while walking the directory tree.
#[derive(Debug)]
pub struct WalkEntry {
    pub path: String,
    /// Whether the entry is a regular file.
    pub is_file: bool,
}

/// What came of one file: the line reported for it, or the error.
#[derive(Debug)]
pub struct FileReport {
    pub path: String,
    pub outcome: Result<String, String>,
}

/// The record of a batch run, one report per processed file, in order.
#[derive(Debug)]
pub struct BatchReport {
    pub files: Vec<FileReport>,
}

/// The paths of the regular files among `entries`, in order.
pub open spec fn targets(entries: Seq<WalkEntry>) -> Seq<Seq<char>>
    decreases entries.len(),
{
    if entries.len() == 0 {
        Seq::empty()
    } else if entries.last().is_file {
        targets(entries.drop_last()).push(entries.last().path@)
    } else {
        targets(entries.drop_last())
    }
}

/// How many of `entries` are regular files.
pub open spec fn file_count(entries: Seq<WalkEntry>) -> nat
    decreases entries.len(),
{
    if entries.len() == 0 {
        0
    } else {
        file_count(entries.drop_last()) + if entries.last().is_file {
            1nat
        } else {
            0nat
        }
    }
}

/// How many reports of `files` hold an error.
pub open spec fn failure_count(files: Seq<FileReport>) -> nat
    decreases files.len(),
{
    if files.len() == 0 {
        0
    } else {
        failure_count(files.drop_last()) + if files.last().outcome is Err {
            1nat
        } else {
            0nat
        }
    }
}

/// The walking depth: direct children only, or down to `BATCH_MAX_DIRLEVEL`.
pub fn walk_depth(recursive: bool) -> (r: usize)
    ensures
        r == if recursive {
            BATCH_MAX_DIRLEVEL
        } else {
            1
        },
{
    if recursive {
        BATCH_MAX_DIRLEVEL
    } else {
        1
    }
}

/// Runs `handle` on each regular file among `entries`, in order, and records
/// what came of it. A failure is recorded and the run goes on: every regular
/// file is handled exactly once, and nothing else is.
pub fn run_batch<F: Fn(&String) -> Result<String, String>>(
    entries: &Vec<WalkEntry>,
    handle: F,
) -> (r: BatchReport)
    requires
        forall|p: &String| handle.requires((p,)),
    ensures
        r.files@.len() == targets(entries@).len(),
        forall|i: int|
            0 <= i < r.files@.len() ==> {
                &&& (#[trigger] r.files@[i]).path@ == targets(entries@)[i]
                &&& handle.ensures((&r.files@[i].path,), r.files@[i].outcome)
            },
{
    let mut files: Vec<FileReport> = Vec::new();
    let mut i: usize = 0;
    while i < entries.len()
        invariant
            i <= entries.len(),
            forall|p: &String| handle.requires((p,)),
            files@.len() == targets(entries@.take(i as int)).len(),
            forall|j: int|
                0 <= j < files@.len() ==> {
                    &&& (#[trigger] files@[j]).path@ == targets(entries@.take(i as int))[j]
                    &&& handle.ensures((&files@[j].path,), files@[j].outcome)
                },
        decreases entries.len() - i,
    {
        let entry = &entries[i];
        assert(entries@.take(i + 1).drop_last() =~= entries@.take(i as int));
        if entry.is_file {
            let outcome = handle(&entry.path);
            files.push(FileReport { path: entry.path.clone(), outcome });
        }
        i = i + 1;
    }
    assert(entries@.take(entries.len() as int) =~= entries@);
    BatchReport { files }
}

/// A batch run processes exactly the regular files among the entries it is
/// given: as many paths as there are regular files, each the path of one.
pub proof fn lemma_targets_are_files(entries: Seq<WalkEntry>)
    ensures
        targets(entries).len() == file_count(entries),
        targets(entries).len() <= entries.len(),
        forall|i: int|
            0 <= i < targets(entries).len() ==> exists|k: int|
                0 <= k < entries.len() && entries[k].is_file && #[trigger] targets(entries)[i]
                    == entries[k].path@,
    decreases entries.len(),
{
    if entries.len() > 0 {
        let init = entries.drop_last();
        lemma_targets_are_files(init);
        assert forall|i: int| 0 <= i < targets(entries).len() implies exists|k: int|
            0 <= k < entries.len() && entries[k].is_file && #[trigger] targets(entries)[i]
                == entries[k].path@ by {
            if i < targets(init).len() {
                let k = choose|k: int|
                    0 <= k < init.len() && init[k].is_file && #[trigger] targets(init)[i]
                        == init[k].path@;
                assert(entries[k] == init[k]);
            } else {
                assert(entries[entries.len() - 1] == entries.last());
            }
        }
    }
}

/// One failing file among successful ones is counted once: the reports of the
/// other files keep their own outcomes, and the failure appears exactly once.
pub proof fn lemma_single_failure(files: Seq<FileReport>, k: int)
    requires
        0 <= k < files.len(),
        files[k].outcome is Err,
        forall|i: int| 0 <= i < files.len() && i != k ==> (#[trigger] files[i]).outcome is Ok,
    ensures
        failure_count(files) == 1,
    decreases files.len(),
{
    let init = files.drop_last();
    if k == files.len() - 1 {
        assert forall|i: int| 0 <= i < init.len() implies (#[trigger] init[i]).outcome is Ok by {
            assert(init[i] == files[i]);
        }
        lemma_no_failure(init);
    } else {
        assert forall|i: int| 0 <= i < init.len() && i != k implies (
        #[trigger] init[i]).outcome is Ok by {
            assert(init[i] == files[i]);
        }
        assert(init[k] == files[k]);
        lemma_single_failure(init, k);
        assert(files[files.len() - 1] == files.last());
    }
}

/// Reports without an error count no failure.
pub proof fn lemma_no_failure(files: Seq<FileReport>)
    requires
        forall|i: int| 0 <= i < files.len() ==> (#[trigger] files[i]).outcome is Ok,
    ensures
        failure_count(files) == 0,
    decreases files.len(),
{
    if files.len() > 0 {
        let init = files.drop_last();
        assert forall|i: int| 0 <= i < init.len() implies (#[trigger] init[i]).outcome is Ok by {
            assert(init[i] == files[i]);
        }
        lemma_no_failure(init);
        assert(files[files.len() - 1] == files.last());
    }
}

impl BatchReport {
    /// How many files failed.
    pub fn failures(&self) -> (r: usize)
        ensures
            r == failure_count(self.files@),
    {
        let mut n: usize = 0;
        let mut i: usize = 0;
        while i < self.files.len()
            invariant
                i <= self.files.len(),
                n == failure_count(self.files@.take(i as int)),
                n <= i,
            decreases self.files.len() - i,
        {
            assert(self.files@.take(i + 1).drop_last() =~= self.files@.take(i as int));
            if self.files[i].outcome.is_err() {
                n = n + 1;
            }
            i = i + 1;
        }
        assert(self.files@.take(self.files.len() as int) =~= self.files@);
        n
    }
}

} // verus!
