//! The planning pipeline: candidate file records, the extension filter, and
//! the planner that assigns every file a destination path for a chosen
//! organization mode.
//!
//! The caller walks the directory tree, reads metadata and performs the moves;
//! the library receives each candidate as a [`FileEntry`] of plain values and
//! returns the plan as a list of [`FileOperation`]s. Metadata a read could not
//! supply arrives as `None`; the planner fails fast on the first entry whose
//! mode needs a value that is missing.

use vstd::prelude::*;
use crate::file_types::{FileCategory, FileSizeCategory, FileTypeClassifier, spec_classify};
use crate::strings::{case_eq, spec_extension, str_case_eq, extension_of};

verus! {

/// The organization strategy: which property of a file picks its destination
/// folder.
#[derive(Debug, Clone, Copy, PartialEq, Eq, Structural)]
pub enum OrganizeMode {
    /// Group by file extension.
    Extension,
    /// Group by size bucket.
    Size,
    /// Group by creation month, falling back to modification month.
    Date,
    /// Group by modification month.
    Modified,
    /// Placeholder until configuration-driven rules exist.
    Custom,
}

#[derive(Debug, Clone, Copy, PartialEq, Eq, Structural)]
pub enum OperationType {
    Move,
    Copy,
}

/// Represents a file operation to be performed.
#[derive(Debug)]
pub struct FileOperation {
    pub source: String,
    pub destination: String,
    pub operation_type: OperationType,
}

impl Clone for FileOperation {
    fn clone(&self) -> (r: Self)
        ensures
            r == *self,
    {
        FileOperation {
            source: self.source.clone(),
            destination: self.destination.clone(),
            operation_type: self.operation_type,
        }
    }
}

/// One candidate file, as plain values: its full path, its base name, and the
/// metadata the caller could read. A `None` means the value was unavailable.
#[derive(Debug)]
pub struct FileEntry {
    /// The full path of the file.
    pub path: String,
    /// The final component of the path.
    pub name: String,
    /// The file's byte length, when metadata could be read.
    pub size: Option<u64>,
    /// The creation time in whole seconds since the Unix epoch, when the
    /// platform supplies one.
    pub created_secs: Option<i64>,
    /// The modification time in whole seconds since the Unix epoch.
    pub modified_secs: Option<i64>,
}

impl Clone for FileEntry {
    fn clone(&self) -> (r: Self)
        ensures
            r == *self,
    {
        FileEntry {
            path: self.path.clone(),
            name: self.name.clone(),
            size: self.size,
            created_secs: self.created_secs,
            modified_secs: self.modified_secs,
        }
    }
}

/// Why planning stopped: the first entry whose mode needed a value that was
/// missing or unusable. Carries the path of that entry.
#[derive(Debug, Clone, PartialEq)]
pub enum PlanError {
    /// Size mode found an entry whose byte length could not be read.
    MetadataUnavailable { path: String },
    /// Date or Modified mode found an entry without a usable timestamp.
    TimestampUnavailable { path: String },
    /// Date or Modified mode found a timestamp the calendar conversion
    /// rejected.
    TimestampOutOfRange { path: String },
}

/// The UTC year-month label of a timestamp in seconds since the Unix epoch,
/// as the calendar library renders it.
pub uninterp spec fn year_month_label_of(secs: int) -> Seq<char>;

/// The first second of 0001-01-01 UTC.
pub const MIN_LABEL_SECS: i64 = -62135596800;

/// The last second of 9999-12-31 UTC.
pub const MAX_LABEL_SECS: i64 = 253402300799;

/// Timestamps for which the calendar conversion is known to succeed: a
/// conservative span well inside the range the calendar library represents.
pub open spec fn in_label_range(secs: int) -> bool {
    MIN_LABEL_SECS <= secs <= MAX_LABEL_SECS
}

/// Relies on chrono's `DateTime::<Utc>::from_timestamp` and its `"%Y-%m"`
/// formatting: the rendered UTC year-month is a function of the seconds
/// alone, and the conversion returns a date at least for every timestamp of
/// years 1 through 9999.
#[verifier::external_body]
fn year_month_label(secs: i64) -> (r: Option<String>)
    ensures
        r matches Some(s) ==> s@ == year_month_label_of(secs as int),
        in_label_range(secs as int) ==> r is Some,
{
    chrono::DateTime::<chrono::Utc>::from_timestamp(secs, 0).map(
        |dt| dt.format("%Y-%m").to_string(),
    )
}

/// The timestamp Date mode uses: creation time, with modification time as the
/// fallback.
pub open spec fn spec_date_secs(e: FileEntry) -> Option<i64> {
    if e.created_secs is Some {
        e.created_secs
    } else {
        e.modified_secs
    }
}

/// Whether an entry carries every value its mode reads.
pub open spec fn spec_entry_has_data(mode: OrganizeMode, e: FileEntry) -> bool {
    match mode {
        OrganizeMode::Extension => true,
        OrganizeMode::Size => e.size is Some,
        OrganizeMode::Date => spec_date_secs(e) is Some,
        OrganizeMode::Modified => e.modified_secs is Some,
        OrganizeMode::Custom => true,
    }
}

/// Whether an entry is sure to plan under its mode: it carries every value
/// the mode reads, and a timestamp it reads lies where the calendar
/// conversion is known to succeed.
pub open spec fn spec_entry_ok(mode: OrganizeMode, e: FileEntry) -> bool {
    spec_entry_has_data(mode, e) && match mode {
        OrganizeMode::Date => in_label_range(spec_date_secs(e)->0 as int),
        OrganizeMode::Modified => in_label_range(e.modified_secs->0 as int),
        _ => true,
    }
}

/// The destination folder label of an entry under a mode. Meaningful only
/// when the entry carries the values the mode reads.
pub open spec fn spec_label(mode: OrganizeMode, e: FileEntry) -> Seq<char> {
    match mode {
        OrganizeMode::Extension => {
            let c = spec_classify(e.name@);
            c.spec_emoji() + " "@ + c.spec_folder_name()
        },
        OrganizeMode::Size => {
            let sc = FileSizeCategory::spec_from_size(e.size->0);
            sc.spec_emoji() + " "@ + sc.spec_folder_name()
        },
        OrganizeMode::Date => "\u{1f4c5} "@ + year_month_label_of(spec_date_secs(e)->0 as int),
        OrganizeMode::Modified => "\u{1f552} "@ + year_month_label_of(e.modified_secs->0 as int),
        OrganizeMode::Custom => "\u{1f4c2} Custom"@,
    }
}

/// The destination path of an entry: `<target>/<label>/<name>`.
pub open spec fn spec_destination(target: Seq<char>, mode: OrganizeMode, e: FileEntry) -> Seq<
    char,
> {
    target + "/"@ + spec_label(mode, e) + "/"@ + e.name@
}

/// Which planning error an entry raises under a mode, when it raises one.
pub open spec fn spec_entry_error(mode: OrganizeMode, e: FileEntry, err: PlanError) -> bool {
    match err {
        PlanError::MetadataUnavailable { path } => mode is Size && e.size is None && path@
            == e.path@,
        PlanError::TimestampUnavailable { path } => ((mode is Date && spec_date_secs(e) is None)
            || (mode is Modified && e.modified_secs is None)) && path@ == e.path@,
        PlanError::TimestampOutOfRange { path } => ((mode is Date && spec_date_secs(e) is Some
            && !in_label_range(spec_date_secs(e)->0 as int)) || (mode is Modified
            && e.modified_secs is Some && !in_label_range(e.modified_secs->0 as int))) && path@
            == e.path@,
    }
}

/// Whether an entry's extension is a case-insensitive member of the filter
/// list. An entry without an extension never matches.
pub open spec fn spec_matches_filter(e: FileEntry, filters: Seq<String>) -> bool {
    match spec_extension(e.name@) {
        Some(x) => exists|j: int| 0 <= j < filters.len() && case_eq(x, filters[j]@),
        None => false,
    }
}

fn matches_filter(e: &FileEntry, filters: &Vec<String>) -> (r: bool)
    ensures
        r == spec_matches_filter(*e, filters@),
{
    match extension_of(e.name.as_str()) {
        Some(x) => {
            let n = filters.len();
            let mut j: usize = 0;
            while j < n
                invariant
                    j <= n,
                    n == filters@.len(),
                    spec_extension(e.name@) == Some(x@),
                    forall|k: int| 0 <= k < j ==> !case_eq(x@, filters@[k]@),
                decreases n - j,
            {
                if str_case_eq(x, filters[j].as_str()) {
                    return true;
                }
                j += 1;
            }
            false
        },
        None => false,
    }
}

/// Main file organizer struct.
pub struct FileOrganizer {
    classifier: FileTypeClassifier,
}

impl FileOrganizer {
    /// Create a new file organizer.
    pub fn new() -> (r: Self) {
        FileOrganizer { classifier: FileTypeClassifier::new() }
    }

    /// Filter files based on provided filters: an entry stays exactly when
    /// its extension is a case-insensitive member of the list.
    pub fn filter_files(&self, files: &Vec<FileEntry>, filters: &Vec<String>) -> (r: Vec<
        FileEntry,
    >)
        ensures
            r@ == files@.filter(|e: FileEntry| spec_matches_filter(e, filters@)),
    {
        let ghost pred = |e: FileEntry| spec_matches_filter(e, filters@);
        let mut r: Vec<FileEntry> = Vec::new();
        let n = files.len();
        let mut i: usize = 0;
        proof {
            assert(files@.subrange(0, 0).filter(pred) =~= Seq::<FileEntry>::empty());
        }
        while i < n
            invariant
                i <= n,
                n == files@.len(),
                r@ == files@.subrange(0, i as int).filter(pred),
                pred == (|e: FileEntry| spec_matches_filter(e, filters@)),
            decreases n - i,
        {
            let keep = matches_filter(&files[i], filters);
            if keep {
                r.push(files[i].clone());
            }
            proof {
                let s1 = files@.subrange(0, i + 1);
                assert(s1.drop_last() =~= files@.subrange(0, i as int));
                assert(s1.last() == files@[i as int]);
                reveal_with_fuel(Seq::filter, 2);
            }
            i += 1;
        }
        proof {
            assert(files@.subrange(0, n as int) =~= files@);
        }
        r
    }

    /// Applies an optional extension filter: with no filter the input passes
    /// through unchanged.
    pub fn apply_filter(&self, files: &Vec<FileEntry>, filters: Option<&Vec<String>>) -> (r: Vec<
        FileEntry,
    >)
        ensures
            filters is None ==> r@ == files@,
            filters matches Some(f) ==> r@ == files@.filter(
                |e: FileEntry| spec_matches_filter(e, f@),
            ),
    {
        match filters {
            Some(f) => self.filter_files(files, f),
            None => {
                let r = files.clone();
                proof {
                    assert(r@ =~= files@);
                }
                r
            },
        }
    }

    /// Plan the organization operations: one move per input file, into
    /// `<target>/<label>/<name>`, where the label is picked by the mode.
    /// Planning fails fast on the first entry whose mode needs a value that
    /// is missing or a timestamp the calendar conversion rejects.
    pub fn plan_organization(
        &self,
        files: &Vec<FileEntry>,
        target_dir: &str,
        mode: &OrganizeMode,
    ) -> (r: Result<Vec<FileOperation>, PlanError>)
        ensures
            r matches Ok(ops) ==> {
                &&& ops@.len() == files@.len()
                &&& forall|i: int|
                    0 <= i < files@.len() ==> (#[trigger] ops@[i]).source@ == files@[i].path@
                &&& forall|i: int|
                    0 <= i < files@.len() ==> (#[trigger] ops@[i]).destination@
                        == spec_destination(target_dir@, *mode, files@[i])
                &&& forall|i: int|
                    0 <= i < files@.len() ==> (#[trigger] ops@[i]).operation_type is Move
                &&& forall|i: int|
                    0 <= i < files@.len() ==> spec_entry_has_data(*mode, #[trigger] files@[i])
            },
            (forall|i: int| 0 <= i < files@.len() ==> spec_entry_ok(*mode, #[trigger] files@[i]))
                ==> r is Ok,
            r matches Err(e) ==> exists|i: int|
                0 <= i < files@.len() && spec_entry_error(*mode, #[trigger] files@[i], e) && (
                forall|k: int| 0 <= k < i ==> spec_entry_has_data(*mode, #[trigger] files@[k])),
    {
        let mut operations: Vec<FileOperation> = Vec::new();
        let n = files.len();
        let mut idx: usize = 0;
        while idx < n
            invariant
                idx <= n,
                n == files@.len(),
                operations@.len() == idx,
                forall|i: int|
                    0 <= i < idx ==> (#[trigger] operations@[i]).source@ == files@[i].path@,
                forall|i: int|
                    0 <= i < idx ==> (#[trigger] operations@[i]).destination@ == spec_destination(
                        target_dir@,
                        *mode,
                        files@[i],
                    ),
                forall|i: int|
                    0 <= i < idx ==> (#[trigger] operations@[i]).operation_type is Move,
                forall|i: int| 0 <= i < idx ==> spec_entry_has_data(*mode, #[trigger] files@[i]),
            decreases n - idx,
        {
            let entry = &files[idx];
            let label: String = match mode {
                OrganizeMode::Extension => {
                    let cat = self.classifier.classify(entry.name.as_str());
                    let mut l = cat.emoji().to_owned();
                    l.append(" ");
                    l.append(cat.folder_name());
                    l
                },
                OrganizeMode::Size => {
                    match entry.size {
                        Some(sz) => {
                            let sc = FileSizeCategory::from_size(sz);
                            let mut l = sc.emoji().to_owned();
                            l.append(" ");
                            l.append(sc.folder_name());
                            l
                        },
                        None => {
                            return Err(
                                PlanError::MetadataUnavailable { path: entry.path.clone() },
                            );
                        },
                    }
                },
                OrganizeMode::Date => {
                    let secs_opt = if entry.created_secs.is_some() {
                        entry.created_secs
                    } else {
                        entry.modified_secs
                    };
                    match secs_opt {
                        Some(secs) => {
                            match year_month_label(secs) {
                                Some(ym) => {
                                    let mut l = "\u{1f4c5} ".to_owned();
                                    l.append(ym.as_str());
                                    l
                                },
                                None => {
                                    return Err(
                                        PlanError::TimestampOutOfRange { path: entry.path.clone() },
                                    );
                                },
                            }
                        },
                        None => {
                            return Err(
                                PlanError::TimestampUnavailable { path: entry.path.clone() },
                            );
                        },
                    }
                },
                OrganizeMode::Modified => {
                    match entry.modified_secs {
                        Some(secs) => {
                            match year_month_label(secs) {
                                Some(ym) => {
                                    let mut l = "\u{1f552} ".to_owned();
                                    l.append(ym.as_str());
                                    l
                                },
                                None => {
                                    return Err(
                                        PlanError::TimestampOutOfRange { path: entry.path.clone() },
                                    );
                                },
                            }
                        },
                        None => {
                            return Err(
                                PlanError::TimestampUnavailable { path: entry.path.clone() },
                            );
                        },
                    }
                },
                OrganizeMode::Custom => "\u{1f4c2} Custom".to_owned(),
            };
            let mut dest = target_dir.to_owned();
            dest.append("/");
            dest.append(label.as_str());
            dest.append("/");
            dest.append(entry.name.as_str());
            let op = FileOperation {
                source: entry.path.clone(),
                destination: dest,
                operation_type: OperationType::Move,
            };
            operations.push(op);
            idx += 1;
        }
        Ok(operations)
    }
}

/// Planning is deterministic: the destination of every file is a function of
/// the file set, the target directory and the mode alone, so planning the
/// same unmoved file set twice assigns identical destination paths.
pub proof fn lemma_planning_idempotent(
    files: Seq<FileEntry>,
    target: Seq<char>,
    mode: OrganizeMode,
    dests1: Seq<Seq<char>>,
    dests2: Seq<Seq<char>>,
)
    requires
        dests1.len() == files.len(),
        dests2.len() == files.len(),
        forall|i: int|
            0 <= i < files.len() ==> dests1[i] == spec_destination(
                target,
                mode,
                #[trigger] files[i],
            ),
        forall|i: int|
            0 <= i < files.len() ==> dests2[i] == spec_destination(
                target,
                mode,
                #[trigger] files[i],
            ),
    ensures
        dests1 == dests2,
{
    assert forall|i: int| 0 <= i < files.len() implies dests1[i] == dests2[i] by {
        assert(dests1[i] == spec_destination(target, mode, files[i]));
        assert(dests2[i] == spec_destination(target, mode, files[i]));
    }
    assert(dests1 =~~= dests2);
}

/// Filtering never invents entries: what the filter keeps is no longer than
/// the input, and every kept entry's extension matched the list.
pub proof fn lemma_filter_is_subset(
    files: Seq<FileEntry>,
    filters: Seq<String>,
    kept: Seq<FileEntry>,
)
    requires
        kept == files.filter(|e: FileEntry| spec_matches_filter(e, filters)),
    ensures
        kept.len() <= files.len(),
        forall|i: int| 0 <= i < kept.len() ==> spec_matches_filter(#[trigger] kept[i], filters),
{
    let pred = |e: FileEntry| spec_matches_filter(e, filters);
    files.lemma_filter_len(pred);
    assert forall|i: int| 0 <= i < kept.len() implies spec_matches_filter(
        #[trigger] kept[i],
        filters,
    ) by {
        files.lemma_filter_pred(pred, i);
    }
}

} // verus!
