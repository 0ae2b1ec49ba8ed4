//! The audit log builder: per-file records and the run document that
//! aggregates them. Purely structural — no file is read or written here.
//!
//! A record is created once per enumerated file and never changed: its size
//! is the file's length captured before any pass began, whatever the
//! overwrite later did to the on-disk length. The run document is assembled
//! once, after every file has been processed, and stamped with the current
//! UTC time at that single point.

use vstd::prelude::*;
use vstd::string::*;
use vstd::multiset::Multiset;
use crate::policy::{Policy, spec_policy_name};

verus! {

/// One file as the directory enumeration reported it: name, length in bytes
/// at enumeration time, and display path.
pub struct FileEntry {
    /// The file's name within the target directory.
    pub name: String,
    /// The file's length in bytes before any pass began.
    pub size_bytes: u64,
    /// The file's display path.
    pub path: String,
}

/// How processing one file ended.
pub enum WipeOutcome {
    /// Dry-run: nothing was written, the wipe was only simulated.
    DryRun,
    /// Every pass completed; the descriptors of the passes, in pass order.
    Completed(Vec<String>),
    /// An open, seek or write error aborted this file; the run went on.
    Failed,
}

/// The audit record of one file: created once, immutable afterwards.
pub struct FileRecord {
    /// The file's name.
    pub name: String,
    /// The file's length in bytes immediately before any pass began.
    pub size_bytes: u64,
    /// The file's display path.
    pub path: String,
    /// The descriptors of the passes performed (or simulated), in order.
    pub passes: Vec<String>,
    /// `completed`, `dry-run` or `error`.
    pub status: String,
}

/// The finished audit document of one run.
pub struct WipeLog {
    /// The target directory that was processed.
    pub folder: String,
    /// The completion timestamp, UTC, RFC 3339.
    pub wiped_at: String,
    /// The name of the policy that was applied.
    pub policy: String,
    /// One record per processed file, in processing order.
    pub files: Vec<FileRecord>,
}

/// What the record of entry `e` with outcome `o` must hold: the entry's
/// name, pre-wipe size and path unchanged, and passes and status determined
/// by the outcome alone.
pub open spec fn record_matches(e: FileEntry, o: WipeOutcome, r: FileRecord) -> bool {
    &&& r.name@ == e.name@
    &&& r.size_bytes == e.size_bytes
    &&& r.path@ == e.path@
    &&& match o {
        WipeOutcome::DryRun => r.passes.deep_view() == seq!["Dry run: no data overwritten"@]
            && r.status@ == "dry-run"@,
        WipeOutcome::Completed(p) => r.passes.deep_view() == p.deep_view() && r.status@
            == "completed"@,
        WipeOutcome::Failed => r.passes.deep_view() == seq!["Error overwriting file"@]
            && r.status@ == "error"@,
    }
}

/// A vector holding exactly one given string.
fn single(s: String) -> (r: Vec<String>)
    ensures
        r.deep_view() == seq![s@],
{
    let ghost sv = s@;
    let mut r: Vec<String> = Vec::new();
    r.push(s);
    proof {
        assert(r.deep_view() =~= seq![sv]);
    }
    r
}

/// The audit record of one file: the entry's name, size and path as
/// enumerated, with passes and status given by the outcome — the completed
/// descriptors for a finished wipe, the single simulation descriptor under
/// dry-run, the single error descriptor for a failed file.
pub fn record_for(entry: FileEntry, outcome: WipeOutcome) -> (r: FileRecord)
    ensures
        record_matches(entry, outcome, r),
{
    let FileEntry { name, size_bytes, path } = entry;
    match outcome {
        WipeOutcome::DryRun => FileRecord {
            name,
            size_bytes,
            path,
            passes: single(String::from_str("Dry run: no data overwritten")),
            status: String::from_str("dry-run"),
        },
        WipeOutcome::Completed(passes) => FileRecord {
            name,
            size_bytes,
            path,
            passes,
            status: String::from_str("completed"),
        },
        WipeOutcome::Failed => FileRecord {
            name,
            size_bytes,
            path,
            passes: single(String::from_str("Error overwriting file")),
            status: String::from_str("error"),
        },
    }
}

/// The records of all enumerated files, in enumeration order: the `i`-th
/// record is the record of the `i`-th entry under the `i`-th outcome. Every
/// enumerated file gets exactly one record — none is dropped, none added.
pub fn build_records(entries: Vec<FileEntry>, outcomes: Vec<WipeOutcome>) -> (r: Vec<FileRecord>)
    requires
        entries@.len() == outcomes@.len(),
    ensures
        r@.len() == entries@.len(),
        forall|i: int|
            0 <= i < r@.len() ==> record_matches(entries@[i], outcomes@[i], r@[i]),
{
    let ghost orig_e = entries@;
    let ghost orig_o = outcomes@;
    let mut entries = entries;
    let mut outcomes = outcomes;
    let mut r: Vec<FileRecord> = Vec::new();
    while entries.len() > 0
        invariant
            entries@.len() == outcomes@.len(),
            r@.len() + entries@.len() == orig_e.len(),
            orig_o.len() == orig_e.len(),
            entries@ == orig_e.subrange(r@.len() as int, orig_e.len() as int),
            outcomes@ == orig_o.subrange(r@.len() as int, orig_o.len() as int),
            forall|i: int|
                0 <= i < r@.len() ==> record_matches(orig_e[i], orig_o[i], r@[i]),
        decreases entries@.len(),
    {
        let ghost k = r@.len() as int;
        let e = entries.remove(0);
        let o = outcomes.remove(0);
        let ghost ge = e;
        let ghost go = o;
        proof {
            assert(ge == orig_e[k]);
            assert(go == orig_o[k]);
            assert(entries@ =~= orig_e.subrange(k + 1, orig_e.len() as int));
            assert(outcomes@ =~= orig_o.subrange(k + 1, orig_o.len() as int));
        }
        let rec = record_for(e, o);
        r.push(rec);
    }
    r
}

/// The current UTC time in RFC 3339 form.
///
/// Relies on `chrono::Utc::now` and `DateTime::to_rfc3339`: the result is
/// the clock's answer formatted as an RFC 3339 timestamp. Nothing is
/// assumed of its value — it depends on the moment of the call.
#[verifier::external_body]
fn now_rfc3339() -> String {
    chrono::Utc::now().to_rfc3339()
}

/// The finished audit document: the target folder, the policy's name, the
/// given records unchanged and in order, stamped with the UTC completion
/// time taken once, here, after all files were processed.
pub fn finalize(folder: String, policy: &Policy, records: Vec<FileRecord>) -> (r: WipeLog)
    ensures
        r.folder@ == folder@,
        r.policy@ == spec_policy_name(*policy),
        r.files == records,
{
    WipeLog { folder, wiped_at: now_rfc3339(), policy: policy.name(), files: records }
}

/// The names of a run's entries, as a multiset (processing order is
/// filesystem-dependent; the audit invariant is order-independent).
pub open spec fn entry_names(entries: Seq<FileEntry>) -> Multiset<Seq<char>> {
    entries.map(|i: int, e: FileEntry| e.name@).to_multiset()
}

/// The names of a run's records, as a multiset.
pub open spec fn record_names(records: Seq<FileRecord>) -> Multiset<Seq<char>> {
    records.map(|i: int, r: FileRecord| r.name@).to_multiset()
}

/// The audit invariant: every file entry present at enumeration time
/// appears in the log exactly once — the names in the records of
/// `build_records` are exactly the names of the enumerated entries,
/// multiplicities included, regardless of processing order.
pub proof fn lemma_log_covers_all_entries(
    entries: Seq<FileEntry>,
    outcomes: Seq<WipeOutcome>,
    records: Seq<FileRecord>,
)
    requires
        records.len() == entries.len(),
        forall|i: int| 0 <= i < records.len() ==> record_matches(entries[i], outcomes[i], records[i]),
    ensures
        record_names(records) == entry_names(entries),
        forall|n: Seq<char>| record_names(records).count(n) == entry_names(entries).count(n),
{
    let en = entries.map(|i: int, e: FileEntry| e.name@);
    let rn = records.map(|i: int, r: FileRecord| r.name@);
    assert(en =~= rn);
    assert(record_names(records) == entry_names(entries));
}

} // verus!
