//! Choosing and ordering the configuration backups found in the backup
//! directory.
use vstd::prelude::*;
use crate::stable_sort::{insert_by_key, law_sort_by_key, lemma_insert_at, sort_by_key};
use crate::time::{Timestamp, NANOS_PER_SEC};

verus! {

/// A configuration backup.
#[derive(Debug)]
pub struct BackupInfo {
    pub filename: String,
    pub path: String,
    pub created: Timestamp,
    pub size: u64,
}

/// [`BackupInfo`] by its views.
pub struct BackupInfoView {
    pub filename: Seq<char>,
    pub path: Seq<char>,
    pub created: int,
    pub size: u64,
}

impl View for BackupInfo {
    type V = BackupInfoView;

    open spec fn view(&self) -> BackupInfoView {
        BackupInfoView {
            filename: self.filename@,
            path: self.path@,
            created: self.created@,
            size: self.size,
        }
    }
}

/// An entry of the backup directory, with whether it is a regular file.
#[derive(Debug)]
pub struct BackupCandidate {
    pub info: BackupInfo,
    pub is_file: bool,
}

/// Whether a file name has the extension `json`: it ends in `.json` and
/// something comes before that dot.
pub open spec fn has_json_extension(name: Seq<char>) -> bool {
    let n = name.len();
    &&& n > 5
    &&& name[n - 5] == '.'
    &&& name[n - 4] == 'j'
    &&& name[n - 3] == 's'
    &&& name[n - 2] == 'o'
    &&& name[n - 1] == 'n'
}

/// Whether a directory entry is listed as a backup.
pub open spec fn is_backup(c: BackupCandidate) -> bool {
    c.is_file && has_json_extension(c.info.filename@)
}

/// The key that orders backups newest first.
pub open spec fn newest_key() -> spec_fn(BackupInfoView) -> int {
    |b: BackupInfoView| -b.created
}

/// `s` ordered newest first; entries created at the same instant keep their
/// order.
pub open spec fn newest_first(s: Seq<BackupInfoView>) -> Seq<BackupInfoView> {
    sort_by_key(s, newest_key())
}

/// Whether `s` is ordered newest first.
pub open spec fn is_newest_first(s: Seq<BackupInfoView>) -> bool {
    forall|i: int, j: int| 0 <= i < j < s.len() ==> s[i].created >= s[j].created
}

/// The backups among `candidates`, in their order.
pub open spec fn backups_of(candidates: Seq<BackupCandidate>) -> Seq<BackupInfoView>
    decreases candidates.len(),
{
    if candidates.len() == 0 {
        Seq::empty()
    } else if is_backup(candidates.last()) {
        backups_of(candidates.drop_last()).push(candidates.last().info@)
    } else {
        backups_of(candidates.drop_last())
    }
}

/// Entries ordered newest first, entries kept.
pub proof fn law_newest_first(s: Seq<BackupInfoView>)
    ensures
        is_newest_first(newest_first(s)),
        newest_first(s).to_multiset() == s.to_multiset(),
        newest_first(s).len() == s.len(),
{
    law_sort_by_key(s, newest_key());
    let r = newest_first(s);
    assert forall|i: int, j: int| 0 <= i < j < r.len() implies r[i].created >= r[j].created by {
        assert(newest_key()(r[i]) <= newest_key()(r[j]));
    }
}

/// Whether a file name has the extension `json`.
pub fn is_json_file_name(name: &str) -> (r: bool)
    ensures
        r == has_json_extension(name@),
{
    let n = name.unicode_len();
    if n <= 5 {
        return false;
    }
    name.get_char(n - 5) == '.' && name.get_char(n - 4) == 'j' && name.get_char(n - 3) == 's'
        && name.get_char(n - 2) == 'o' && name.get_char(n - 1) == 'n'
}

/// The views of a list of backups.
pub open spec fn views_of(v: Seq<BackupInfo>) -> Seq<BackupInfoView> {
    v.map_values(|b: BackupInfo| b@)
}

/// The backups among the entries of the backup directory: regular files
/// whose name has the extension `json`, newest first; backups created at the
/// same instant keep the order in which the directory listed them.
pub fn backups_newest_first(candidates: Vec<BackupCandidate>) -> (r: Vec<BackupInfo>)
    ensures
        views_of(r@) == newest_first(backups_of(candidates@)),
{
    let ghost orig = candidates@;
    let mut candidates = candidates;
    let mut out: Vec<BackupInfo> = Vec::new();
    let n = candidates.len();
    let mut i: usize = 0;
    while i < n
        invariant
            n == orig.len(),
            i <= n,
            candidates@ == orig.skip(i as int),
            views_of(out@) == newest_first(backups_of(orig.take(i as int))),
        decreases n - i,
    {
        assert(candidates@[0] == orig[i as int]);
        let c = candidates.remove(0);
        assert(orig.take(i + 1).drop_last() =~= orig.take(i as int));
        assert(orig.take(i + 1).last() == orig[i as int]);
        if c.is_file && is_json_file_name(c.info.filename.as_str()) {
            let ghost before = views_of(out@);
            let x = c.info;
            let mut pos = out.len();
            while pos > 0 && !x.created.is_not_after(&out[pos - 1].created)
                invariant
                    0 <= pos <= out@.len(),
                    before == views_of(out@),
                    forall|j: int| pos <= j < out@.len() ==> #[trigger] before[j].created < x@.created,
                decreases pos,
            {
                pos = pos - 1;
            }
            proof {
                lemma_insert_at(before, x@, newest_key(), pos as int);
            }
            out.insert(pos, x);
            assert(views_of(out@) =~= before.take(pos as int).push(x@) + before.skip(pos as int));
            assert(newest_first(backups_of(orig.take(i + 1))) == insert_by_key(before, x@, newest_key())) by {
                assert(backups_of(orig.take(i + 1)).drop_last() =~= backups_of(orig.take(i as int)));
            }
        } else {
            assert(backups_of(orig.take(i + 1)) == backups_of(orig.take(i as int)));
        }
        assert(candidates@ =~= orig.skip(i + 1));
        i = i + 1;
    }
    assert(orig.take(n as int) =~= orig);
    out
}

/// The UTC date and time of the instant `secs` seconds and `nanos`
/// nanoseconds after the epoch, as `chrono` writes it with the format
/// `%Y%m%d_%H%M%S`.
pub uninterp spec fn compact_utc_stamp(secs: int, nanos: int) -> Seq<char>;

/// `chrono::DateTime::<Utc>::from_timestamp` followed by
/// `format("%Y%m%d_%H%M%S")`: the date and time of the instant in UTC,
/// written as year, month, day, an underscore, then hour, minute, second.
/// The result is named as a function of the two arguments; where chrono has
/// no date for them, the text is empty (no instant of [`Timestamp`] is such).
/// Nothing more is stated of the text.
#[verifier::external_body]
fn format_compact_utc(secs: i64, nanos: u32) -> (s: String)
    ensures
        s@ == compact_utc_stamp(secs as int, nanos as int),
{
    match chrono::DateTime::from_timestamp(secs, nanos) {
        Some(t) => t.format("%Y%m%d_%H%M%S").to_string(),
        None => String::new(),
    }
}

/// The file name of a backup whose time stamp is `stamp`:
/// `config_backup_<stamp>.json`.
pub fn backup_file_name(stamp: &str) -> (s: String)
    ensures
        s@ == "config_backup_"@ + stamp@ + ".json"@,
{
    let mut s = String::from_str("config_backup_");
    s.append(stamp);
    s.append(".json");
    s
}

/// The file name of a backup made at `now`: `config_backup_`, the UTC date
/// and time as `YYYYMMDD_HHMMSS`, then `.json`.
pub fn backup_filename(now: &Timestamp) -> (s: String)
    ensures
        s@ == "config_backup_"@ + compact_utc_stamp(
            now@ / (NANOS_PER_SEC as int),
            now@ % (NANOS_PER_SEC as int),
        ) + ".json"@,
{
    let stamp = format_compact_utc(now.secs(), now.nanos());
    backup_file_name(stamp.as_str())
}

} // verus!
