//! What the watcher does with one file that matched a watched pattern.
//!
//! For every matching path the binary computes the file's checksum, looks
//! its record up in the local database and, if needed, reads the file's
//! modification time.  The functions here decide, from those answers,
//! whether the file is skipped or sent, which data sources it is sent to,
//! and whether its transmission is recorded.

use vstd::prelude::*;
use crate::config::FileConfig;
use crate::errors::WatcherError;
use crate::messages::DataSourceMessage;
use crate::registry::{DataSourceRegistry, configured_source, lemma_registered_all_is_configured, registered_all};
use crate::timestamps::{Instant, later, parse_rfc3339, rfc3339_instant};

verus! {

/// A file's row in the local database.
pub struct FileRecord {
    /// Checksum of the contents at the last transmission.
    pub checksum: Option<u32>,
    /// RFC 3339 time of the last transmission.
    pub transmitted_at: Option<String>,
}

/// The answer of the database to "which record has this path?".
pub enum DbLookup {
    Found(FileRecord),
    /// No row for the path.
    NotFound,
    /// The query failed for another reason.
    Failed,
}

/// The first decision about a matching file, taken from its database record.
#[derive(Debug, PartialEq, Eq, Structural)]
pub enum LookupVerdict {
    /// Known but never transmitted: send it.
    Transmit,
    /// Unknown: insert its record, then send it.
    RegisterThenTransmit,
    /// Transmitted before: compare its modification time and checksum with
    /// those of the transmission.
    CompareWithTransmission,
    /// The database could not be asked: leave the file for the next scan.
    Skip,
}

/// The verdict for a database answer.
pub open spec fn lookup_verdict_of(lookup: DbLookup) -> LookupVerdict {
    match lookup {
        DbLookup::Found(r) => match r.transmitted_at {
            None => LookupVerdict::Transmit,
            Some(_) => LookupVerdict::CompareWithTransmission,
        },
        DbLookup::NotFound => LookupVerdict::RegisterThenTransmit,
        DbLookup::Failed => LookupVerdict::Skip,
    }
}

/// Decides what to do with a matching file from its database record.
pub fn lookup_verdict(lookup: &DbLookup) -> (v: LookupVerdict)
    ensures
        v == lookup_verdict_of(*lookup),
{
    match lookup {
        DbLookup::Found(r) => match &r.transmitted_at {
            None => LookupVerdict::Transmit,
            Some(_) => LookupVerdict::CompareWithTransmission,
        },
        DbLookup::NotFound => LookupVerdict::RegisterThenTransmit,
        DbLookup::Failed => LookupVerdict::Skip,
    }
}

/// A transmitted file is sent again only when it was modified after the
/// transmission and its checksum differs from the stored one (a missing
/// stored checksum differs from every checksum).
pub open spec fn resend(transmitted: Instant, stored: Option<u32>, modified: Instant, checksum: u32) -> bool {
    later(modified, transmitted) && stored != Some(checksum)
}

/// Decides whether a transmitted file is sent again, from the instant of the
/// transmission, the stored checksum, the file's modification time and its
/// current checksum.
pub fn resend_after(transmitted: Instant, stored: Option<u32>, modified: Instant, checksum: u32) -> (send: bool)
    ensures
        send == resend(transmitted, stored, modified, checksum),
{
    if modified.secs > transmitted.secs || (modified.secs == transmitted.secs && modified.nanos > transmitted.nanos) {
        match stored {
            Some(c) => c != checksum,
            None => true,
        }
    } else {
        false
    }
}

/// Decides whether a transmitted file is sent again, reading the time of the
/// transmission from its stored RFC 3339 text.  A text that does not parse
/// stops the watcher with `TimeParseError`.
pub fn resend_after_text(
    transmitted_at: &str,
    stored: Option<u32>,
    modified: Instant,
    checksum: u32,
) -> (r: Result<bool, WatcherError>)
    ensures
        match rfc3339_instant(transmitted_at@) {
            Some(t) => r == Ok::<bool, WatcherError>(
                resend(Instant { secs: t.0, nanos: t.1 }, stored, modified, checksum),
            ),
            None => r matches Err(WatcherError::TimeParseError(_)),
        },
{
    match parse_rfc3339(transmitted_at) {
        Ok(t) => Ok(resend_after(t, stored, modified, checksum)),
        Err(e) => Err(WatcherError::TimeParseError(e)),
    }
}

/// The data sources a file is sent to, in order: the entry's timeseries data
/// source, then its metadata data source, each only if it has a serving task.
/// Nothing is sent by default while a plugin is loaded: the plugin processes
/// the file instead.
pub open spec fn targets(file: FileConfig, served: Map<u64, u64>, plugin_loaded: bool) -> Seq<u64> {
    if plugin_loaded {
        Seq::empty()
    } else {
        let first = match file.data_source_id {
            Some(i) => if served.contains_key(i) { seq![i] } else { Seq::empty() },
            None => Seq::empty(),
        };
        let second = match file.metadata_data_source_id {
            Some(i) => if served.contains_key(i) { seq![i] } else { Seq::empty() },
            None => Seq::empty(),
        };
        first + second
    }
}

/// A data source of the entry, if it has a serving task.
pub open spec fn served_source(id: Option<u64>, served: Map<u64, u64>) -> Option<u64> {
    match id {
        Some(i) => if served.contains_key(i) { Some(i) } else { None },
        None => None,
    }
}

/// What a loaded plugin is handed in place of the default upload: the file,
/// and the data sources it may send to.
pub struct PluginHandoff {
    pub path: String,
    /// The entry's timeseries data source, if it is served.
    pub timeseries: Option<u64>,
    /// The entry's metadata data source, if it is served.
    pub metadata: Option<u64>,
}

/// What follows the decision to send a file.
pub struct DispatchPlan {
    /// Messages, each to the data source whose id it is paired with.
    pub sends: Vec<(u64, DataSourceMessage)>,
    /// The processing by a loaded plugin, if there is one.
    pub plugin: Option<PluginHandoff>,
    /// Whether the transmission time and checksum are written to the file's record.
    pub record_transmission: bool,
}

/// `plan` hands the file at `path` to the plugin exactly when one is loaded,
/// with the entry's served data sources.
pub open spec fn handoff_of(plan: DispatchPlan, file: FileConfig, served: Map<u64, u64>, plugin_loaded: bool, path: Seq<char>) -> bool {
    if plugin_loaded {
        &&& plan.plugin matches Some(h)
        &&& plan.plugin->0.path@ == path
        &&& plan.plugin->0.timeseries == served_source(file.data_source_id, served)
        &&& plan.plugin->0.metadata == served_source(file.metadata_data_source_id, served)
    } else {
        plan.plugin is None
    }
}

/// `plan` sends `File(path)` to exactly the data sources in `ids`, in order.
pub open spec fn sends_file_to(plan: DispatchPlan, ids: Seq<u64>, path: Seq<char>) -> bool {
    &&& plan.sends@.len() == ids.len()
    &&& forall|k: int|
        0 <= k < ids.len() ==> {
            &&& (#[trigger] plan.sends@[k]).0 == ids[k]
            &&& plan.sends@[k].1 matches DataSourceMessage::File(p) && p@ == path
        }
}

/// The data source `id`, if it has a serving task.
fn served_id(id: Option<u64>, registry: &DataSourceRegistry) -> (r: Option<u64>)
    ensures
        r == served_source(id, registry@),
{
    match id {
        Some(i) => if registry.contains(i) { Some(i) } else { None },
        None => None,
    }
}

/// Adds `File(path)` for `id` if `id` has a serving task.
fn push_if_served(
    sends: &mut Vec<(u64, DataSourceMessage)>,
    id: Option<u64>,
    registry: &DataSourceRegistry,
    path: &String,
)
    ensures
        ({
            let added: Seq<u64> = match id {
                Some(i) => if registry@.contains_key(i) { seq![i] } else { Seq::empty() },
                None => Seq::empty(),
            };
            &&& final(sends)@.len() == old(sends)@.len() + added.len()
            &&& forall|k: int| 0 <= k < old(sends)@.len() ==> #[trigger] final(sends)@[k] == old(sends)@[k]
            &&& forall|k: int|
                0 <= k < added.len() ==> {
                    &&& (#[trigger] final(sends)@[old(sends)@.len() + k]).0 == added[k]
                    &&& final(sends)@[old(sends)@.len() + k].1 matches DataSourceMessage::File(p)
                        && p@ == path@
                }
        }),
{
    match id {
        Some(i) => {
            if registry.contains(i) {
                sends.push((i, DataSourceMessage::File(path.clone())));
            }
        },
        None => {},
    }
}

/// Plans the sending of a file that has to be (re)sent: while a plugin is
/// loaded the file is handed to it (with the entry's served data sources),
/// nothing is sent by default and nothing recorded; otherwise the path goes
/// to the entry's timeseries and then metadata data source (each only if it
/// is served), and the transmission is recorded.
pub fn dispatch_plan(
    file: &FileConfig,
    registry: &DataSourceRegistry,
    plugin_loaded: bool,
    path: &String,
) -> (plan: DispatchPlan)
    ensures
        sends_file_to(plan, targets(*file, registry@, plugin_loaded), path@),
        handoff_of(plan, *file, registry@, plugin_loaded, path@),
        plan.record_transmission == !plugin_loaded,
{
    let mut sends: Vec<(u64, DataSourceMessage)> = Vec::new();
    if plugin_loaded {
        let handoff = PluginHandoff {
            path: path.clone(),
            timeseries: served_id(file.data_source_id, registry),
            metadata: served_id(file.metadata_data_source_id, registry),
        };
        return DispatchPlan { sends, plugin: Some(handoff), record_transmission: false };
    }
    let ghost added1: Seq<u64> = match file.data_source_id {
        Some(i) => if registry@.contains_key(i) { seq![i] } else { Seq::empty() },
        None => Seq::empty(),
    };
    let ghost added2: Seq<u64> = match file.metadata_data_source_id {
        Some(i) => if registry@.contains_key(i) { seq![i] } else { Seq::empty() },
        None => Seq::empty(),
    };
    push_if_served(&mut sends, file.data_source_id, registry, path);
    let ghost after_first = sends@;
    assert forall|k: int| 0 <= k < added1.len() implies {
        &&& (#[trigger] after_first[k]).0 == added1[k]
        &&& after_first[k].1 matches DataSourceMessage::File(p) && p@ == path@
    } by {
        assert(after_first[0 + k] == after_first[k]);
    }
    push_if_served(&mut sends, file.metadata_data_source_id, registry, path);
    let ghost ids = targets(*file, registry@, plugin_loaded);
    assert(ids =~= added1 + added2);
    assert forall|k: int| 0 <= k < ids.len() implies {
        &&& (#[trigger] sends@[k]).0 == ids[k]
        &&& sends@[k].1 matches DataSourceMessage::File(p) && p@ == path@
    } by {
        if k < after_first.len() {
            assert(sends@[k] == after_first[k]);
        } else {
            assert(sends@[after_first.len() + (k - after_first.len())] == sends@[k]);
        }
    }
    DispatchPlan { sends, plugin: None, record_transmission: true }
}

/// `plan` is what `dispatch_plan` answers for a file of `file`'s entry at `path`.
pub open spec fn dispatched(plan: DispatchPlan, file: FileConfig, served: Map<u64, u64>, plugin_loaded: bool, path: Seq<char>) -> bool {
    &&& sends_file_to(plan, targets(file, served, plugin_loaded), path)
    &&& handoff_of(plan, file, served, plugin_loaded, path)
    &&& plan.record_transmission == !plugin_loaded
}

/// What the watcher does with one matching file.
pub struct EntryOutcome {
    /// Insert a fresh record for the path (before anything is sent).
    pub insert_record: bool,
    /// The sending to do, or `None` when the file is skipped.
    pub plan: Option<DispatchPlan>,
}

/// The file is skipped: no record is inserted and nothing is dispatched.
pub open spec fn skipped(o: EntryOutcome) -> bool {
    !o.insert_record && o.plan is None
}

/// The file is dispatched as `dispatch_plan` answers, after inserting a
/// record exactly when `insert`.
pub open spec fn sent(o: EntryOutcome, insert: bool, file: FileConfig, served: Map<u64, u64>, plugin_loaded: bool, path: Seq<char>) -> bool {
    &&& o.insert_record == insert
    &&& o.plan matches Some(p) && dispatched(p, file, served, plugin_loaded, path)
}

/// Whether the decision about a file needs its modification time: exactly
/// when it was transmitted before.
pub fn needs_modification_time(lookup: &DbLookup) -> (b: bool)
    ensures
        b == (lookup_verdict_of(*lookup) == LookupVerdict::CompareWithTransmission),
{
    match lookup {
        DbLookup::Found(r) => r.transmitted_at.is_some(),
        _ => false,
    }
}

/// Decides what happens to the file at `path` (of the entry `file`, with
/// contents of checksum `checksum`) from its database record and, for a file
/// transmitted before, its modification time: it is skipped when the
/// database cannot be asked or when it is unchanged since its transmission;
/// an unknown file gets a record first; every other file is dispatched.
pub fn decide_entry(
    file: &FileConfig,
    registry: &DataSourceRegistry,
    plugin_loaded: bool,
    path: &String,
    checksum: u32,
    lookup: &DbLookup,
    modified: Option<Instant>,
) -> (r: Result<EntryOutcome, WatcherError>)
    requires
        lookup_verdict_of(*lookup) == LookupVerdict::CompareWithTransmission ==> modified is Some,
    ensures
        match *lookup {
            DbLookup::Failed => r matches Ok(o) && skipped(o),
            DbLookup::NotFound => r matches Ok(o) && sent(o, true, *file, registry@, plugin_loaded, path@),
            DbLookup::Found(rec) => match rec.transmitted_at {
                None => r matches Ok(o) && sent(o, false, *file, registry@, plugin_loaded, path@),
                Some(text) => match rfc3339_instant(text@) {
                    None => r matches Err(WatcherError::TimeParseError(_)),
                    Some(t) => r matches Ok(o) && if resend(
                        Instant { secs: t.0, nanos: t.1 },
                        rec.checksum,
                        modified->0,
                        checksum,
                    ) {
                        sent(o, false, *file, registry@, plugin_loaded, path@)
                    } else {
                        skipped(o)
                    },
                },
            },
        },
{
    match lookup {
        DbLookup::Failed => Ok(EntryOutcome { insert_record: false, plan: None }),
        DbLookup::NotFound => Ok(EntryOutcome {
            insert_record: true,
            plan: Some(dispatch_plan(file, registry, plugin_loaded, path)),
        }),
        DbLookup::Found(rec) => match &rec.transmitted_at {
            None => Ok(EntryOutcome {
                insert_record: false,
                plan: Some(dispatch_plan(file, registry, plugin_loaded, path)),
            }),
            Some(text) => {
                let m = modified.unwrap();
                let send = resend_after_text(text.as_str(), rec.checksum, m, checksum)?;
                if send {
                    Ok(EntryOutcome {
                        insert_record: false,
                        plan: Some(dispatch_plan(file, registry, plugin_loaded, path)),
                    })
                } else {
                    Ok(EntryOutcome { insert_record: false, plan: None })
                }
            },
        },
    }
}

/// A file modified after its transmission whose contents changed is sent
/// again, whichever way its checksum changed; so is one modified after a
/// transmission that stored no checksum.  "Modified after" is read on the
/// fields: a later second, or the same second and a later nanosecond.
pub proof fn lemma_changed_file_resent(transmitted: Instant, stored: Option<u32>, modified: Instant, checksum: u32)
    requires
        modified.secs > transmitted.secs || (modified.secs == transmitted.secs && modified.nanos > transmitted.nanos),
        match stored {
            Some(c) => c != checksum,
            None => true,
        },
    ensures
        resend(transmitted, stored, modified, checksum),
{
}

/// A file is sent again only when it was modified after its transmission
/// (by the fields) and its stored checksum is not its current one.
pub proof fn lemma_resent_file_changed(transmitted: Instant, stored: Option<u32>, modified: Instant, checksum: u32)
    requires
        resend(transmitted, stored, modified, checksum),
    ensures
        modified.secs > transmitted.secs || (modified.secs == transmitted.secs && modified.nanos > transmitted.nanos),
        stored != Some(checksum),
{
}

/// A file whose contents have the checksum stored at its transmission is
/// never sent again, whatever its modification time.
pub proof fn lemma_unchanged_contents_not_resent(transmitted: Instant, modified: Instant, checksum: u32)
    ensures
        !resend(transmitted, Some(checksum), modified, checksum),
{
}

/// A file not modified after its transmission is never sent again.
pub proof fn lemma_unmodified_file_not_resent(transmitted: Instant, stored: Option<u32>, modified: Instant, checksum: u32)
    requires
        !later(modified, transmitted),
    ensures
        !resend(transmitted, stored, modified, checksum),
{
}

/// A file whose record holds the time and checksum of its transmission, and
/// whose contents still have that checksum, is compared with the
/// transmission and then not sent: the watcher sends each content once.
pub proof fn lemma_recorded_file_not_resent(text: Seq<char>, checksum: u32, modified: Instant, record: FileRecord)
    requires
        record.checksum == Some(checksum),
        record.transmitted_at matches Some(t) && t@ == text,
        rfc3339_instant(text) is Some,
    ensures
        lookup_verdict_of(DbLookup::Found(record)) == LookupVerdict::CompareWithTransmission,
        ({
            let t = rfc3339_instant(text)->0;
            !resend(Instant { secs: t.0, nanos: t.1 }, record.checksum, modified, checksum)
        }),
{
}

/// A file never transmitted, or unknown to the database, is always sent.
pub proof fn lemma_untransmitted_file_sent(record: FileRecord)
    requires
        record.transmitted_at is None,
    ensures
        lookup_verdict_of(DbLookup::Found(record)) == LookupVerdict::Transmit,
        lookup_verdict_of(DbLookup::NotFound) == LookupVerdict::RegisterThenTransmit,
{
}

/// Once every configured data source is registered, a file of any entry is
/// sent to each data source the entry names (timeseries first), unless a
/// plugin is loaded, in which case it is sent nowhere and the plugin is given
/// every data source the entry names.
pub proof fn lemma_configured_entry_reaches_its_sources(files: Seq<FileConfig>, j: int, plugin_loaded: bool)
    requires
        0 <= j < files.len(),
    ensures
        ({
            let f = files[j];
            let served = registered_all(Map::empty(), files);
            let expected = if plugin_loaded {
                Seq::<u64>::empty()
            } else {
                (match f.data_source_id { Some(i) => seq![i], None => Seq::<u64>::empty() })
                    + (match f.metadata_data_source_id { Some(i) => seq![i], None => Seq::<u64>::empty() })
            };
            &&& targets(f, served, plugin_loaded) == expected
            &&& served_source(f.data_source_id, served) == f.data_source_id
            &&& served_source(f.metadata_data_source_id, served) == f.metadata_data_source_id
        }),
{
    let f = files[j];
    match f.data_source_id {
        Some(i) => {
            assert(configured_source(files, i));
            lemma_registered_all_is_configured(files, i);
        },
        None => {},
    }
    match f.metadata_data_source_id {
        Some(i) => {
            assert(configured_source(files, i));
            lemma_registered_all_is_configured(files, i);
        },
        None => {},
    }
}

} // verus!
