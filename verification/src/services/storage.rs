//! The document store: one directory per tenant, one file per record, every
//! file replaced atomically. The store decides; the caller reads and writes.

use crate::clock::{utc_text, Timestamp};
use crate::error::{AppError, AppErrorView};
use crate::ids::{fresh_suffix, is_hex_text};
use crate::models::checkin::{Checkin, PanicEvent};
use crate::models::settings::{GlobalConfig, GlobalConfigView, UserConfig, UserConfigView};
use crate::services::contacts::{contacts_of, first_occurrences};
use crate::services::files::{WritePlan, WritePlanView};
use crate::services::layout::{
    checkin_file_name, checkin_path_of, global_config_path_of, join, join_path, logs_root_of,
    panic_event_file_name, panic_event_path_of, panic_log_dir_of, user_checkins_dir_of,
    user_config_path_of, user_dir_of, user_trips_dir_of, users_root_of,
};
use crate::services::listing::{
    documents, is_newest_first, list_newest_first, newest_first, DirEntryInfo, DirScan, EntryKind,
    Fetched,
};
use crate::text::{
    concat, ends_with, has_suffix, is_blank, is_blank_text, lowercase, lowercase_of, texts,
};
use vstd::prelude::*;

verus! {

/// The strftime pattern of the instant in a panic event's file name.
pub open spec fn stamp_pattern() -> Seq<char> {
    "%Y%m%dT%H%M%SZ"@
}

/// `name` ends in `.json`, in whatever case.
pub open spec fn is_json_name(name: Seq<char>) -> bool {
    has_suffix(lowercase_of(name), ".json"@)
}

/// Whether the entry is read when documents are listed: a regular file, and,
/// where only JSON files count, one whose name ends in `.json`.
pub open spec fn is_wanted(entry: DirEntryInfo, json_only: bool) -> bool {
    entry.kind == EntryKind::File && (json_only ==> is_json_name(entry.name@))
}

/// The paths of the wanted entries of the directory `dir`, in their order.
pub open spec fn wanted_paths(dir: Seq<char>, entries: Seq<DirEntryInfo>, json_only: bool) -> Seq<
    Seq<char>,
>
    decreases entries.len(),
{
    if entries.len() == 0 {
        Seq::empty()
    } else if is_wanted(entries.last(), json_only) {
        wanted_paths(dir, entries.drop_last(), json_only).push(
            join_path(dir, entries.last().name@),
        )
    } else {
        wanted_paths(dir, entries.drop_last(), json_only)
    }
}

/// The names of the directories among the entries, in their order.
pub open spec fn dir_names(entries: Seq<DirEntryInfo>) -> Seq<Seq<char>>
    decreases entries.len(),
{
    if entries.len() == 0 {
        Seq::empty()
    } else if entries.last().kind == EntryKind::Dir {
        dir_names(entries.drop_last()).push(entries.last().name@)
    } else {
        dir_names(entries.drop_last())
    }
}

/// `i` is the first entry whose metadata could not be read.
pub open spec fn is_first_unknown(entries: Seq<DirEntryInfo>, i: int) -> bool {
    &&& 0 <= i < entries.len()
    &&& entries[i].kind == EntryKind::Unknown
    &&& forall|k: int| 0 <= k < i ==> entries[k].kind != EntryKind::Unknown
}

/// The error for an entry whose metadata could not be read.
pub open spec fn unknown_entry_error(dir: Seq<char>, name: Seq<char>) -> AppErrorView {
    AppErrorView::Io("cannot read metadata of "@ + join_path(dir, name))
}

/// How many of the events belong to the tenant.
pub open spec fn events_of_tenant(events: Seq<PanicEvent>, tenant: Seq<char>) -> nat
    decreases events.len(),
{
    if events.len() == 0 {
        0
    } else if events.last().user_uuid@ == tenant {
        events_of_tenant(events.drop_last(), tenant) + 1
    } else {
        events_of_tenant(events.drop_last(), tenant)
    }
}

/// `i` is the first scan that failed.
pub open spec fn is_first_unreadable(scans: Seq<DirScan>, i: int) -> bool {
    &&& 0 <= i < scans.len()
    &&& scans[i] is Unreadable
    &&& forall|k: int| 0 <= k < i ==> !(scans[k] is Unreadable)
}

/// How many of the entries are wanted.
pub open spec fn wanted_count(entries: Seq<DirEntryInfo>, json_only: bool) -> nat
    decreases entries.len(),
{
    if entries.len() == 0 {
        0
    } else if is_wanted(entries.last(), json_only) {
        wanted_count(entries.drop_last(), json_only) + 1
    } else {
        wanted_count(entries.drop_last(), json_only)
    }
}

/// How many check-in files one scan shows: none where the directory is
/// missing.
pub open spec fn checkins_in(scan: DirScan) -> nat {
    match scan {
        DirScan::Entries(entries) => wanted_count(entries@, true),
        _ => 0,
    }
}

/// How many check-in files the scans show together.
pub open spec fn checkins_in_all(scans: Seq<DirScan>) -> nat
    decreases scans.len(),
{
    if scans.len() == 0 {
        0
    } else {
        checkins_in_all(scans.drop_last()) + checkins_in(scans.last())
    }
}

/// Why a read that gave no document failed; `None` where it gave one.
pub open spec fn failure_of<T>(found: Fetched<T>) -> Option<AppErrorView> {
    match found {
        Fetched::Missing => Some(AppErrorView::NotFound),
        Fetched::Unreadable(why) => Some(AppErrorView::Io(why@)),
        Fetched::Empty => Some(AppErrorView::Corrupt("empty document"@)),
        Fetched::Corrupt(why) => Some(AppErrorView::Corrupt(why@)),
        Fetched::Document(_) => None,
    }
}

/// A configuration as it is handed out after loading: one without a name
/// goes by the tenant's identifier.
pub open spec fn named(cfg: UserConfigView, tenant: Seq<char>) -> UserConfigView {
    if is_blank_text(cfg.username) {
        UserConfigView { username: tenant, ..cfg }
    } else {
        cfg
    }
}

/// The tenant configuration on disk after scaffolding, given the one that was
/// there before: an existing one stays, a missing one is seeded.
pub open spec fn stored_after_scaffold(stored: Option<UserConfigView>, username: Seq<char>) -> Option<
    UserConfigView,
> {
    match stored {
        Some(cfg) => Some(cfg),
        None => Some(UserConfigView::seeded(username)),
    }
}

/// Whether scaffolding writes the tenant configuration.
pub open spec fn scaffold_writes(stored: Option<UserConfigView>) -> bool {
    stored is None
}

/// The configuration that scaffolding hands back.
pub open spec fn returned_by_scaffold(
    stored: Option<UserConfigView>,
    tenant: Seq<char>,
    username: Seq<char>,
) -> UserConfigView {
    match stored {
        Some(cfg) => named(cfg, tenant),
        None => UserConfigView::seeded(username),
    }
}

/// What a read of a configuration shows of the configuration on disk.
pub open spec fn stored_config(found: Fetched<UserConfig>) -> Option<UserConfigView> {
    match found {
        Fetched::Document(cfg) => Some(cfg@),
        _ => None,
    }
}

/// What the root tree needs: the directories to make sure of, and the global
/// configuration to write where none exists.
#[derive(Clone, Debug, PartialEq, Eq)]
pub struct StructurePlan {
    pub dirs: Vec<String>,
    pub seed: Option<GlobalConfig>,
}

/// A tenant's configuration after scaffolding, and whether it has yet to be
/// written.
#[derive(Clone, Debug, PartialEq, Eq)]
pub struct Scaffold {
    pub config: UserConfig,
    pub must_save: bool,
}

/// The global configuration, and whether it has yet to be written.
#[derive(Clone, Debug, PartialEq, Eq)]
pub struct GlobalLoad {
    pub config: GlobalConfig,
    pub must_save: bool,
}

/// The store, rooted at one directory.
#[derive(Clone, Debug, PartialEq, Eq)]
pub struct StorageService {
    root: String,
}

impl View for StorageService {
    type V = Seq<char>;

    closed spec fn view(&self) -> Seq<char> {
        self.root@
    }
}

/// The document that a read gave, or the error that says why it gave none.
fn settle<T>(found: Fetched<T>) -> (r: Result<T, AppError>)
    ensures
        match found {
            Fetched::Document(d) => r == Ok::<T, AppError>(d),
            _ => r is Err && Some(r->Err_0@) == failure_of(found),
        },
{
    match found {
        Fetched::Missing => Err(AppError::NotFound),
        Fetched::Unreadable(why) => Err(AppError::Io(why)),
        Fetched::Empty => Err(AppError::Corrupt("empty document".to_owned())),
        Fetched::Corrupt(why) => Err(AppError::Corrupt(why)),
        Fetched::Document(d) => Ok(d),
    }
}

/// The paths of the wanted entries of `dir`.
fn wanted(dir: &str, entries: &Vec<DirEntryInfo>, json_only: bool) -> (r: Vec<String>)
    ensures
        texts(r@) == wanted_paths(dir@, entries@, json_only),
{
    let mut out: Vec<String> = Vec::new();
    let mut i: usize = 0;
    assert(texts(out@) =~= wanted_paths(dir@, entries@.take(0), json_only));
    while i < entries.len()
        invariant
            i <= entries.len(),
            texts(out@) == wanted_paths(dir@, entries@.take(i as int), json_only),
        decreases entries.len() - i,
    {
        let entry = &entries[i];
        proof {
            let now = entries@.take(i + 1);
            assert(now.drop_last() == entries@.take(i as int));
            assert(now.last() == entries@[i as int]);
        }
        if wants(entry, json_only) {
            let ghost before = out@;
            let path = join(dir, entry.name.as_str());
            out.push(path);
            assert(texts(out@) =~= texts(before).push(join_path(dir@, entry.name@)));
        }
        i += 1;
    }
    assert(entries@.take(entries.len() as int) == entries@);
    out
}

/// Counting and listing agree: there are as many wanted entries as paths
/// to read, and no more than entries.
pub proof fn lemma_wanted_count(dir: Seq<char>, entries: Seq<DirEntryInfo>, json_only: bool)
    ensures
        wanted_paths(dir, entries, json_only).len() == wanted_count(entries, json_only),
        wanted_count(entries, json_only) <= entries.len(),
    decreases entries.len(),
{
    if entries.len() > 0 {
        lemma_wanted_count(dir, entries.drop_last(), json_only);
    }
}

/// Whether the entry is read when documents are listed.
fn wants(entry: &DirEntryInfo, json_only: bool) -> (r: bool)
    ensures
        r == is_wanted(*entry, json_only),
{
    if entry.kind == EntryKind::File {
        if json_only {
            let lower = lowercase(entry.name.as_str());
            ends_with(lower.as_str(), ".json")
        } else {
            true
        }
    } else {
        false
    }
}

/// How many of the entries are wanted.
fn count_wanted(entries: &Vec<DirEntryInfo>, json_only: bool) -> (n: usize)
    ensures
        n == wanted_count(entries@, json_only),
{
    let mut n: usize = 0;
    let mut i: usize = 0;
    while i < entries.len()
        invariant
            i <= entries.len(),
            n <= i,
            n == wanted_count(entries@.take(i as int), json_only),
        decreases entries.len() - i,
    {
        proof {
            let now = entries@.take(i + 1);
            assert(now.drop_last() == entries@.take(i as int));
            assert(now.last() == entries@[i as int]);
        }
        if wants(&entries[i], json_only) {
            n += 1;
        }
        i += 1;
    }
    assert(entries@.take(entries.len() as int) == entries@);
    n
}

/// Idempotent scaffolding. After scaffolding once, scaffolding again, under
/// whatever name, writes nothing and leaves the tenant configuration as the
/// first call left it.
pub proof fn lemma_scaffold_twice(
    stored: Option<UserConfigView>,
    first: Seq<char>,
    second: Seq<char>,
)
    ensures
        !scaffold_writes(stored_after_scaffold(stored, first)),
        stored_after_scaffold(stored_after_scaffold(stored, first), second)
            == stored_after_scaffold(stored, first),
        stored is Some ==> stored_after_scaffold(stored, first) == stored,
{
}

impl StorageService {
    pub fn new(root: String) -> (r: StorageService)
        ensures
            r@ == root@,
    {
        StorageService { root }
    }

    pub fn root(&self) -> (r: &str)
        ensures
            r@ == self@,
    {
        self.root.as_str()
    }

    pub fn global_config_path(&self) -> (r: String)
        ensures
            r@ == global_config_path_of(self@),
    {
        join(self.root(), "config.json")
    }

    pub fn users_root(&self) -> (r: String)
        ensures
            r@ == users_root_of(self@),
    {
        join(self.root(), "users")
    }

    pub fn logs_root(&self) -> (r: String)
        ensures
            r@ == logs_root_of(self@),
    {
        join(self.root(), "logs")
    }

    pub fn panic_log_dir(&self) -> (r: String)
        ensures
            r@ == panic_log_dir_of(self@),
    {
        let logs = self.logs_root();
        join(logs.as_str(), "panic_events")
    }

    pub fn user_dir(&self, user_uuid: &str) -> (r: String)
        ensures
            r@ == user_dir_of(self@, user_uuid@),
    {
        let users = self.users_root();
        join(users.as_str(), user_uuid)
    }

    pub fn user_checkins_dir(&self, user_uuid: &str) -> (r: String)
        ensures
            r@ == user_checkins_dir_of(self@, user_uuid@),
    {
        let dir = self.user_dir(user_uuid);
        join(dir.as_str(), "checkins")
    }

    pub fn user_trips_dir(&self, user_uuid: &str) -> (r: String)
        ensures
            r@ == user_trips_dir_of(self@, user_uuid@),
    {
        let dir = self.user_dir(user_uuid);
        join(dir.as_str(), "trips")
    }

    pub fn user_config_path(&self, user_uuid: &str) -> (r: String)
        ensures
            r@ == user_config_path_of(self@, user_uuid@),
    {
        let dir = self.user_dir(user_uuid);
        join(dir.as_str(), "config.json")
    }

    pub fn checkin_path(&self, user_uuid: &str, checkin_id: &str) -> (r: String)
        ensures
            r@ == checkin_path_of(self@, user_uuid@, checkin_id@),
    {
        let dir = self.user_checkins_dir(user_uuid);
        let file = concat(checkin_id, ".json");
        join(dir.as_str(), file.as_str())
    }

    /// The file name of a panic event whose instant is written as `stamp`.
    pub fn panic_event_file(stamp: &str, id: &str) -> (r: String)
        ensures
            r@ == panic_event_file_name(stamp@, id@),
    {
        let a = concat(stamp, "-");
        let b = concat(a.as_str(), id);
        concat(b.as_str(), ".json")
    }

    /// The path of a panic event, or `None` where its instant cannot be
    /// written as a date.
    pub fn panic_event_path(&self, timestamp: Timestamp, id: &str) -> (r: Option<String>)
        ensures
            r.deep_view() == match utc_text(
                timestamp.secs as int,
                timestamp.nanos as int,
                stamp_pattern(),
            ) {
                Some(stamp) => Some(panic_event_path_of(self@, stamp, id@)),
                None => None,
            },
    {
        match timestamp.format_utc("%Y%m%dT%H%M%SZ") {
            Some(stamp) => {
                let dir = self.panic_log_dir();
                let file = StorageService::panic_event_file(stamp.as_str(), id);
                Some(join(dir.as_str(), file.as_str()))
            },
            None => None,
        }
    }

    /// The directories of the root tree, parents first.
    pub fn structure_dirs(&self) -> (r: Vec<String>)
        ensures
            texts(r@) == seq![self@, users_root_of(self@), panic_log_dir_of(self@)],
    {
        let mut dirs: Vec<String> = Vec::new();
        dirs.push(self.root.clone());
        dirs.push(self.users_root());
        dirs.push(self.panic_log_dir());
        assert(texts(dirs@) =~= seq![self@, users_root_of(self@), panic_log_dir_of(self@)]);
        dirs
    }

    /// What the root tree needs: its directories, and the default global
    /// configuration unless one exists. Safe on every start: nothing that
    /// exists is written again.
    pub fn ensure_structure(&self, config_exists: bool) -> (plan: StructurePlan)
        ensures
            texts(plan.dirs@) == seq![self@, users_root_of(self@), panic_log_dir_of(self@)],
            config_exists ==> plan.seed is None,
            !config_exists ==> (plan.seed matches Some(cfg) && cfg@ == GlobalConfigView::initial()),
    {
        let seed = if config_exists {
            None
        } else {
            Some(GlobalConfig::default())
        };
        StructurePlan { dirs: self.structure_dirs(), seed }
    }

    /// The directories of one tenant, parents first.
    pub fn user_dirs(&self, user_uuid: &str) -> (r: Vec<String>)
        ensures
            texts(r@) == seq![
                user_dir_of(self@, user_uuid@),
                user_checkins_dir_of(self@, user_uuid@),
                user_trips_dir_of(self@, user_uuid@),
            ],
    {
        let mut dirs: Vec<String> = Vec::new();
        dirs.push(self.user_dir(user_uuid));
        dirs.push(self.user_checkins_dir(user_uuid));
        dirs.push(self.user_trips_dir(user_uuid));
        assert(texts(dirs@) =~= seq![
            user_dir_of(self@, user_uuid@),
            user_checkins_dir_of(self@, user_uuid@),
            user_trips_dir_of(self@, user_uuid@),
        ]);
        dirs
    }

    /// The tenant's configuration after scaffolding. An existing one is handed
    /// back as loading hands it back and is not written again; a missing one
    /// is seeded from `username` and has yet to be saved. A configuration that
    /// is there but cannot be read or decoded is an error.
    pub fn ensure_user_scaffold(
        &self,
        user_uuid: &str,
        username: &str,
        existing: Fetched<UserConfig>,
    ) -> (r: Result<Scaffold, AppError>)
        ensures
            existing is Missing || existing is Document <==> r is Ok,
            r matches Ok(s) ==> (s.config@ == returned_by_scaffold(
                stored_config(existing),
                user_uuid@,
                username@,
            ) && s.must_save == scaffold_writes(stored_config(existing))),
            r matches Ok(s) ==> (s.must_save ==> Some(s.config@) == stored_after_scaffold(
                stored_config(existing),
                username@,
            )),
            r matches Err(e) ==> Some(e@) == failure_of(existing),
    {
        match existing {
            Fetched::Missing => Ok(
                Scaffold { config: UserConfig::for_new_user(username), must_save: true },
            ),
            other => match settle(other) {
                Ok(cfg) => {
                    let named = StorageService::name_config(user_uuid, cfg);
                    Ok(Scaffold { config: named, must_save: false })
                },
                Err(e) => Err(e),
            },
        }
    }

    /// `cfg` as loading hands it out: where it has no name, under the
    /// tenant's identifier.
    pub fn name_config(user_uuid: &str, cfg: UserConfig) -> (r: UserConfig)
        ensures
            r@ == named(cfg@, user_uuid@),
    {
        if is_blank(cfg.username.as_str()) {
            let mut r = cfg;
            r.username = user_uuid.to_owned();
            r
        } else {
            cfg
        }
    }

    /// The global configuration. Where none exists the default is handed back
    /// and has yet to be saved.
    pub fn load_global_config(&self, found: Fetched<GlobalConfig>) -> (r: Result<
        GlobalLoad,
        AppError,
    >)
        ensures
            found is Missing || found is Document <==> r is Ok,
            found matches Fetched::Document(cfg) ==> (r matches Ok(l) && l.config == cfg
                && !l.must_save),
            found is Missing ==> (r matches Ok(l) && l.config@ == GlobalConfigView::initial()
                && l.must_save),
            r matches Err(e) ==> Some(e@) == failure_of(found),
    {
        match found {
            Fetched::Missing => Ok(GlobalLoad { config: GlobalConfig::default(), must_save: true }),
            other => match settle(other) {
                Ok(cfg) => Ok(GlobalLoad { config: cfg, must_save: false }),
                Err(e) => Err(e),
            },
        }
    }

    /// The plan that replaces the global configuration by `encoded`.
    pub fn save_global_config(&self, encoded: Vec<u8>) -> (plan: WritePlan)
        ensures
            exists|suffix: Seq<char>|
                is_hex_text(suffix) && plan@ == #[trigger] WritePlanView::planned(
                    self@,
                    "config.json"@,
                    suffix,
                    encoded@,
                ),
    {
        self.write_json_atomic(self.root(), "config.json", encoded)
    }

    /// A tenant's configuration: `NotFound` where scaffolding never ran, the
    /// document under its name where it is there.
    pub fn load_user_config(&self, user_uuid: &str, found: Fetched<UserConfig>) -> (r: Result<
        UserConfig,
        AppError,
    >)
        ensures
            found is Document <==> r is Ok,
            found matches Fetched::Document(cfg) ==> (r matches Ok(c) && c@ == named(
                cfg@,
                user_uuid@,
            )),
            found is Missing ==> (r matches Err(e) && e@ == AppErrorView::NotFound),
            r matches Err(e) ==> Some(e@) == failure_of(found),
    {
        match settle(found) {
            Ok(cfg) => Ok(StorageService::name_config(user_uuid, cfg)),
            Err(e) => Err(e),
        }
    }

    /// The plan that replaces a tenant's configuration by `encoded`.
    pub fn save_user_config(&self, user_uuid: &str, encoded: Vec<u8>) -> (plan: WritePlan)
        ensures
            exists|suffix: Seq<char>|
                is_hex_text(suffix) && plan@ == #[trigger] WritePlanView::planned(
                    user_dir_of(self@, user_uuid@),
                    "config.json"@,
                    suffix,
                    encoded@,
                ),
    {
        let dir = self.user_dir(user_uuid);
        self.write_json_atomic(dir.as_str(), "config.json", encoded)
    }

    /// The plan that writes one check-in, encoded as `encoded`, into the
    /// tenant's check-in directory under the record's identifier.
    pub fn save_checkin(&self, user_uuid: &str, checkin: &Checkin, encoded: Vec<u8>) -> (plan:
        WritePlan)
        ensures
            exists|suffix: Seq<char>|
                is_hex_text(suffix) && plan@ == #[trigger] WritePlanView::planned(
                    user_checkins_dir_of(self@, user_uuid@),
                    checkin_file_name(checkin@.id),
                    suffix,
                    encoded@,
                ),
    {
        let dir = self.user_checkins_dir(user_uuid);
        let file = concat(checkin.id.as_str(), ".json");
        let plan = self.write_json_atomic(dir.as_str(), file.as_str(), encoded);
        proof {
            let suffix = choose|suffix: Seq<char>|
                is_hex_text(suffix) && plan@ == #[trigger] WritePlanView::planned(
                    dir@,
                    file@,
                    suffix,
                    encoded@,
                );
            assert(plan@ == WritePlanView::planned(
                user_checkins_dir_of(self@, user_uuid@),
                checkin_file_name(checkin@.id),
                suffix,
                encoded@,
            ));
        }
        plan
    }

    /// One check-in: the document where it was read, `NotFound` where the file
    /// is missing, `Corrupt` where its bytes cannot be decoded, `Io` where
    /// they cannot be read.
    pub fn load_checkin(&self, found: Fetched<Checkin>) -> (r: Result<Checkin, AppError>)
        ensures
            found is Document <==> r is Ok,
            found matches Fetched::Document(c) ==> r == Ok::<Checkin, AppError>(c),
            r matches Err(e) ==> Some(e@) == failure_of(found),
    {
        settle(found)
    }

    /// The files to read for a tenant's check-ins: the regular files of the
    /// check-in directory whose names end in `.json`. A missing directory has
    /// none; one that cannot be opened is an error.
    pub fn checkin_files(&self, user_uuid: &str, scan: &DirScan) -> (r: Result<
        Vec<String>,
        AppError,
    >)
        ensures
            match *scan {
                DirScan::Missing => r matches Ok(paths) && paths@.len() == 0,
                DirScan::Unreadable(why) => r matches Err(e) && e@ == AppErrorView::Io(why@),
                DirScan::Entries(entries) => r matches Ok(paths) && texts(paths@) == wanted_paths(
                    user_checkins_dir_of(self@, user_uuid@),
                    entries@,
                    true,
                ),
            },
    {
        match scan {
            DirScan::Missing => Ok(Vec::new()),
            DirScan::Unreadable(why) => Err(AppError::Io(why.clone())),
            DirScan::Entries(entries) => {
                let dir = self.user_checkins_dir(user_uuid);
                Ok(wanted(dir.as_str(), entries, true))
            },
        }
    }

    /// A tenant's check-ins, newest first. What could not be read or decoded
    /// is left out and never fails the listing; no outcome gives no records.
    pub fn list_checkins(&self, loaded: Vec<Fetched<Checkin>>) -> (r: Vec<Checkin>)
        ensures
            r@ == newest_first(documents(loaded@)),
            is_newest_first(r@),
            r@.to_multiset() == documents(loaded@).to_multiset(),
    {
        list_newest_first(loaded)
    }

    /// The newest check-in of a tenant, if there is any.
    pub fn latest_checkin(&self, loaded: Vec<Fetched<Checkin>>) -> (r: Option<Checkin>)
        ensures
            r == if documents(loaded@).len() == 0 {
                None::<Checkin>
            } else {
                Some(newest_first(documents(loaded@))[0])
            },
    {
        let mut items = list_newest_first(loaded);
        proof {
            crate::services::listing::lemma_newest_first_holds_the_same(documents(loaded@));
        }
        if items.len() == 0 {
            None
        } else {
            Some(items.remove(0))
        }
    }

    /// The plan that writes one panic event, encoded as `encoded`, into the
    /// shared log. An event whose instant cannot be written as a date cannot
    /// be named, and is refused as unencodable.
    pub fn save_panic_event(&self, event: &PanicEvent, encoded: Vec<u8>) -> (r: Result<
        WritePlan,
        AppError,
    >)
        ensures
            utc_text(event.timestamp.secs as int, event.timestamp.nanos as int, stamp_pattern())
                is Some <==> r is Ok,
            r matches Ok(plan) ==> exists|suffix: Seq<char>|
                is_hex_text(suffix) && plan@ == #[trigger] WritePlanView::planned(
                    panic_log_dir_of(self@),
                    panic_event_file_name(
                        utc_text(
                            event.timestamp.secs as int,
                            event.timestamp.nanos as int,
                            stamp_pattern(),
                        )->Some_0,
                        event@.id,
                    ),
                    suffix,
                    encoded@,
                ),
            r matches Err(e) ==> e@ == AppErrorView::Serialization("timestamp out of range"@),
    {
        let rendered = event.timestamp.format_utc("%Y%m%dT%H%M%SZ");
        let ghost named = utc_text(
            event.timestamp.secs as int,
            event.timestamp.nanos as int,
            stamp_pattern(),
        );
        match rendered {
            Some(stamp) => {
                let dir = self.panic_log_dir();
                let file = StorageService::panic_event_file(stamp.as_str(), event.id.as_str());
                let plan = self.write_json_atomic(dir.as_str(), file.as_str(), encoded);
                proof {
                    let suffix = choose|suffix: Seq<char>|
                        is_hex_text(suffix) && plan@ == #[trigger] WritePlanView::planned(
                            dir@,
                            file@,
                            suffix,
                            encoded@,
                        );
                    assert(plan@ == WritePlanView::planned(
                        panic_log_dir_of(self@),
                        panic_event_file_name(named->Some_0, event@.id),
                        suffix,
                        encoded@,
                    ));
                }
                Ok(plan)
            },
            None => Err(AppError::Serialization("timestamp out of range".to_owned())),
        }
    }

    /// The files to read for the panic events: every regular file of the log
    /// directory.
    pub fn panic_event_files(&self, scan: &DirScan) -> (r: Result<Vec<String>, AppError>)
        ensures
            match *scan {
                DirScan::Missing => r matches Ok(paths) && paths@.len() == 0,
                DirScan::Unreadable(why) => r matches Err(e) && e@ == AppErrorView::Io(why@),
                DirScan::Entries(entries) => r matches Ok(paths) && texts(paths@) == wanted_paths(
                    panic_log_dir_of(self@),
                    entries@,
                    false,
                ),
            },
    {
        match scan {
            DirScan::Missing => Ok(Vec::new()),
            DirScan::Unreadable(why) => Err(AppError::Io(why.clone())),
            DirScan::Entries(entries) => {
                let dir = self.panic_log_dir();
                Ok(wanted(dir.as_str(), entries, false))
            },
        }
    }

    /// The panic events of all tenants, newest first, what could not be read
    /// or decoded left out.
    pub fn list_panic_events(&self, loaded: Vec<Fetched<PanicEvent>>) -> (r: Vec<PanicEvent>)
        ensures
            r@ == newest_first(documents(loaded@)),
            is_newest_first(r@),
            r@.to_multiset() == documents(loaded@).to_multiset(),
    {
        list_newest_first(loaded)
    }

    /// How many check-in files a tenant has: as many as `checkin_files` would
    /// have read.
    pub fn count_user_checkins(&self, scan: &DirScan) -> (r: Result<usize, AppError>)
        ensures
            match *scan {
                DirScan::Unreadable(why) => r matches Err(e) && e@ == AppErrorView::Io(why@),
                _ => r matches Ok(n) && n == checkins_in(*scan),
            },
    {
        match scan {
            DirScan::Missing => Ok(0),
            DirScan::Unreadable(why) => Err(AppError::Io(why.clone())),
            DirScan::Entries(entries) => Ok(count_wanted(entries, true)),
        }
    }

    /// How many of the listed panic events belong to the tenant.
    pub fn count_user_panic_events(&self, events: &Vec<PanicEvent>, user_uuid: &str) -> (n: usize)
        ensures
            n == events_of_tenant(events@, user_uuid@),
    {
        let wanted_id = user_uuid.to_owned();
        let mut n: usize = 0;
        let mut i: usize = 0;
        while i < events.len()
            invariant
                i <= events.len(),
                n <= i,
                wanted_id@ == user_uuid@,
                n == events_of_tenant(events@.take(i as int), user_uuid@),
            decreases events.len() - i,
        {
            proof {
                let now = events@.take(i + 1);
                assert(now.drop_last() == events@.take(i as int));
                assert(now.last() == events@[i as int]);
            }
            if events[i].user_uuid == wanted_id {
                n += 1;
            }
            i += 1;
        }
        assert(events@.take(events.len() as int) == events@);
        n
    }

    /// How many check-in files all tenants have together, given the scan of
    /// each tenant's check-in directory. The first scan that failed fails the
    /// count. A total beyond `usize::MAX` is reported as `usize::MAX`.
    pub fn count_all_checkins(&self, scans: &Vec<DirScan>) -> (r: Result<usize, AppError>)
        ensures
            (exists|i: int| is_first_unreadable(scans@, i)) <==> r is Err,
            forall|i: int|
                is_first_unreadable(scans@, i) ==> (r matches Err(e) && e@ == AppErrorView::Io(
                    scans@[i]->Unreadable_0@,
                )),
            r matches Ok(n) ==> n == if checkins_in_all(scans@) <= usize::MAX {
                checkins_in_all(scans@)
            } else {
                usize::MAX as nat
            },
    {
        let mut total: usize = 0;
        let mut i: usize = 0;
        while i < scans.len()
            invariant
                i <= scans.len(),
                forall|k: int| 0 <= k < i ==> !(scans@[k] is Unreadable),
                total == if checkins_in_all(scans@.take(i as int)) <= usize::MAX {
                    checkins_in_all(scans@.take(i as int))
                } else {
                    usize::MAX as nat
                },
            decreases scans.len() - i,
        {
            proof {
                let now = scans@.take(i + 1);
                assert(now.drop_last() == scans@.take(i as int));
                assert(now.last() == scans@[i as int]);
            }
            match self.count_user_checkins(&scans[i]) {
                Ok(n) => {
                    total = total.saturating_add(n);
                },
                Err(e) => {
                    assert(is_first_unreadable(scans@, i as int));
                    assert forall|j: int| is_first_unreadable(scans@, j) implies j == i by {
                        if j < i {
                        } else if j > i {
                        }
                    }
                    return Err(e);
                },
            }
            i += 1;
        }
        assert(scans@.take(scans.len() as int) == scans@);
        Ok(total)
    }

    /// The names of the directories among `entries`, or the error for the
    /// first entry of unknown kind.
    fn tenant_names(&self, entries: &Vec<DirEntryInfo>) -> (r: Result<Vec<String>, AppError>)
        ensures
            (exists|i: int| is_first_unknown(entries@, i)) <==> r is Err,
            forall|i: int|
                is_first_unknown(entries@, i) ==> (r matches Err(e) && e@ == unknown_entry_error(
                    users_root_of(self@),
                    entries@[i].name@,
                )),
            r matches Ok(names) ==> texts(names@) == dir_names(entries@),
    {
        let mut out: Vec<String> = Vec::new();
        let mut i: usize = 0;
        assert(texts(out@) =~= dir_names(entries@.take(0)));
        while i < entries.len()
            invariant
                i <= entries.len(),
                forall|k: int| 0 <= k < i ==> entries@[k].kind != EntryKind::Unknown,
                texts(out@) == dir_names(entries@.take(i as int)),
            decreases entries.len() - i,
        {
            let entry = &entries[i];
            proof {
                let now = entries@.take(i + 1);
                assert(now.drop_last() == entries@.take(i as int));
                assert(now.last() == entries@[i as int]);
            }
            match entry.kind {
                EntryKind::Unknown => {
                    assert(is_first_unknown(entries@, i as int));
                    assert forall|j: int| is_first_unknown(entries@, j) implies j == i by {
                        if j < i {
                        } else if j > i {
                        }
                    }
                    let root = self.users_root();
                    let path = join(root.as_str(), entry.name.as_str());
                    return Err(AppError::Io(concat("cannot read metadata of ", path.as_str())));
                },
                EntryKind::Dir => {
                    let ghost before = out@;
                    out.push(entry.name.clone());
                    assert(texts(out@) =~= texts(before).push(entry.name@));
                },
                _ => {},
            }
            i += 1;
        }
        assert(entries@.take(entries.len() as int) == entries@);
        Ok(out)
    }

    /// The tenants: the names of the directories under the users' root. A
    /// missing root has none. An entry of unknown kind fails the listing, as a
    /// root that cannot be opened does.
    pub fn list_user_uuids(&self, scan: &DirScan) -> (r: Result<Vec<String>, AppError>)
        ensures
            match *scan {
                DirScan::Missing => r matches Ok(names) && names@.len() == 0,
                DirScan::Unreadable(why) => r matches Err(e) && e@ == AppErrorView::Io(why@),
                DirScan::Entries(entries) => {
                    &&& (exists|i: int| is_first_unknown(entries@, i)) <==> r is Err
                    &&& forall|i: int|
                        is_first_unknown(entries@, i) ==> (r matches Err(e) && e@
                            == unknown_entry_error(users_root_of(self@), entries@[i].name@))
                    &&& r matches Ok(names) ==> texts(names@) == dir_names(entries@)
                },
            },
    {
        match scan {
            DirScan::Missing => Ok(Vec::new()),
            DirScan::Unreadable(why) => Err(AppError::Io(why.clone())),
            DirScan::Entries(entries) => self.tenant_names(entries),
        }
    }

    /// The plan that puts `encoded` into the file `file` of the directory
    /// `dir` without ever showing a reader part of it: the bytes go to a
    /// freshly named temporary file beside the target, which is then moved
    /// onto the target. The name is fresh by a random run of hexadecimal
    /// digits.
    pub fn write_json_atomic(&self, dir: &str, file: &str, encoded: Vec<u8>) -> (plan: WritePlan)
        ensures
            exists|suffix: Seq<char>|
                is_hex_text(suffix) && plan@ == #[trigger] WritePlanView::planned(
                    dir@,
                    file@,
                    suffix,
                    encoded@,
                ),
    {
        let suffix = fresh_suffix();
        let plan = WritePlan::build(dir, file, suffix.as_str(), encoded);
        assert(plan@ == WritePlanView::planned(dir@, file@, suffix@, encoded@));
        plan
    }

    /// The bytes of a document, or `Serialization` where the encoder gave up;
    /// the text is the encoder's complaint.
    pub fn encoded(outcome: Result<Vec<u8>, String>) -> (r: Result<Vec<u8>, AppError>)
        ensures
            match outcome {
                Ok(bytes) => r == Ok::<Vec<u8>, AppError>(bytes),
                Err(why) => r is Err && r->Err_0@ == AppErrorView::Serialization(why@),
            },
    {
        match outcome {
            Ok(bytes) => Ok(bytes),
            Err(why) => Err(AppError::Serialization(why)),
        }
    }

    /// What a write comes to, given the complaint of the step that failed, if
    /// one did: a failed step is an `Io` error. Nothing is tried again and
    /// nothing is cleaned up: after a failed rename the temporary file stays.
    pub fn finish_write(failure: Option<String>) -> (r: Result<(), AppError>)
        ensures
            failure is None <==> r is Ok,
            r matches Err(e) ==> e@ == AppErrorView::Io(failure->Some_0@),
    {
        match failure {
            None => Ok(()),
            Some(why) => Err(AppError::Io(why)),
        }
    }

    /// The contacts of a configuration, trimmed, blank ones left out, and of
    /// equal ones only the first.
    pub fn merge_contacts(&self, user_cfg: &UserConfig) -> (r: Vec<String>)
        ensures
            texts(r@) == first_occurrences(contacts_of(user_cfg@)),
            texts(r@).no_duplicates(),
            forall|x: Seq<char>| contacts_of(user_cfg@).contains(x) <==> texts(r@).contains(x),
    {
        crate::services::contacts::merge_contacts(user_cfg)
    }
}

} // verus!
