use mood::clock::Timestamp;
use mood::models::checkin::Checkin;
use mood::models::settings::UserConfig;
use mood::routes::user::{fill_checkin, CheckinForm};
use mood::services::files::WritePlan;
use mood::services::git::{CommitPlan, GitService, HeadCommit, HeadRef, RawCommit, Staged};
use mood::services::listing::{DirEntryInfo, DirScan, EntryKind, Fetched};
use mood::services::storage::StorageService;
use std::collections::BTreeMap;

/// A disk held in memory, with an encoding of check-ins simple enough to be
/// written by hand: identifier, seconds, mood and intensity, separated by `;`.
struct Disk {
    files: BTreeMap<String, Vec<u8>>,
}

impl Disk {
    fn run(&mut self, plan: &WritePlan) {
        self.files.insert(plan.temp.clone(), plan.data.clone());
        let bytes = self.files.remove(&plan.temp).unwrap();
        self.files.insert(plan.dest.clone(), bytes);
    }

    fn scan(&self, dir: &str) -> DirScan {
        let prefix = format!("{}/", dir);
        let entries: Vec<DirEntryInfo> = self
            .files
            .keys()
            .filter(|k| k.starts_with(&prefix) && !k[prefix.len()..].contains('/'))
            .map(|k| DirEntryInfo { name: k[prefix.len()..].to_string(), kind: EntryKind::File })
            .collect();
        if entries.is_empty() {
            DirScan::Missing
        } else {
            DirScan::Entries(entries)
        }
    }

    fn fetch(&self, path: &str) -> Fetched<Checkin> {
        match self.files.get(path) {
            None => Fetched::Missing,
            Some(bytes) => Fetched::from_read(bytes.len(), decode(bytes)),
        }
    }
}

fn encode(c: &Checkin) -> Vec<u8> {
    format!("{};{};{};{}", c.id, c.timestamp.secs, c.mood, c.high_level).into_bytes()
}

fn decode(bytes: &[u8]) -> Result<Checkin, String> {
    let text = String::from_utf8(bytes.to_vec()).map_err(|e| e.to_string())?;
    let parts: Vec<&str> = text.split(';').collect();
    if parts.len() != 4 {
        return Err("expected four fields".to_string());
    }
    let secs: i64 = parts[1].parse().map_err(|_| "bad seconds".to_string())?;
    let mut c = Checkin::with_identity(parts[0].to_string(), "u1", Timestamp::new(secs, 0));
    c.mood = parts[2].parse().map_err(|_| "bad mood".to_string())?;
    c.high_level = parts[3].parse().map_err(|_| "bad intensity".to_string())?;
    Ok(c)
}

fn list(store: &StorageService, disk: &Disk, tenant: &str) -> Vec<Checkin> {
    let paths = store.checkin_files(tenant, &disk.scan(&store.user_checkins_dir(tenant))).unwrap();
    let loaded: Vec<Fetched<Checkin>> = paths.iter().map(|p| disk.fetch(p)).collect();
    store.list_checkins(loaded)
}

#[test]
fn end_to_end_scenario() {
    let store = StorageService::new("ai".to_string());
    let ledger = GitService::new("repo".to_string());
    let mut disk = Disk { files: BTreeMap::new() };

    // create tenant u1: scaffolding seeds the default configuration
    let scaffold = store.ensure_user_scaffold("u1", "mia", Fetched::Missing).unwrap();
    assert!(scaffold.must_save);
    assert_eq!(scaffold.config.auto_notify_threshold, 1);
    assert_eq!(scaffold.config, UserConfig::for_new_user("mia"));
    disk.run(&store.save_user_config("u1", b"cfg".to_vec()));
    assert!(disk.files.contains_key("ai/users/u1/config.json"));

    // submit a check-in with mood -4 and intensity 8
    let form = CheckinForm {
        mood: -4,
        high_level: 8,
        safety_answer: "ok".to_string(),
        notes: None,
        status_tags: Vec::new(),
        drugs_substance: Vec::new(),
        drugs_dose: Vec::new(),
        drugs_route: Vec::new(),
        drugs_start_time: Vec::new(),
        drugs_notes: Vec::new(),
    };
    let checkin = fill_checkin(Checkin::new("u1"), &form, Vec::new());
    disk.run(&store.save_checkin("u1", &checkin, encode(&checkin)));

    // the listing returns one record with those values and a generated id
    let listed = list(&store, &disk, "u1");
    assert_eq!(listed.len(), 1);
    assert_eq!(listed[0].mood, -4);
    assert_eq!(listed[0].high_level, 8);
    assert_eq!(listed[0].id, checkin.id);
    assert_eq!(listed[0].id.len(), 36);

    // the commit succeeds and the status reports one commit with that message
    let staged = Staged { tree: "tree-1".to_string(), is_empty: false };
    let plan = ledger.commit_ai_changes("feat: check-in", &staged, None);
    let (message, tree, parents) = match plan {
        CommitPlan::Commit { message, tree, parents, .. } => (message, tree, parents),
        CommitPlan::Skip => panic!("the first commit must be made"),
    };
    assert!(parents.is_empty());
    let head = HeadCommit { id: "c1".to_string(), tree };
    let status = ledger.status(
        Some(HeadRef {
            shorthand: Some("main".to_string()),
            commit: Some(RawCommit { id: head.id.clone(), message: Some(message), seconds: 0 }),
        }),
        &Vec::new(),
    );
    assert_eq!(status.head.unwrap().message, "feat: check-in");
    assert!(!status.pending_ai_changes);
    assert_eq!(ledger.commit_ai_changes("feat: check-in", &staged, Some(&head)), CommitPlan::Skip);
}

#[test]
fn corrupt_file_on_disk_does_not_hide_the_rest() {
    let store = StorageService::new("ai".to_string());
    let mut disk = Disk { files: BTreeMap::new() };
    let a = Checkin::with_identity("a".to_string(), "u1", Timestamp::new(10, 0));
    let b = Checkin::with_identity("b".to_string(), "u1", Timestamp::new(20, 0));
    disk.run(&store.save_checkin("u1", &a, encode(&a)));
    disk.run(&store.save_checkin("u1", &b, encode(&b)));
    disk.files.insert("ai/users/u1/checkins/broken.json".to_string(), b"{".to_vec());
    disk.files.insert("ai/users/u1/checkins/empty.json".to_string(), Vec::new());
    disk.files.insert("ai/users/u1/checkins/x.tmp-00".to_string(), b"half".to_vec());
    let listed = list(&store, &disk, "u1");
    assert_eq!(listed, vec![b, a]);
    assert_eq!(store.count_user_checkins(&disk.scan("ai/users/u1/checkins")), Ok(4));
}

#[test]
fn tenant_without_records_lists_nothing() {
    let store = StorageService::new("ai".to_string());
    let disk = Disk { files: BTreeMap::new() };
    assert_eq!(list(&store, &disk, "nobody"), Vec::new());
    assert_eq!(store.latest_checkin(Vec::new()), None);
}
