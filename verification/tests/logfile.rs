use rakukan::logfile::cleanup::{
    cleanup_logs, cleanup_logs_with_budget, CleanupRun, LogEntry, Removal,
};
use rakukan::logfile::names::{
    config_log_level, default_log_filter_spec, instance_lock_name, instance_log_name,
    instance_stem, instance_stem_of, rotated_log_name, staged_log_name, startup_id_of,
    LOG_ROTATE_GENERATIONS,
};
use rakukan::logfile::rotation::{
    next_op, shift_generations, FileOp, LogAction, LogEvent, LogFile, RotatingLog, RotationStep,
    Shift,
};
use std::collections::{BTreeMap, BTreeSet};
use std::sync::atomic::{AtomicUsize, Ordering};
use std::sync::{Arc, OnceLock};
use tracing::callsite::{Callsite, Identifier};
use tracing::field::{Field, FieldSet, Value};
use tracing::metadata::Kind;
use tracing::subscriber::Interest;
use tracing::{Event, Level, Metadata};
use tracing_subscriber::layer::{Context, SubscriberExt};

struct CountTargets {
    tsf: Arc<AtomicUsize>,
    rpc: Arc<AtomicUsize>,
    other: Arc<AtomicUsize>,
}

impl<S: tracing::Subscriber> tracing_subscriber::Layer<S> for CountTargets {
    fn on_event(&self, event: &Event<'_>, _: Context<'_, S>) {
        let counter = match event.metadata().target() {
            "rakukan_tsf" => &self.tsf,
            "rakukan_engine_rpc" => &self.rpc,
            _ => &self.other,
        };
        counter.fetch_add(1, Ordering::Relaxed);
    }
}

/// A place that messages come from.
struct Site(OnceLock<Metadata<'static>>);

impl Callsite for Site {
    fn set_interest(&self, _: Interest) {}

    fn metadata(&self) -> &Metadata<'_> {
        self.0.get().expect("the site is complete")
    }
}

/// Records a message.
fn record(target: &'static str, level: Level) {
    let site: &'static Site = Box::leak(Box::new(Site(OnceLock::new())));
    let fields = FieldSet::new(&["message"], Identifier(site));
    let metadata = site.0.get_or_init(|| {
        Metadata::new("event", target, level, None, None, None, fields, Kind::EVENT)
    });
    if tracing::dispatcher::get_default(|d| d.enabled(metadata)) {
        let values: [(&Field, Option<&dyn Value>); 0] = [];
        Event::dispatch(metadata, &metadata.fields().value_set(&values));
    }
}

#[test]
fn default_log_filter_spec_lists_tsf_and_rpc_client() {
    assert_eq!(
        default_log_filter_spec("debug"),
        "rakukan_tsf=debug,rakukan_engine_rpc=debug"
    );
}

#[test]
fn default_log_filter_records_rpc_client_events() {
    let tsf = Arc::new(AtomicUsize::new(0));
    let rpc = Arc::new(AtomicUsize::new(0));
    let other = Arc::new(AtomicUsize::new(0));
    let subscriber = tracing_subscriber::registry()
        .with(tracing_subscriber::EnvFilter::new(default_log_filter_spec("info")))
        .with(CountTargets { tsf: tsf.clone(), rpc: rpc.clone(), other: other.clone() });

    tracing::subscriber::with_default(subscriber, || {
        record("rakukan_tsf", Level::WARN);
        record("rakukan_engine_rpc", Level::WARN);
        record("rakukan_engine_rpc", Level::DEBUG);
        record("rakukan_engine", Level::WARN);
    });

    assert_eq!(tsf.load(Ordering::Relaxed), 1);
    assert_eq!(rpc.load(Ordering::Relaxed), 1);
    assert_eq!(other.load(Ordering::Relaxed), 0);
}

#[test]
fn instance_stem_is_taken_from_log_files_only() {
    assert_eq!(instance_stem_of("rakukan-tsf-1234-999.log").as_deref(), Some("1234-999"));
    assert_eq!(instance_stem_of("rakukan-tsf-1234-999.log.3").as_deref(), Some("1234-999"));
    assert_eq!(instance_stem_of("rakukan-tsf-1234-999.lock"), None);
    assert_eq!(instance_stem_of("rakukan.log"), None);
    assert_eq!(instance_stem_of("rakukan.log.1"), None);
    assert_eq!(instance_stem_of("rakukan-engine-host.log"), None);
    assert_eq!(instance_stem_of("rakukan-engine-dll.log"), None);
}

#[test]
fn startup_id_orders_instances() {
    assert_eq!(startup_id_of("1234-999"), 999);
    assert!(startup_id_of("1234-1000") > startup_id_of("1234-999"));
    assert_eq!(startup_id_of("こわれている"), 0);
}

#[test]
fn only_generated_names_are_targeted() {
    assert_eq!(instance_stem_of("rakukan-tsf-1-2.log.backup"), None);
    assert_eq!(instance_stem_of("rakukan-tsf-1-2.log.0"), None);
    assert_eq!(instance_stem_of("rakukan-tsf-1-2.log.6"), None);
    assert_eq!(instance_stem_of("rakukan-tsf-1-2.log.old"), None);
    assert_eq!(instance_stem_of("rakukan-tsf-abc-2.log"), None);
    assert_eq!(instance_stem_of("rakukan-tsf-1-x.log"), None);
    assert_eq!(instance_stem_of("rakukan-tsf-1.log"), None);
    assert_eq!(instance_stem_of("rakukan-tsf-1-2.log").as_deref(), Some("1-2"));
    assert_eq!(instance_stem_of("rakukan-tsf-1-2.log.5").as_deref(), Some("1-2"));
    assert_eq!(instance_stem_of("rakukan-tsf-1-2.log.tmp").as_deref(), Some("1-2"));
}

#[test]
fn names_lead_back_to_their_run() {
    let stem = instance_stem(1234, 340_282_366_920_938_463_463_374_607_431_768_211_455);
    assert_eq!(stem, "1234-340282366920938463463374607431768211455");
    let log = instance_log_name(&stem);
    assert_eq!(instance_stem_of(&log).as_deref(), Some(stem.as_str()));
    assert_eq!(instance_stem_of(&staged_log_name(&log)).as_deref(), Some(stem.as_str()));
    for g in 1..=LOG_ROTATE_GENERATIONS {
        assert_eq!(instance_stem_of(&rotated_log_name(&log, g)).as_deref(), Some(stem.as_str()));
    }
    assert_eq!(instance_stem_of(&instance_lock_name(&stem)), None);
    assert_eq!(startup_id_of(&stem), u128::MAX);
    assert_eq!(instance_log_name("1-2"), "rakukan-tsf-1-2.log");
    assert_eq!(instance_lock_name("1-2"), "rakukan-tsf-1-2.lock");
}

#[test]
fn the_log_level_is_found_in_the_settings() {
    assert_eq!(config_log_level("[general]\nlog_level = \"info\"\n"), "info");
    assert_eq!(config_log_level("  log_level   =  trace  \n"), "trace");
    assert_eq!(config_log_level("log_level\nlog_level = \"info\"\n"), "debug");
    assert_eq!(config_log_level("# log_level = \"info\"\n"), "debug");
    assert_eq!(config_log_level(""), "debug");
}

/// A directory of logs.
struct Disk {
    files: BTreeMap<String, Vec<u8>>,
    /// Files that can neither be renamed nor removed.
    held: BTreeSet<String>,
    exists: bool,
}

impl Disk {
    fn new() -> Disk {
        Disk { files: BTreeMap::new(), held: BTreeSet::new(), exists: true }
    }

    fn apply(&mut self, log: &str, op: FileOp) -> bool {
        match op {
            FileOp::Rename { from, to, optional } => {
                let (from, to) = (name_of(log, from), name_of(log, to));
                if !self.files.contains_key(&from) {
                    return optional;
                }
                if self.files.contains_key(&to) || self.held.contains(&from) {
                    return false;
                }
                let body = self.files.remove(&from).expect("it is there");
                self.files.insert(to, body);
                true
            }
            FileOp::Remove { file } => {
                let name = name_of(log, file);
                if self.held.contains(&name) {
                    return false;
                }
                self.files.remove(&name);
                true
            }
        }
    }

    fn open(&mut self, log: &str) -> Option<u64> {
        if !self.exists {
            return None;
        }
        Some(self.files.entry(log.to_string()).or_default().len() as u64)
    }
}

fn name_of(log: &str, file: LogFile) -> String {
    match file {
        LogFile::Body => log.to_string(),
        LogFile::Staged => staged_log_name(log),
        LogFile::Generation { number } => rotated_log_name(log, number),
    }
}

/// A log on a disk.
struct Run {
    name: String,
    disk: Disk,
    log: RotatingLog,
    now: u64,
    open: bool,
    renamed_while_open: bool,
}

impl Run {
    fn new(mut disk: Disk, max_bytes: u64) -> Run {
        let name = instance_log_name("1-1");
        let size = disk.open(&name);
        let log = RotatingLog::open_with_cap(max_bytes, size);
        Run { name, open: log.open, disk, log, now: 0, renamed_while_open: false }
    }

    fn drive(&mut self, first: LogAction, data: &[u8]) {
        let mut action = first;
        loop {
            let event = match action {
                LogAction::File { op, close } => {
                    if close {
                        self.open = false;
                    }
                    self.renamed_while_open |= self.open;
                    LogEvent::FileDone { ok: self.disk.apply(&self.name, op) }
                }
                LogAction::Reopen => {
                    let size = self.disk.open(&self.name);
                    self.open = size.is_some();
                    LogEvent::Opened { size }
                }
                LogAction::Write => {
                    let body = self.disk.files.get_mut(&self.name).expect("it is open");
                    body.extend_from_slice(data);
                    LogEvent::Wrote { bytes: Some(data.len() as u64) }
                }
                LogAction::Drop | LogAction::Finished => return,
            };
            action = self.log.resume(event, self.now);
        }
    }

    fn write(&mut self, data: &[u8]) {
        let first = self.log.write(data.len(), self.now);
        self.drive(first, data);
    }

    fn rotate(&mut self) {
        let first = self.log.rotate();
        self.drive(first, b"");
    }

    fn body(&self) -> &[u8] {
        &self.disk.files[&self.name]
    }

    fn generation(&self, g: usize) -> Option<&Vec<u8>> {
        self.disk.files.get(&rotated_log_name(&self.name, g))
    }

    fn staged(&self) -> Option<&Vec<u8>> {
        self.disk.files.get(&staged_log_name(&self.name))
    }
}

#[test]
fn rotating_log_rotates_during_writes() {
    let mut run = Run::new(Disk::new(), 64);
    run.write(&[b'a'; 40]);
    assert!(run.generation(1).is_none());
    run.write(&[b'b'; 40]);
    assert_eq!(run.generation(1).map(|b| b.len()), Some(40));
    assert_eq!(run.body().len(), 40);
}

#[test]
fn rotation_closes_the_handle_before_renaming() {
    let mut run = Run::new(Disk::new(), 16);
    run.write(&[b'a'; 16]);
    run.write(&[b'b'; 16]);
    assert!(run.generation(1).is_some());
    assert!(!run.renamed_while_open);
}

#[test]
fn rotation_failure_keeps_every_generation() {
    let name = instance_log_name("1-1");
    let mut disk = Disk::new();
    for g in 1..=LOG_ROTATE_GENERATIONS {
        disk.files.insert(rotated_log_name(&name, g), vec![b'x'; 10]);
    }
    disk.files.insert(name.clone(), vec![b'x'; 10]);
    disk.held.insert(name);
    let mut run = Run::new(disk, 16);
    for _ in 0..5 {
        run.write(&[b'x'; 16]);
    }
    for g in 1..=LOG_ROTATE_GENERATIONS {
        assert_eq!(run.generation(g).map(|b| b.len()), Some(10));
    }
    assert!(run.staged().is_none());
}

#[test]
fn rotation_is_not_retried_on_every_write_after_a_failure() {
    let name = instance_log_name("1-1");
    let mut disk = Disk::new();
    disk.files.insert(name.clone(), vec![b'x'; 10]);
    disk.held.insert(name);
    let mut run = Run::new(disk, 16);
    run.write(&[b'x'; 16]);
    let first = run.log.rotate_retry_at.expect("the failure is remembered");
    run.write(&[b'x'; 16]);
    assert_eq!(run.log.rotate_retry_at, Some(first));
}

#[test]
fn rotation_resumes_at_each_locked_generation_without_losing_history() {
    for locked in 1..=LOG_ROTATE_GENERATIONS {
        let name = instance_log_name("1-1");
        let mut disk = Disk::new();
        for g in 1..=LOG_ROTATE_GENERATIONS {
            let text = format!("generation-{g}");
            disk.files.insert(rotated_log_name(&name, g), text.into_bytes());
        }
        let mut run = Run::new(disk, 16);
        run.write(b"original-content");
        run.disk.held.insert(rotated_log_name(&name, locked));
        run.write(b"new");

        let step = run.log.rotation_step.expect("must retain failed step");
        for _ in 0..3 {
            run.rotate();
            assert_eq!(run.log.rotation_step, Some(step));
            assert_eq!(run.staged().unwrap(), b"original-content");
            for g in 1..LOG_ROTATE_GENERATIONS {
                let at = if g <= locked { g } else { g + 1 };
                assert_eq!(run.generation(at).unwrap(), format!("generation-{g}").as_bytes());
            }
            if locked == LOG_ROTATE_GENERATIONS {
                assert_eq!(run.generation(LOG_ROTATE_GENERATIONS).unwrap(), b"generation-5");
            }
        }

        run.disk.held.clear();
        run.rotate();
        assert_eq!(run.log.rotation_step, None);
        assert!(run.staged().is_none());
        assert_eq!(run.body(), b"new");
        assert_eq!(run.generation(1).unwrap(), b"original-content");
        for g in 2..=LOG_ROTATE_GENERATIONS {
            assert_eq!(run.generation(g).unwrap(), format!("generation-{}", g - 1).as_bytes());
        }
    }
}

#[test]
fn staged_log_survives_failed_final_rename_and_is_recovered() {
    let name = instance_log_name("1-1");
    let mut disk = Disk::new();
    disk.files.insert(rotated_log_name(&name, 1), b"older".to_vec());
    disk.held.insert(rotated_log_name(&name, 1));
    let mut run = Run::new(disk, 16);
    run.write(b"original-content");
    run.write(b"new");

    run.disk.held.clear();
    run.disk.held.insert(staged_log_name(&name));
    run.rotate();
    assert_eq!(run.log.rotation_step, Some(RotationStep::MoveTo(1)));
    let next = run.log.rotate_retry_at.expect("retry threshold");
    let fill = (next - run.log.written) as usize;
    run.write(&vec![b'x'; fill]);
    run.write(b"retry");
    assert_eq!(run.log.rotation_step, Some(RotationStep::MoveTo(1)));
    assert_eq!(run.staged().unwrap(), b"original-content");
    assert_eq!(run.generation(2).unwrap(), b"older");

    let current = run.body().to_vec();
    run.disk.held.clear();
    run.rotate();
    assert_eq!(run.log.rotation_step, None);
    assert!(run.staged().is_none());
    assert_eq!(run.generation(1).unwrap(), b"original-content");
    assert_eq!(run.body(), current);
}

#[test]
fn rotation_preserves_a_staged_log_without_progress_state() {
    let name = instance_log_name("1-1");
    let mut disk = Disk::new();
    disk.files.insert(staged_log_name(&name), b"unfinished".to_vec());
    disk.files.insert(rotated_log_name(&name, 1), b"older".to_vec());
    let mut run = Run::new(disk, 16);
    run.write(b"original-content");
    run.write(b"new");
    run.rotate();
    assert_eq!(run.log.rotation_step, None);
    assert_eq!(run.staged().unwrap(), b"unfinished");
    assert_eq!(run.generation(1).unwrap(), b"older");
    assert_eq!(run.body(), b"original-contentnew");
}

#[test]
fn writes_resume_after_the_file_can_be_opened_again() {
    let mut disk = Disk::new();
    disk.exists = false;
    let mut run = Run::new(disk, 1024);
    run.log.reopen_retry_ms = 0;
    run.write(b"dropped\n");
    assert!(run.disk.files.is_empty());
    run.disk.exists = true;
    run.write(b"recovered\n");
    assert_eq!(run.body(), b"recovered\n");
}

#[test]
fn a_log_that_cannot_be_opened_is_left_alone_for_a_while() {
    let mut disk = Disk::new();
    disk.exists = false;
    let mut run = Run::new(disk, 1024);
    run.now = 1_000;
    run.write(b"a");
    run.disk.exists = true;
    run.now = 30_999;
    run.write(b"b");
    assert!(run.disk.files.is_empty());
    run.now = 31_000;
    run.write(b"c");
    assert_eq!(run.body(), b"c");
}

#[test]
fn steps_of_a_rotation_follow_each_other() {
    let mut pending: Option<RotationStep> = None;
    let mut ops = vec![next_op(pending)];
    while shift_generations(&mut pending, true) == Shift::Again {
        ops.push(next_op(pending));
    }
    assert_eq!(pending, None);
    assert_eq!(ops.len(), LOG_ROTATE_GENERATIONS + 2);
    assert_eq!(
        ops[0],
        FileOp::Rename { from: LogFile::Body, to: LogFile::Staged, optional: false }
    );
    assert_eq!(ops[1], FileOp::Remove { file: LogFile::Generation { number: 5 } });
    assert_eq!(
        ops[6],
        FileOp::Rename {
            from: LogFile::Staged,
            to: LogFile::Generation { number: 1 },
            optional: false,
        }
    );
    let mut pending = Some(RotationStep::MoveTo(3));
    assert_eq!(shift_generations(&mut pending, false), Shift::Done { rotated: false });
    assert_eq!(pending, Some(RotationStep::MoveTo(3)));
}

/// Logs with their locks.
struct Logs {
    files: BTreeMap<String, u64>,
    locks: BTreeSet<String>,
    /// Locks that a run holds.
    held: BTreeSet<String>,
    /// Files that cannot be removed.
    stuck: BTreeSet<String>,
}

impl Logs {
    fn new() -> Logs {
        Logs {
            files: BTreeMap::new(),
            locks: BTreeSet::new(),
            held: BTreeSet::new(),
            stuck: BTreeSet::new(),
        }
    }

    fn entries(&self) -> Vec<LogEntry> {
        self.files.iter().map(|(n, l)| LogEntry { name: n.clone(), len: *l }).collect()
    }

    fn total(&self) -> u64 {
        self.files
            .iter()
            .filter(|(n, _)| instance_stem_of(n).is_some())
            .map(|(_, l)| *l)
            .sum()
    }

    fn clean(&mut self, own: &str, budget: u64) {
        let entries = self.entries();
        let mut run: CleanupRun = cleanup_logs_with_budget(&entries, own, budget);
        while let Some(victim) = run.next_victim() {
            let lock = instance_lock_name(&victim.stem);
            if !self.locks.contains(&lock) || self.held.contains(&lock) {
                run.keep();
                continue;
            }
            let mut removals = Vec::new();
            for i in &victim.files {
                let name = &entries[*i].name;
                let len = self.files.get(name).copied().unwrap_or(0);
                let ok = !self.stuck.contains(name) && self.files.remove(name).is_some();
                removals.push(Removal { len, ok });
            }
            if run.removed(&removals) {
                self.locks.remove(&lock);
            }
        }
    }
}

#[test]
fn cleanup_does_nothing_under_the_budget() {
    let mut logs = Logs::new();
    logs.files.insert(instance_log_name("1-100"), 100);
    logs.locks.insert(instance_lock_name("1-100"));
    logs.clean("9-999", 1_000);
    assert_eq!(logs.files.len(), 1);
    let entries = logs.entries();
    assert!(cleanup_logs(&entries, "9-999").next_victim().is_none());
}

#[test]
fn cleanup_keeps_instances_whose_lock_is_held() {
    let mut logs = Logs::new();
    logs.files.insert(instance_log_name("1-100"), 400);
    logs.locks.insert(instance_lock_name("1-100"));
    logs.held.insert(instance_lock_name("1-100"));
    logs.clean("9-999", 100);
    assert_eq!(logs.files.len(), 1);
    assert!(logs.total() > 100);
}

#[test]
fn cleanup_keeps_instances_without_a_lock() {
    let mut logs = Logs::new();
    logs.files.insert(instance_log_name("1-100"), 400);
    logs.clean("9-999", 100);
    assert_eq!(logs.files.len(), 1);
}

#[test]
fn cleanup_removes_finished_instances_oldest_first() {
    let mut logs = Logs::new();
    for (stem, len) in [("1-100", 200), ("1-200", 200), ("1-300", 200)] {
        logs.files.insert(instance_log_name(stem), len);
        logs.locks.insert(instance_lock_name(stem));
    }
    logs.files.insert(rotated_log_name(&instance_log_name("1-100"), 1), 100);

    logs.clean("9-999", 450);

    assert!(!logs.files.contains_key(&instance_log_name("1-100")));
    assert!(!logs.files.contains_key(&rotated_log_name(&instance_log_name("1-100"), 1)));
    assert!(!logs.locks.contains(&instance_lock_name("1-100")));
    assert!(logs.files.contains_key(&instance_log_name("1-200")));
    assert!(logs.files.contains_key(&instance_log_name("1-300")));
}

#[test]
fn cleanup_never_touches_its_own_instance_or_legacy_logs() {
    let mut logs = Logs::new();
    logs.files.insert(instance_log_name("9-999"), 400);
    logs.locks.insert(instance_lock_name("9-999"));
    logs.files.insert("rakukan.log".into(), 400);
    logs.files.insert("rakukan.log.1".into(), 400);
    logs.clean("9-999", 10);
    assert!(logs.files.contains_key(&instance_log_name("9-999")));
    assert!(logs.files.contains_key("rakukan.log"));
    assert!(logs.files.contains_key("rakukan.log.1"));
}

#[test]
fn cleanup_keeps_the_lock_when_a_log_cannot_be_removed() {
    let mut logs = Logs::new();
    let log = instance_log_name("1-100");
    logs.files.insert(log.clone(), 400);
    logs.locks.insert(instance_lock_name("1-100"));
    logs.stuck.insert(log.clone());
    logs.clean("9-999", 100);
    assert!(logs.files.contains_key(&log));
    assert!(logs.locks.contains(&instance_lock_name("1-100")));
}

#[test]
fn cleanup_does_not_remove_unrelated_files() {
    let mut logs = Logs::new();
    logs.files.insert("rakukan-tsf-1-100.log.backup".into(), 400);
    logs.files.insert(instance_log_name("1-100"), 400);
    logs.locks.insert(instance_lock_name("1-100"));
    logs.clean("9-999", 10);
    assert!(logs.files.contains_key("rakukan-tsf-1-100.log.backup"));
    assert!(!logs.files.contains_key(&instance_log_name("1-100")));
}
