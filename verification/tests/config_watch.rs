use rakukan::engine::config::AppConfig;
use rakukan::engine::config_manager::{ConfigManager, LoadInput, LoadOutcome};
use rakukan::engine::config_watch::{
    read_reason, request_background_reload, FaultFlags, LoopOptions, SourceFlags, WaitSet,
    WatchAction, WatchEvent, WatchLoop, WatchNext, WatchScheduler, WatchSource, DEBOUNCE_MS,
    MAX_BURST_MS, PERIODIC_MS,
};
use rakukan::engine::config_watch_fault::{ControlFile, FileFaultControl, Startup, MAX_ACTIVE_MS};

#[test]
fn periodic_only_when_idle() {
    let mut s = WatchScheduler::new(1_000);
    assert_eq!(s.next_deadline(), 1_000 + PERIODIC_MS);
    assert!(s.take_due(1_000 + PERIODIC_MS - 1).is_none());
    let job = s.take_due(1_000 + PERIODIC_MS).expect("periodic due");
    assert_eq!(job.reason, "periodic");
    assert!(!job.save_event);
}

#[test]
fn debounce_waits_for_quiet_period() {
    let mut s = WatchScheduler::new(0);
    s.on_notify(1_000);
    assert_eq!(s.next_deadline(), 1_000 + DEBOUNCE_MS);
    // 300ms 以内の追加通知でデバウンスが延びる
    s.on_notify(1_200);
    assert_eq!(s.next_deadline(), 1_200 + DEBOUNCE_MS);
    assert!(s.take_due(1_499).is_none());
    let job = s.take_due(1_500).expect("debounce due");
    assert_eq!(job.reason, "notify");
    assert!(!s.has_request(), "読込で要求は消える");
}

#[test]
fn burst_is_capped_by_max_wait() {
    // 通知が途切れなくても、最初の通知から 2 秒で読む
    let mut s = WatchScheduler::new(0);
    let mut t = 1_000;
    s.on_notify(t);
    while t < 1_000 + MAX_BURST_MS {
        t += 100;
        s.on_notify(t);
        assert!(s.next_deadline() <= 1_000 + MAX_BURST_MS);
    }
    assert!(s.take_due(1_000 + MAX_BURST_MS).is_some());
}

#[test]
fn notifications_do_not_extend_periodic_deadline() {
    let mut s = WatchScheduler::new(0);
    let periodic = s.next_periodic_at;
    for t in (100..PERIODIC_MS).step_by(100) {
        s.on_notify(t);
        // 読まずに通知だけ続いても、定期確認の期限は動かない
        assert_eq!(s.next_periodic_at, periodic);
    }
}

#[test]
fn read_done_restarts_periodic_from_completion() {
    let mut s = WatchScheduler::new(0);
    s.on_notify(500);
    assert!(s.take_due(800).is_some());
    s.on_read_done(900);
    assert_eq!(s.next_periodic_at, 900 + PERIODIC_MS);
    // 失敗した読込でも同じ（呼び出し側が on_read_done を呼ぶ）
    s.on_read_done(1_000);
    assert_eq!(s.next_periodic_at, 1_000 + PERIODIC_MS);
}

#[test]
fn notify_during_read_becomes_a_new_request() {
    let mut s = WatchScheduler::new(0);
    s.on_notify(100);
    assert!(s.take_due(400).is_some());
    // 読込中（take_due の後、on_read_done の前）に届いた通知
    s.on_notify(450);
    s.on_read_done(500);
    assert!(s.has_request(), "読込中の通知を取り落とさない");
    assert_eq!(s.next_deadline(), 450 + DEBOUNCE_MS);
}

#[test]
fn save_event_is_kept_until_a_read_takes_it() {
    let mut s = WatchScheduler::new(0);
    s.on_save_event(100);
    // 保存イベントの直後に別の通知が来ても、契機は残る
    s.on_notify(200);
    let job = s.take_due(500).expect("due");
    assert!(job.save_event);
    // 取り出した後は消えている
    s.on_notify(600);
    let job = s.take_due(900).expect("due");
    assert!(!job.save_event);
}

#[test]
fn save_event_during_read_is_processed_by_the_next_read() {
    let mut s = WatchScheduler::new(0);
    s.on_notify(100);
    let first = s.take_due(400).expect("due");
    assert!(!first.save_event);
    // 読込中に保存イベント（背景読込より先にイベントが届く順序の逆も含め、捨てない）
    s.on_save_event(450);
    s.on_read_done(500);
    let second = s.take_due(750).expect("due");
    assert!(second.save_event, "読込中の保存イベントを捨てない");
}

#[test]
fn wait_set_maps_signaled_index_to_the_present_sources_only() {
    // 全部そろっているとき
    let all = WaitSet::new(true, true, true);
    assert_eq!(all.len(), 3);
    assert_eq!(all.source_at(0), Some(WatchSource::SaveEvent));
    assert_eq!(all.source_at(1), Some(WatchSource::Request));
    assert_eq!(all.source_at(2), Some(WatchSource::DirChange));
    assert_eq!(all.source_at(3), None);
    // 名前付きイベントが作れなかったとき: 番号 0 は要求イベント
    let no_named = WaitSet::new(false, true, true);
    assert_eq!(no_named.len(), 2);
    assert_eq!(no_named.source_at(0), Some(WatchSource::Request));
    assert_eq!(no_named.source_at(1), Some(WatchSource::DirChange));
    // 要求イベントとディレクトリ監視が無いとき: 番号 0 は名前付きイベント
    let only_named = WaitSet::new(true, false, false);
    assert_eq!(only_named.source_at(0), Some(WatchSource::SaveEvent));
    assert_eq!(only_named.source_at(1), None);
    // 何も作れなかったとき: 待つ源は無い（定期確認だけで動く）
    let none = WaitSet::new(false, false, false);
    assert!(none.is_empty());
    assert_eq!(none.source_at(0), None);
}

#[test]
fn periodic_read_while_request_pending_uses_the_earlier_deadline() {
    let mut s = WatchScheduler::new(0);
    // 定期確認の直前に通知が来た: 早い方（定期確認）で読み、要求も消費する
    s.on_notify(PERIODIC_MS - 100);
    assert_eq!(s.next_deadline(), PERIODIC_MS);
    let job = s.take_due(PERIODIC_MS).expect("due");
    assert_eq!(job.reason, "periodic");
    assert!(!s.has_request());
}

/// A system on which the watch runs, with a clock of its own.
struct Rig {
    watch: WatchLoop,
    action: WatchAction,
    now: u64,
    /// When the wait that goes on is over.
    deadline: Option<u64>,
    faults: FaultFlags,
    file: Option<String>,
    dir_changed: bool,
    save_event: bool,
    stop: bool,
    /// Whether the settings are saved while they are read for the first time.
    save_while_reading: bool,
    reads: Vec<(&'static str, Option<String>)>,
    manager: Option<ConfigManager>,
    outcomes: Vec<(LoadOutcome, usize)>,
    applies: usize,
    log: Vec<SourceFlags>,
    stopped: bool,
}

fn settings(file: &Option<String>) -> LoadInput {
    match file {
        None => LoadInput::Unreadable { error: "no such file".into() },
        Some(text) => {
            let parsed = text
                .parse::<toml::Table>()
                .map_err(|e| e.to_string())
                .map(|root| {
                    let mut cfg = AppConfig::default();
                    cfg.conversion.num_candidates = root
                        .get("conversion")
                        .and_then(|v| v.as_table())
                        .and_then(|t| t.get("num_candidates"))
                        .and_then(|v| v.as_integer())
                        .map(|n| n as usize);
                    cfg
                });
            LoadInput::Body { bytes: text.as_bytes().to_vec(), parsed }
        }
    }
}

impl Rig {
    fn start(file: &str, periodic_ms: u64, poll: Option<u64>, faults: FaultFlags) -> Rig {
        let options = LoopOptions { has_stop: true, periodic_ms, control_poll_ms: poll };
        let (watch, action) = WatchLoop::start(options);
        Rig {
            watch,
            action,
            now: 0,
            deadline: None,
            faults,
            file: Some(file.into()),
            dir_changed: false,
            save_event: false,
            stop: false,
            save_while_reading: false,
            reads: Vec::new(),
            manager: None,
            outcomes: Vec::new(),
            applies: 0,
            log: Vec::new(),
            stopped: false,
        }
    }

    fn managed(mut self) -> Rig {
        let (manager, _) = ConfigManager::from_path("config.toml".into(), settings(&self.file));
        self.manager = Some(manager);
        self
    }

    /// Something in the directory changes.
    fn touch(&mut self) {
        if self.watch.present.dir_change {
            self.dir_changed = true;
        }
    }

    fn write(&mut self, text: &str) {
        self.file = Some(text.into());
        self.touch();
    }

    fn remove(&mut self) {
        self.file = None;
        self.touch();
    }

    /// The place of what has woken the watch.
    fn signaled(&self) -> Option<u32> {
        if self.stop {
            return Some(0);
        }
        let set = self.watch.wait_set();
        for (i, source) in set.sources().iter().enumerate() {
            let on = match source {
                WatchSource::SaveEvent => self.save_event,
                WatchSource::Request => false,
                WatchSource::DirChange => self.dir_changed,
            };
            if on {
                return Some(1 + i as u32);
            }
        }
        None
    }

    fn go_on(&mut self, event: WatchEvent) {
        self.action = self.watch.run_loop_with(event, self.now);
        self.deadline = None;
        if self.action.close_dir {
            self.dir_changed = false;
        }
    }

    /// Runs the watch up to a time.
    fn run(&mut self, until: u64) {
        while !self.stopped {
            match self.action.next {
                WatchNext::AskFaults => {
                    let flags = self.faults;
                    self.go_on(WatchEvent::Faults { flags });
                }
                WatchNext::Create { which, log } => {
                    self.log.push(log);
                    if which.dir_change {
                        self.dir_changed = false;
                    }
                    self.go_on(WatchEvent::Created { made: which });
                }
                WatchNext::Wait { ms } => {
                    let deadline = *self.deadline.get_or_insert(self.now + u64::from(ms));
                    if let Some(index) = self.signaled() {
                        if index == 1 && self.watch.present.save_event {
                            self.save_event = false;
                        }
                        self.go_on(WatchEvent::Signaled { index });
                    } else if deadline <= until {
                        self.now = deadline;
                        self.go_on(WatchEvent::TimedOut);
                    } else {
                        self.now = until;
                        return;
                    }
                }
                WatchNext::Sleep { ms } | WatchNext::Pause { ms } => {
                    self.now += u64::from(ms);
                    self.go_on(WatchEvent::Finished);
                }
                WatchNext::Rearm => {
                    self.dir_changed = false;
                    self.go_on(WatchEvent::Rearmed { ok: true });
                }
                WatchNext::Read { notified } => {
                    if self.save_while_reading && self.reads.is_empty() {
                        self.save_event = true;
                    }
                    self.reads.push((read_reason(notified), self.file.clone()));
                    if let Some(manager) = &mut self.manager {
                        let outcome = manager.reinit(settings(&self.file), "watch").0;
                        let n = manager.app_config().effective_num_candidates();
                        self.outcomes.push((outcome, n));
                    }
                    self.go_on(WatchEvent::Finished);
                }
                WatchNext::Apply => {
                    self.applies += 1;
                    self.go_on(WatchEvent::Finished);
                }
                WatchNext::Stop => self.stopped = true,
            }
        }
    }
}

#[test]
fn real_wait_loop_reads_periodically_without_notifications_then_recovers() {
    let faults = FaultFlags { suppress_notifications: true, ..Default::default() };
    let mut rig = Rig::start("A", 700, Some(20), faults);
    rig.run(80);
    rig.write("B");
    rig.run(720);
    assert_eq!(rig.reads, vec![("periodic", Some("B".to_owned()))]);

    rig.faults = FaultFlags::default();
    rig.run(800);
    rig.write("C");
    rig.run(2_800);
    assert!(rig.reads.contains(&("notify", Some("C".to_owned()))));
    rig.stop = true;
    rig.run(3_000);
    assert!(rig.stopped);
}

#[test]
fn real_wait_loop_survives_all_source_creation_failures_and_recreates_them() {
    let faults = FaultFlags {
        fail_save_event: true,
        fail_request_event: true,
        fail_dir_watch: true,
        ..Default::default()
    };
    let mut rig = Rig::start("A", 600, Some(20), faults);
    rig.run(650);
    assert_eq!(rig.reads.first().map(|r| r.0), Some("periodic"));
    rig.faults = FaultFlags::default();
    rig.run(750);
    rig.save_event = true;
    rig.run(3_750);
    assert_eq!(rig.applies, 1);
}

#[test]
fn real_wait_loop_rearms_after_one_notification_registration_failure() {
    let faults = FaultFlags { fail_rearm_once: true, ..Default::default() };
    let mut rig = Rig::start("A", 2_000, Some(20), faults);
    rig.run(80);
    rig.write("B");
    rig.run(500);
    assert_eq!(rig.reads, vec![("notify", Some("B".to_owned()))]);
    rig.write("C");
    rig.run(1_000);
    assert_eq!(rig.reads[1..], [("notify", Some("C".to_owned()))]);
}

#[test]
fn real_wait_loop_keeps_a_save_event_received_during_read() {
    let mut rig = Rig::start("A", 2_000, None, FaultFlags::default());
    rig.save_while_reading = true;
    rig.run(80);
    rig.write("B");
    rig.run(1_000);
    let reasons: Vec<&str> = rig.reads.iter().map(|r| r.0).collect();
    assert_eq!(reasons, vec!["notify", "notify"]);
    assert_eq!(rig.applies, 1);
}

#[test]
fn real_wait_loop_keeps_last_good_config_after_parse_failure_and_recovers() {
    let text = "[conversion]\nnum_candidates = 7\n";
    let mut rig = Rig::start(text, 2_000, None, FaultFlags::default()).managed();
    rig.run(80);
    rig.write("[conversion\nnum_candidates = ");
    rig.run(500);
    assert_eq!(rig.outcomes, vec![(LoadOutcome::Failed, 7)]);
    rig.remove();
    rig.run(1_000);
    assert_eq!(rig.outcomes[1], (LoadOutcome::Failed, 7));
    rig.write("[conversion]\nnum_candidates = 4\n");
    rig.run(1_500);
    assert_eq!(rig.outcomes[2], (LoadOutcome::Updated, 4));
}

#[test]
fn unrelated_directory_writes_do_not_delay_periodic_check_or_publish_config() {
    let text = "[conversion]\nnum_candidates = 7\n";
    let mut rig = Rig::start(text, 800, None, FaultFlags::default()).managed();
    for i in 1..13 {
        rig.run(80 * i);
        rig.touch();
    }
    rig.run(1_400);
    assert_eq!(rig.reads[0].0, "periodic");
    assert_eq!(rig.reads[1].0, "notify");
    assert!(rig.outcomes.iter().all(|o| o.0 == LoadOutcome::Unchanged));
}

#[test]
fn invalid_control_and_deadline_release_without_rearming() {
    let on = FaultFlags { suppress_notifications: true, ..Default::default() };
    let file = |id: &str| Some(ControlFile { id: id.into(), pid: 5, flags: on });
    let mut control = FileFaultControl { id: "matching".into(), started_ms: 0, active: true };
    assert!(control.poll(file("matching"), 5, 10).suppress_notifications);
    assert_eq!(control.poll(file("different"), 5, 20), FaultFlags::default());
    assert_eq!(control.poll(file("matching"), 5, 30), FaultFlags::default());

    control.active = true;
    control.started_ms = 40;
    assert_eq!(control.poll(None, 5, 50), FaultFlags::default());
    assert!(!control.active);

    control.active = true;
    control.started_ms = 60;
    assert_eq!(control.poll(file("matching"), 5, 60 + MAX_ACTIVE_MS + 1), FaultFlags::default());
    assert!(!control.active);
}

#[test]
fn the_rig_is_armed_by_its_own_file_in_time() {
    let flags = FaultFlags { fail_dir_watch: true, ..Default::default() };
    let file = |pid: u32| Some(ControlFile { id: "a".into(), pid, flags });
    assert!(FileFaultControl::from_env(String::new(), 0).is_none());
    let mut control = FileFaultControl::from_env("a".into(), 100).expect("an id");
    assert_eq!(control.try_arm(None, 5, 200), Startup::Again);
    assert_eq!(control.try_arm(file(6), 5, 5_099), Startup::Again);
    assert_eq!(control.try_arm(file(6), 5, 5_100), Startup::GivenUp);
    assert_eq!(control.try_arm(file(5), 5, 5_200), Startup::Armed { flags });
    assert!(control.active);
    assert_eq!(control.poll(file(5), 5, 5_300), flags);
}

#[test]
fn a_source_that_stays_missing_is_reported_once() {
    let mut rig = Rig::start("A", 600, Some(20), FaultFlags::default());
    rig.run(10);
    let all = SourceFlags { save_event: true, request: true, dir_change: true };
    assert_eq!(rig.log, vec![all]);
    let mut watch = rig.watch;
    let dir = SourceFlags { save_event: false, request: false, dir_change: true };
    let none = SourceFlags { save_event: false, request: false, dir_change: false };
    watch.present = none;
    watch.retry_missing(dir, none);
    assert!(watch.logged_missing.dir_change);
    assert!(!watch.present.dir_change);
    watch.retry_missing(dir, dir);
    assert!(!watch.logged_missing.dir_change);
    assert!(watch.present.dir_change);
}

#[test]
fn a_wait_that_fails_is_followed_by_a_pause() {
    let mut rig = Rig::start("A", 600, None, FaultFlags::default());
    rig.run(10);
    assert!(matches!(rig.action.next, WatchNext::Wait { .. }));
    rig.go_on(WatchEvent::WaitFailed);
    assert!(matches!(rig.action.next, WatchNext::Pause { .. }));
    rig.run(20_000);
    assert!(!rig.reads.is_empty());
}

#[test]
fn a_reload_is_asked_for_only_where_something_listens() {
    assert!(!request_background_reload(0));
    assert!(request_background_reload(7));
}
