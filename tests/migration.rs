use undermoon::meta::{MigrationMeta, SwitchArg, SERVER_PROXY_VERSION};
use undermoon::migration::{
    AtomicMigrationState, ImportingSend, MigratingSend, MigrationConfig, MigrationError,
    MigrationState, RedisImportingTask, RedisMigratingTask, ReleaseStep,
};
use undermoon::protocol::Resp;

fn meta() -> MigrationMeta {
    MigrationMeta {
        epoch: 7,
        src_proxy_address: "127.0.0.1:6001".to_string(),
        src_node_address: "127.0.0.1:7001".to_string(),
        dst_proxy_address: "127.0.0.1:6002".to_string(),
        dst_node_address: "127.0.0.1:6000".to_string(),
    }
}

fn config() -> MigrationConfig {
    MigrationConfig {
        lag_threshold: 1,
        min_blocking_time: 10,
        max_blocking_time: 500,
        max_redirection_time: 1000,
    }
}

fn task() -> RedisMigratingTask<u32> {
    RedisMigratingTask::new(config(), "db".to_string(), (1000, 2000), meta())
}

#[test]
fn happy_migration() {
    let mut t = task();
    assert_eq!(t.start(), Ok(()));
    assert_eq!(t.get_state(), MigrationState::TransferringData);
    assert!(matches!(t.send(1), MigratingSend::SlotNotFound(1)));

    let info = "slave0:ip=127.0.0.1,port=6000,state=online,offset=233,lag=0\r";
    assert!(t.check_replication_reply(&Resp::Bulk(Some(info.as_bytes().to_vec()))));
    t.replication_done();
    assert_eq!(t.get_state(), MigrationState::PreSwitch);

    let cmd = t.switch_command();
    assert_eq!(t.get_state(), MigrationState::SwitchStarted);
    let expected: Vec<String> = vec![
        "UMCTL", "TMPSWITCH", "0.4.0", "db", "1000", "2000", "7", "127.0.0.1:6001",
        "127.0.0.1:7001", "127.0.0.1:6002", "127.0.0.1:6000",
    ]
    .into_iter()
    .map(|s| s.to_string())
    .collect();
    assert_eq!(cmd, expected);

    for i in 10..14 {
        assert!(matches!(t.send(i), MigratingSend::Queued));
    }
    assert!(t.handle_switch_reply(&Resp::Simple(b"OK".to_vec())));
    assert_eq!(t.get_state(), MigrationState::SwitchCommitted);

    assert_eq!(t.release_queue_step(0), ReleaseStep::Sleep { delay: 10, lasting: 11 });
    assert_eq!(t.release_queue_step(11), ReleaseStep::Drain { delay: 5 });
    assert_eq!(t.drain_waiting_queue(), vec![10, 11, 12, 13]);
    match t.send(20) {
        MigratingSend::Forward(v) => assert_eq!(v, vec![20]),
        _ => panic!("expected a forward"),
    }
    t.stop_redirection();
    assert!(matches!(t.send(21), MigratingSend::SlotNotFound(21)));
    assert_eq!(t.stop(), Ok(()));
}

#[test]
fn commit_never_arrives() {
    let mut t = task();
    t.replication_done();
    let _ = t.switch_command();
    assert!(matches!(t.send(1), MigratingSend::Queued));
    assert!(matches!(t.send(2), MigratingSend::Queued));
    assert!(!t.handle_switch_reply(&Resp::Error(b"ERR IncompatibleVersion".to_vec())));
    assert_eq!(t.get_state(), MigrationState::SwitchStarted);
    assert_eq!(t.release_queue_step(0), ReleaseStep::Sleep { delay: 10, lasting: 11 });
    assert_eq!(t.release_queue_step(11), ReleaseStep::Sleep { delay: 5, lasting: 16 });
    assert_eq!(t.release_queue_step(500), ReleaseStep::Sleep { delay: 5, lasting: 505 });
    assert_eq!(t.release_queue_step(505), ReleaseStep::Drain { delay: 0 });
    assert_eq!(t.get_state(), MigrationState::SwitchCommitted);
    assert_eq!(t.drain_waiting_queue(), vec![1, 2]);
    t.stop_redirection();
    assert!(matches!(t.send(3), MigratingSend::SlotNotFound(3)));
}

#[test]
fn short_min_blocking_time_polls_at_that_pace() {
    let mut c = config();
    c.min_blocking_time = 2;
    let mut t: RedisMigratingTask<u32> =
        RedisMigratingTask::new(c, "db".to_string(), (0, 1), meta());
    assert_eq!(t.release_queue_step(0), ReleaseStep::Sleep { delay: 2, lasting: 3 });
    assert_eq!(t.release_queue_step(3), ReleaseStep::Sleep { delay: 2, lasting: 5 });
}

#[test]
fn zero_min_blocking_time_still_forces_commit() {
    let mut c = config();
    c.min_blocking_time = 0;
    c.max_blocking_time = 3;
    let mut t: RedisMigratingTask<u32> =
        RedisMigratingTask::new(c, "db".to_string(), (0, 1), meta());
    t.replication_done();
    let _ = t.switch_command();
    assert!(matches!(t.send(9), MigratingSend::Queued));
    assert_eq!(t.release_queue_step(0), ReleaseStep::Sleep { delay: 0, lasting: 1 });
    assert_eq!(t.release_queue_step(1), ReleaseStep::Sleep { delay: 1, lasting: 2 });
    assert_eq!(t.release_queue_step(2), ReleaseStep::Sleep { delay: 1, lasting: 3 });
    assert_eq!(t.release_queue_step(3), ReleaseStep::Sleep { delay: 1, lasting: 4 });
    assert_eq!(t.release_queue_step(4), ReleaseStep::Drain { delay: 0 });
    assert_eq!(t.get_state(), MigrationState::SwitchCommitted);
    assert_eq!(t.drain_waiting_queue(), vec![9]);
}

#[test]
fn zero_lag_threshold_waits_for_zero_lag() {
    let mut c = config();
    c.lag_threshold = 0;
    let t: RedisMigratingTask<u32> =
        RedisMigratingTask::new(c, "db".to_string(), (0, 1), meta());
    let lag1 = "slave0:ip=127.0.0.1,port=6000,state=online,offset=1,lag=1\r";
    let lag0 = "slave0:ip=127.0.0.1,port=6000,state=online,offset=1,lag=0\r";
    assert!(!t.check_replication_reply(&Resp::Bulk(Some(lag1.as_bytes().to_vec()))));
    assert!(t.check_replication_reply(&Resp::Bulk(Some(lag0.as_bytes().to_vec()))));
}

#[test]
fn committed_send_drains_queue_first() {
    let mut t = task();
    t.replication_done();
    let _ = t.switch_command();
    assert!(matches!(t.send(1), MigratingSend::Queued));
    assert!(t.handle_switch_reply(&Resp::Simple(b"OK".to_vec())));
    match t.send(2) {
        MigratingSend::Forward(v) => assert_eq!(v, vec![1, 2]),
        _ => panic!("expected a forward"),
    }
    assert!(t.queue.is_empty());
    assert!(!t.blocking);
    match t.send(3) {
        MigratingSend::Forward(v) => assert_eq!(v, vec![3]),
        _ => panic!("expected a forward"),
    }
}

#[test]
fn start_and_stop_once() {
    let mut t = task();
    assert_eq!(t.stop(), Err(MigrationError::AlreadyEnded));
    assert_eq!(t.start(), Ok(()));
    assert_eq!(t.start(), Err(MigrationError::AlreadyStarted));
    assert_eq!(t.stop(), Ok(()));
    assert_eq!(t.stop(), Err(MigrationError::AlreadyEnded));
}

#[test]
fn state_never_goes_back() {
    let mut s = AtomicMigrationState::new();
    s.set_state(MigrationState::SwitchStarted);
    s.set_state(MigrationState::PreSwitch);
    assert_eq!(s.get_state(), MigrationState::SwitchStarted);
    s.set_state(MigrationState::SwitchCommitted);
    s.set_state(MigrationState::TransferringData);
    assert_eq!(s.get_state(), MigrationState::SwitchCommitted);
}

fn switch_arg(version: &str) -> SwitchArg {
    SwitchArg {
        version: version.to_string(),
        db_name: "db".to_string(),
        slot_start: 1000,
        slot_end: 2000,
        meta: meta(),
    }
}

#[test]
fn version_mismatch_then_retry() {
    assert_eq!(SERVER_PROXY_VERSION, "0.4.0");
    let mut imp = RedisImportingTask::new(config(), meta());
    assert_eq!(imp.start(), Ok(()));
    assert!(matches!(imp.send(5u32), ImportingSend::Redirect(5)));
    assert_eq!(imp.commit(&switch_arg("0.3.9")), Err(MigrationError::IncompatibleVersion));
    assert_eq!(imp.get_state(), MigrationState::TransferringData);
    assert_eq!(imp.commit(&switch_arg("0.4.0")), Ok(()));
    assert_eq!(imp.get_state(), MigrationState::SwitchCommitted);
    assert_eq!(imp.commit(&switch_arg("0.4.0")), Ok(()));
    assert_eq!(imp.get_state(), MigrationState::SwitchCommitted);
    assert!(matches!(imp.send(6u32), ImportingSend::SlotNotFound(6)));
    assert_eq!(imp.stop(), Ok(()));
    assert_eq!(imp.stop(), Err(MigrationError::AlreadyEnded));
}

#[test]
fn importing_released_after_timeout() {
    let mut imp = RedisImportingTask::new(config(), meta());
    imp.release_importing_for_timeout();
    assert_eq!(imp.get_state(), MigrationState::SwitchCommitted);
}

#[test]
fn meta_round_trip() {
    let m = meta();
    let words = m.into_strings();
    assert_eq!(words[0], "7");
    let back = MigrationMeta::from_strings(&words).unwrap();
    assert_eq!(back.epoch, 7);
    assert_eq!(back.into_strings(), words);
    let mut bad = words.clone();
    bad[0] = "x7".to_string();
    assert!(MigrationMeta::from_strings(&bad).is_none());
    assert!(MigrationMeta::from_strings(&words[1..].to_vec()).is_none());
}

#[test]
fn switch_arg_round_trip() {
    let a = switch_arg("0.4.0");
    let words = a.into_strings();
    assert_eq!(words.len(), 9);
    assert_eq!(words[2], "1000");
    let back = SwitchArg::from_strings(&words).unwrap();
    assert_eq!(back.into_strings(), words);
    assert!(back.version_matches());
    assert!(!switch_arg("0.3.9").version_matches());
}
