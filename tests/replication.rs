use undermoon::migration::{MigrationConfig, RedisMigratingTask};
use undermoon::meta::MigrationMeta;
use undermoon::protocol::Resp;
use undermoon::replication::{extract_replicas_from_replication_info, ReplicaState};

#[test]
fn test_parse_slave_value() {
    let value = "ip=127.0.0.1,port=6000,state=online,offset=233,lag=6699";
    let state =
        ReplicaState::parse_replica_meta(value.to_string()).expect("test_parse_slave_value");
    assert_eq!(state.ip, "127.0.0.1");
    assert_eq!(state.port, 6000);
    assert_eq!(state.state, "online");
    assert_eq!(state.offset, 233);
    assert_eq!(state.lag, 6699);
}

#[test]
fn test_parse_replication() {
    let replication_info = "Replication\r
role:master\r
connected_slaves:1\r
slave0:ip=127.0.0.1,port=6000,state=online,offset=233,lag=6699\r
slave1:ip=127.0.0.2,port=6001,state=online,offset=666,lag=7799\r
master_replid:3934c1b1bce5d067567f7e263301879303e8f633\r
master_replid2:0000000000000000000000000000000000000000\r
master_repl_offset:56\r
second_repl_offset:-1\r
repl_backlog_active:1\r
repl_backlog_size:1048576\r
repl_backlog_first_byte_offset:1\r
repl_backlog_histlen:56\r";
    let states = extract_replicas_from_replication_info(replication_info.to_string())
        .expect("test_parse_replication");
    assert_eq!(states.len(), 2);
}

#[test]
fn replica_row_with_trailing_carriage_return() {
    let line = "slave0:ip=127.0.0.1,port=6000,state=online,offset=233,lag=6699\r";
    let states = extract_replicas_from_replication_info(line.to_string()).unwrap();
    assert_eq!(states.len(), 1);
    assert_eq!(states[0].ip, "127.0.0.1");
    assert_eq!(states[0].port, 6000);
    assert_eq!(states[0].state, "online");
    assert_eq!(states[0].offset, 233);
    assert_eq!(states[0].lag, 6699);
}

#[test]
fn replica_rows_keep_their_last_character_between_lines() {
    let info = "role:master\r\nslave0:ip=1.2.3.4,port=7000,state=online,offset=1,lag=12\r\nslave1:ip=1.2.3.5,port=7001,state=online,offset=1,lag=0\r\n";
    let states = extract_replicas_from_replication_info(info.to_string()).unwrap();
    assert_eq!(states.len(), 2);
    assert_eq!(states[0].lag, 12);
    assert_eq!(states[1].lag, 0);
}

#[test]
fn replication_text_rows_read_whole() {
    let info = "Replication\r\nrole:master\r\nslave0:ip=127.0.0.1,port=6000,state=online,offset=233,lag=6699\r\nslave1:ip=127.0.0.2,port=6001,state=online,offset=666,lag=7799\r\nmaster_repl_offset:56\r";
    let states = extract_replicas_from_replication_info(info.to_string()).unwrap();
    assert_eq!(states.len(), 2);
    assert_eq!(states[0].lag, 6699);
    assert_eq!(states[1].ip, "127.0.0.2");
    assert_eq!(states[1].port, 6001);
    assert_eq!(states[1].offset, 666);
    assert_eq!(states[1].lag, 7799);
}

#[test]
fn replica_row_without_colon_value_is_an_error() {
    assert!(extract_replicas_from_replication_info("slave0\r\n".to_string()).is_err());
    assert!(extract_replicas_from_replication_info("slave0:\r\n".to_string()).is_err());
}

#[test]
fn replica_row_missing_port_is_an_error() {
    let value = "ip=127.0.0.1,state=online,offset=233,lag=6699";
    assert!(ReplicaState::parse_replica_meta(value.to_string()).is_err());
    let line = "slave0:ip=127.0.0.1,state=online,offset=233,lag=6699\r";
    assert!(extract_replicas_from_replication_info(line.to_string()).is_err());
}

#[test]
fn replica_row_segment_without_equals_is_an_error() {
    let value = "ip=127.0.0.1,port=6000,state=online,offset=233,lag=6699,junk";
    assert!(ReplicaState::parse_replica_meta(value.to_string()).is_err());
}

#[test]
fn replica_later_pair_replaces_earlier() {
    let value = "ip=1.1.1.1,port=1,state=a,offset=2,lag=3,port=+42";
    let st = ReplicaState::parse_replica_meta(value.to_string()).unwrap();
    assert_eq!(st.port, 42);
}

#[test]
fn replica_numbers_out_of_range_are_errors() {
    let ok = "ip=a,port=18446744073709551615,state=s,offset=0,lag=0";
    assert_eq!(ReplicaState::parse_replica_meta(ok.to_string()).unwrap().port, u64::MAX);
    let over = "ip=a,port=18446744073709551616,state=s,offset=0,lag=0";
    assert!(ReplicaState::parse_replica_meta(over.to_string()).is_err());
    let neg = "ip=a,port=-1,state=s,offset=0,lag=0";
    assert!(ReplicaState::parse_replica_meta(neg.to_string()).is_err());
    let empty = "ip=a,port=,state=s,offset=0,lag=0";
    assert!(ReplicaState::parse_replica_meta(empty.to_string()).is_err());
}

#[test]
fn no_replica_rows_is_an_empty_list() {
    let states = extract_replicas_from_replication_info("role:master\r\n".to_string()).unwrap();
    assert_eq!(states.len(), 0);
}

fn meta() -> MigrationMeta {
    MigrationMeta {
        epoch: 7,
        src_proxy_address: "127.0.0.1:6001".to_string(),
        src_node_address: "127.0.0.1:7001".to_string(),
        dst_proxy_address: "127.0.0.1:6002".to_string(),
        dst_node_address: "127.0.0.1:6000".to_string(),
    }
}

fn config(lag_threshold: u64) -> MigrationConfig {
    MigrationConfig {
        lag_threshold,
        min_blocking_time: 10,
        max_blocking_time: 500,
        max_redirection_time: 1000,
    }
}

#[test]
fn replica_ready_needs_matching_address_and_small_lag() {
    let line = "slave0:ip=127.0.0.1,port=6000,state=online,offset=233,lag=0\r";
    let states = extract_replicas_from_replication_info(line.to_string()).unwrap();
    assert!(RedisMigratingTask::<u32>::replica_state_ready(&states, &meta(), 1));
    assert!(RedisMigratingTask::<u32>::replica_state_ready(&states, &meta(), 0));
    let lagging = "slave0:ip=127.0.0.1,port=6000,state=online,offset=233,lag=1\r";
    let lagging = extract_replicas_from_replication_info(lagging.to_string()).unwrap();
    assert!(!RedisMigratingTask::<u32>::replica_state_ready(&lagging, &meta(), 0));
    assert!(!RedisMigratingTask::<u32>::replica_state_ready(&lagging, &meta(), 1));
    assert!(RedisMigratingTask::<u32>::replica_state_ready(&lagging, &meta(), 2));
    let mut other = meta();
    other.dst_node_address = "127.0.0.1:06000".to_string();
    assert!(!RedisMigratingTask::<u32>::replica_state_ready(&states, &other, 1));
}

#[test]
fn replication_reply_check() {
    let task: RedisMigratingTask<u32> =
        RedisMigratingTask::new(config(5), "db".to_string(), (1000, 2000), meta());
    let info = "slave0:ip=127.0.0.1,port=6000,state=online,offset=233,lag=4\r";
    assert!(task.check_replication_reply(&Resp::Bulk(Some(info.as_bytes().to_vec()))));
    let lagging = "slave0:ip=127.0.0.1,port=6000,state=online,offset=233,lag=5\r";
    assert!(!task.check_replication_reply(&Resp::Bulk(Some(lagging.as_bytes().to_vec()))));
    assert!(!task.check_replication_reply(&Resp::Bulk(Some(vec![0xff, 0xfe]))));
    assert!(!task.check_replication_reply(&Resp::Error(b"ERR".to_vec())));
    assert!(!task.check_replication_reply(&Resp::Bulk(None)));
}
