use undermoon::meta::MigrationMeta;
use undermoon::retriever::I64Retriever;
use undermoon::supervisor::MigrationSupervisor;

fn meta(epoch: u64, dst: &str) -> MigrationMeta {
    MigrationMeta {
        epoch,
        src_proxy_address: "127.0.0.1:6001".to_string(),
        src_node_address: "127.0.0.1:7001".to_string(),
        dst_proxy_address: dst.to_string(),
        dst_node_address: "127.0.0.1:7002".to_string(),
    }
}

#[test]
fn install_starts_each_migration_once() {
    let mut sup = MigrationSupervisor::new();
    let desired = vec![meta(1, "a"), meta(1, "b"), meta(1, "a")];
    let d = sup.install(&desired);
    assert!(d.stop.is_empty());
    assert_eq!(d.start, vec![true, true, false]);
    assert_eq!(sup.live.len(), 2);
}

#[test]
fn reinstall_is_a_no_op() {
    let mut sup = MigrationSupervisor::new();
    let desired = vec![meta(1, "a"), meta(2, "b")];
    sup.install(&desired);
    let d = sup.install(&desired);
    assert_eq!(d.stop, vec![false, false]);
    assert_eq!(d.start, vec![false, false]);
}

#[test]
fn new_topology_stops_and_starts() {
    let mut sup = MigrationSupervisor::new();
    sup.install(&vec![meta(1, "a"), meta(1, "b")]);
    let d = sup.diff(&vec![meta(1, "b"), meta(2, "a")]);
    assert_eq!(d.stop, vec![true, false]);
    assert_eq!(d.start, vec![false, true]);
}

#[test]
fn retriever_signals_are_taken_once() {
    let mut r = I64Retriever::new(5, "host:port".to_string(), vec!["GET".to_string()], 10);
    assert_eq!(r.get_data(), 5);
    assert!(r.start());
    assert!(!r.start());
    r.set_data(-3);
    assert_eq!(r.get_data(), -3);
    assert!(r.stop());
    assert!(!r.try_stop());
}
