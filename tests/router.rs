use undermoon::router::{
    hash_part_bounds, key_slot, RangeKind, RouteDecision, SlotRange, SlotTable, SLOT_COUNT,
};

#[test]
fn key_slots_follow_the_cluster_hash() {
    assert_eq!(key_slot(b"foo"), 12182);
    assert_eq!(key_slot(b"bar"), 5061);
    assert_eq!(key_slot(b"123456789"), 0x31c3);
    assert_eq!(key_slot(b"{foo}bar"), 12182);
    assert_eq!(key_slot(b"{user1000}.following"), key_slot(b"{user1000}.followers"));
}

#[test]
fn hash_tag_rules() {
    assert_eq!(hash_part_bounds(b"a{b}c"), (2, 3));
    assert_eq!(hash_part_bounds(b"{}abc"), (0, 5));
    assert_eq!(hash_part_bounds(b"abc{"), (0, 4));
    assert_eq!(hash_part_bounds(b"x{y}{z}"), (2, 3));
    assert_eq!(hash_part_bounds(b""), (0, 0));
}

fn ranges() -> Vec<SlotRange> {
    vec![
        SlotRange { start: 0, end: 8000, kind: RangeKind::Stable },
        SlotRange { start: 1000, end: 2000, kind: RangeKind::Migrating },
        SlotRange { start: 1500, end: 1600, kind: RangeKind::Importing },
        SlotRange { start: 10000, end: 16383, kind: RangeKind::Stable },
    ]
}

#[test]
fn routing_table_decisions() {
    let t = SlotTable::install_topology(3, ranges());
    assert_eq!(t.epoch, 3);
    assert_eq!(t.table.len(), SLOT_COUNT);
    assert_eq!(t.route_slot(500), RouteDecision::Covered { range: 0, kind: RangeKind::Stable });
    assert_eq!(t.route_slot(1200), RouteDecision::Covered { range: 1, kind: RangeKind::Migrating });
    assert_eq!(t.route_slot(1550), RouteDecision::Covered { range: 2, kind: RangeKind::Importing });
    assert_eq!(t.route_slot(9000), RouteDecision::SlotNotCovered);
    assert_eq!(t.route(b"foo"), RouteDecision::Covered { range: 3, kind: RangeKind::Stable });
}

#[test]
fn empty_topology_covers_nothing() {
    let t = SlotTable::install_topology(1, vec![]);
    assert_eq!(t.route_slot(0), RouteDecision::SlotNotCovered);
    assert_eq!(t.route_slot(SLOT_COUNT - 1), RouteDecision::SlotNotCovered);
}
