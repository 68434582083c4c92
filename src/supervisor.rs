use vstd::prelude::*;

use crate::meta::{MetaView, MigrationMeta};

verus! {

/// The views of a vector of metas.
pub open spec fn meta_views(v: Seq<MigrationMeta>) -> Seq<MetaView> {
    v.map_values(|m: MigrationMeta| m@)
}

/// The metas of `s` without repeats, each where it first occurs.
pub open spec fn dedup(s: Seq<MetaView>) -> Seq<MetaView>
    decreases s.len(),
{
    if s.len() == 0 {
        s
    } else if s.drop_last().contains(s.last()) {
        dedup(s.drop_last())
    } else {
        dedup(s.drop_last()).push(s.last())
    }
}

/// A running task whose migration the new topology no longer holds is stopped.
pub open spec fn should_stop(live: Seq<MetaView>, desired: Seq<MetaView>, i: int) -> bool {
    !desired.contains(live[i])
}

/// A migration of the new topology is started where no task runs it yet and
/// it did not occur earlier in the topology.
pub open spec fn should_start(live: Seq<MetaView>, desired: Seq<MetaView>, j: int) -> bool {
    !live.contains(desired[j]) && !desired.take(j).contains(desired[j])
}

pub proof fn lemma_dedup_contains(s: Seq<MetaView>, x: MetaView)
    ensures
        dedup(s).contains(x) <==> s.contains(x),
    decreases s.len(),
{
    if s.len() > 0 {
        lemma_dedup_contains(s.drop_last(), x);
        assert(s == s.drop_last().push(s.last()));
        if s.contains(x) && x != s.last() {
            let k = choose|k: int| 0 <= k < s.len() && s[k] == x;
            assert(s.drop_last()[k] == x);
        }
        if s.drop_last().contains(x) {
            let k = choose|k: int| 0 <= k < s.drop_last().len() && s.drop_last()[k] == x;
            assert(s[k] == x);
        }
        if !s.drop_last().contains(s.last()) {
            assert(dedup(s)[dedup(s).len() - 1] == s.last());
            if dedup(s.drop_last()).contains(x) {
                let k = choose|k: int| 0 <= k < dedup(s.drop_last()).len() && dedup(s.drop_last())[k] == x;
                assert(dedup(s)[k] == x);
            }
            if dedup(s).contains(x) && x != s.last() {
                let k = choose|k: int| 0 <= k < dedup(s).len() && dedup(s)[k] == x;
                assert(dedup(s.drop_last())[k] == x);
            }
        }
    }
}

/// Installing a topology twice churns no task: against the tasks that the
/// first install left running, the second stops none and starts none.
pub proof fn lemma_reinstall_no_churn(desired: Seq<MetaView>)
    ensures
        forall|i: int| 0 <= i < dedup(desired).len() ==> !should_stop(dedup(desired), desired, i),
        forall|j: int| 0 <= j < desired.len() ==> !should_start(dedup(desired), desired, j),
{
    assert forall|i: int| 0 <= i < dedup(desired).len() implies !should_stop(dedup(desired), desired, i) by {
        lemma_dedup_contains(desired, dedup(desired)[i]);
    }
    assert forall|j: int| 0 <= j < desired.len() implies !should_start(dedup(desired), desired, j) by {
        lemma_dedup_contains(desired, desired[j]);
    }
}

fn same_meta(a: &MigrationMeta, b: &MigrationMeta) -> (r: bool)
    ensures
        r == (a@ == b@),
{
    a.epoch == b.epoch && a.src_proxy_address == b.src_proxy_address && a.src_node_address
        == b.src_node_address && a.dst_proxy_address == b.dst_proxy_address && a.dst_node_address
        == b.dst_node_address
}

fn copy_meta(m: &MigrationMeta) -> (r: MigrationMeta)
    ensures
        r@ == m@,
{
    MigrationMeta {
        epoch: m.epoch,
        src_proxy_address: m.src_proxy_address.clone(),
        src_node_address: m.src_node_address.clone(),
        dst_proxy_address: m.dst_proxy_address.clone(),
        dst_node_address: m.dst_node_address.clone(),
    }
}

/// Whether `v` holds a meta equal to `m` among its first `n`.
fn holds(v: &Vec<MigrationMeta>, n: usize, m: &MigrationMeta) -> (r: bool)
    requires
        n <= v.len(),
    ensures
        r == meta_views(v@).take(n as int).contains(m@),
{
    let ghost s = meta_views(v@).take(n as int);
    let mut i: usize = 0;
    while i < n
        invariant
            i <= n <= v.len(),
            s == meta_views(v@).take(n as int),
            forall|k: int| 0 <= k < i ==> s[k] != m@,
        decreases n - i,
    {
        if same_meta(&v[i], m) {
            assert(s[i as int] == m@);
            return true;
        }
        i = i + 1;
    }
    false
}

/// The change that a new topology makes to the running tasks.
pub struct TopologyDiff {
    /// For each running task, whether to stop it.
    pub stop: Vec<bool>,
    /// For each migration of the new topology, whether to start a task for it.
    pub start: Vec<bool>,
}

/// The set of migrations that run as tasks, one task per distinct meta.
pub struct MigrationSupervisor {
    pub live: Vec<MigrationMeta>,
}

impl MigrationSupervisor {
    pub fn new() -> (r: Self)
        ensures
            r.live@.len() == 0,
    {
        MigrationSupervisor { live: Vec::new() }
    }

    /// What installing `desired` would stop and start.
    pub fn diff(&self, desired: &Vec<MigrationMeta>) -> (r: TopologyDiff)
        ensures
            r.stop@.len() == self.live@.len(),
            r.start@.len() == desired@.len(),
            forall|i: int| 0 <= i < r.stop@.len() ==> r.stop@[i] == should_stop(
                meta_views(self.live@), meta_views(desired@), i),
            forall|j: int| 0 <= j < r.start@.len() ==> r.start@[j] == should_start(
                meta_views(self.live@), meta_views(desired@), j),
    {
        let ghost lv = meta_views(self.live@);
        let ghost dv = meta_views(desired@);
        let mut stop: Vec<bool> = Vec::new();
        let mut i: usize = 0;
        while i < self.live.len()
            invariant
                i <= self.live.len(),
                lv == meta_views(self.live@),
                dv == meta_views(desired@),
                stop@.len() == i,
                forall|k: int| 0 <= k < i ==> stop@[k] == should_stop(lv, dv, k),
            decreases self.live.len() - i,
        {
            assert(dv.take(desired.len() as int) == dv);
            let found = holds(desired, desired.len(), &self.live[i]);
            stop.push(!found);
            i = i + 1;
        }
        let mut start: Vec<bool> = Vec::new();
        let mut j: usize = 0;
        while j < desired.len()
            invariant
                j <= desired.len(),
                lv == meta_views(self.live@),
                dv == meta_views(desired@),
                start@.len() == j,
                forall|k: int| 0 <= k < j ==> start@[k] == should_start(lv, dv, k),
            decreases desired.len() - j,
        {
            assert(lv.take(self.live.len() as int) == lv);
            let running = holds(&self.live, self.live.len(), &desired[j]);
            let earlier = holds(desired, j, &desired[j]);
            start.push(!running && !earlier);
            j = j + 1;
        }
        TopologyDiff { stop, start }
    }

    /// Installs a topology: returns what to stop and start, and from then on
    /// runs one task for each distinct migration of `desired`.
    pub fn install(&mut self, desired: &Vec<MigrationMeta>) -> (r: TopologyDiff)
        ensures
            r.stop@.len() == old(self).live@.len(),
            r.start@.len() == desired@.len(),
            forall|i: int| 0 <= i < r.stop@.len() ==> r.stop@[i] == should_stop(
                meta_views(old(self).live@), meta_views(desired@), i),
            forall|j: int| 0 <= j < r.start@.len() ==> r.start@[j] == should_start(
                meta_views(old(self).live@), meta_views(desired@), j),
            meta_views(final(self).live@) == dedup(meta_views(desired@)),
    {
        let r = self.diff(desired);
        let ghost dv = meta_views(desired@);
        let mut live: Vec<MigrationMeta> = Vec::new();
        let mut j: usize = 0;
        while j < desired.len()
            invariant
                j <= desired.len(),
                dv == meta_views(desired@),
                meta_views(live@) == dedup(dv.take(j as int)),
            decreases desired.len() - j,
        {
            assert(dv.take(j + 1).drop_last() == dv.take(j as int));
            assert(dv.take(j + 1).last() == dv[j as int]);
            if !holds(desired, j, &desired[j]) {
                let ghost before = live@;
                let m = copy_meta(&desired[j]);
                live.push(m);
                assert(meta_views(live@) =~= meta_views(before).push(m@));
            }
            j = j + 1;
        }
        assert(dv.take(desired.len() as int) == dv);
        self.live = live;
        r
    }
}

} // verus!
