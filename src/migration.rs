use vstd::prelude::*;
use vstd::utf8::{decode_utf8, valid_utf8};

use crate::meta::{
    strings_view, switch_words, MigrationMeta, SwitchArg, SwitchView,
};
use crate::protocol::Resp;
use crate::replication::{
    extract_replicas_from_replication_info, replica_views, replicas_spec, ReplicaState,
    ReplicaView,
};
use crate::text::{chars_of, decimal, push_decimal, same_chars};

verus! {

/// The phases of a migration, in their total order.
#[derive(Debug, Clone, Copy, PartialEq, Eq, Structural)]
pub enum MigrationState {
    TransferringData,
    PreSwitch,
    SwitchStarted,
    SwitchCommitted,
}

impl MigrationState {
    /// The position of a phase in the order of phases.
    pub open spec fn rank(self) -> nat {
        match self {
            MigrationState::TransferringData => 0,
            MigrationState::PreSwitch => 1,
            MigrationState::SwitchStarted => 2,
            MigrationState::SwitchCommitted => 3,
        }
    }

    pub fn order(&self) -> (r: u8)
        ensures
            r == self.rank(),
    {
        match self {
            MigrationState::TransferringData => 0,
            MigrationState::PreSwitch => 1,
            MigrationState::SwitchStarted => 2,
            MigrationState::SwitchCommitted => 3,
        }
    }
}

/// The later of two phases: what a phase cell holds after being asked to move
/// from `cur` to `req`.
pub open spec fn later(cur: MigrationState, req: MigrationState) -> MigrationState {
    if req.rank() > cur.rank() {
        req
    } else {
        cur
    }
}

/// The phase of a migration task. It only moves forward: a request to go back
/// leaves it where it is.
#[derive(Debug)]
pub struct AtomicMigrationState {
    state: MigrationState,
}

impl View for AtomicMigrationState {
    type V = MigrationState;

    closed spec fn view(&self) -> MigrationState {
        self.state
    }
}

impl AtomicMigrationState {
    pub fn new() -> (r: Self)
        ensures
            r@ == MigrationState::TransferringData,
    {
        AtomicMigrationState { state: MigrationState::TransferringData }
    }

    pub fn get_state(&self) -> (r: MigrationState)
        ensures
            r == self@,
    {
        self.state
    }

    /// Moves to `state` if it comes later than the current phase.
    pub fn set_state(&mut self, state: MigrationState)
        ensures
            final(self)@ == later(old(self)@, state),
    {
        if state.order() > self.state.order() {
            self.state = state;
        }
    }
}

/// The phase after a sequence of requests, starting from `start`.
pub open spec fn replay(start: MigrationState, reqs: Seq<MigrationState>) -> MigrationState
    decreases reqs.len(),
{
    if reqs.len() == 0 {
        start
    } else {
        later(replay(start, reqs.drop_last()), reqs.last())
    }
}

/// Phases never go back: after any sequence of requests, the phase seen after
/// the first `i` requests is no later than the one seen after the first `j`.
pub proof fn lemma_state_monotone(start: MigrationState, reqs: Seq<MigrationState>, i: int, j: int)
    requires
        0 <= i <= j <= reqs.len(),
    ensures
        replay(start, reqs.take(i)).rank() <= replay(start, reqs.take(j)).rank(),
    decreases j - i,
{
    if i < j {
        lemma_state_monotone(start, reqs, i, j - 1);
        assert(reqs.take(j).drop_last() == reqs.take(j - 1));
    }
}

/// Errors of a migration task.
#[derive(Debug, Clone, Copy, PartialEq, Eq, Structural)]
pub enum MigrationError {
    AlreadyStarted,
    AlreadyEnded,
    Canceled,
    IncompatibleVersion,
    RedisError,
    Io,
}

/// The timing of a migration, times in milliseconds.
#[derive(Debug, Clone, Copy)]
pub struct MigrationConfig {
    pub lag_threshold: u64,
    pub min_blocking_time: u64,
    pub max_blocking_time: u64,
    pub max_redirection_time: u64,
}

impl MigrationConfig {
    pub fn get_lag_threshold(&self) -> (r: u64)
        ensures
            r == self.lag_threshold,
    {
        self.lag_threshold
    }

    pub fn get_min_blocking_time(&self) -> (r: u64)
        ensures
            r == self.min_blocking_time,
    {
        self.min_blocking_time
    }

    pub fn get_max_blocking_time(&self) -> (r: u64)
        ensures
            r == self.max_blocking_time,
    {
        self.max_blocking_time
    }

    pub fn get_max_redirection_time(&self) -> (r: u64)
        ensures
            r == self.max_redirection_time,
    {
        self.max_redirection_time
    }
}

/// Whether a lag is small enough: below the threshold, or exactly zero when
/// the threshold is zero.
pub open spec fn lag_ok(lag: u64, lag_threshold: u64) -> bool {
    if lag_threshold == 0 {
        lag == 0
    } else {
        lag < lag_threshold
    }
}

/// Whether a replica is the node `addr` ("ip:port") and has caught up.
pub open spec fn replica_matches(r: ReplicaView, addr: Seq<char>, lag_threshold: u64) -> bool {
    addr == r.0 + seq![':'] + decimal(r.1 as nat) && lag_ok(r.4, lag_threshold)
}

/// Whether some replica is the node `addr` and has caught up.
pub open spec fn replicas_ready(v: Seq<ReplicaView>, addr: Seq<char>, lag_threshold: u64) -> bool {
    exists|i: int| 0 <= i < v.len() && replica_matches(#[trigger] v[i], addr, lag_threshold)
}

/// Whether a reply to `INFO REPLICATION` shows the destination node caught up.
pub open spec fn replication_reply_ready(reply: Resp, addr: Seq<char>, lag_threshold: u64) -> bool {
    match reply {
        Resp::Bulk(Some(data)) => valid_utf8(data@) && match replicas_spec(decode_utf8(data@)) {
            Some(v) => replicas_ready(v, addr, lag_threshold),
            None => false,
        },
        _ => false,
    }
}

/// With a threshold of zero, the replication check ends exactly when the
/// destination's row shows a lag of zero.
pub proof fn lemma_zero_threshold_needs_zero_lag(r: ReplicaView, addr: Seq<char>)
    ensures
        replica_matches(r, addr, 0) <==> (addr == r.0 + seq![':'] + decimal(r.1 as nat) && r.4
            == 0),
{
}

/// Relies on `str::from_utf8`: it accepts exactly the valid UTF-8 byte strings,
/// and the text it gives holds the characters that the bytes encode.
#[verifier::external_body]
fn utf8_text(b: &[u8]) -> (r: Option<String>)
    ensures
        r is Some <==> valid_utf8(b@),
        r matches Some(s) ==> s@ == decode_utf8(b@),
{
    match std::str::from_utf8(b) {
        Ok(s) => Some(s.to_string()),
        Err(_) => None,
    }
}

/// Whether a replica row names `addr` ("ip:port") with a lag that `lag_ok` accepts.
fn replica_is(st: &ReplicaState, addr: &Vec<char>, lag_threshold: u64) -> (r: bool)
    ensures
        r == replica_matches(st@, addr@, lag_threshold),
{
    let mut name = chars_of(st.ip.as_str());
    name.push(':');
    assert(name@ =~= st.ip@ + seq![':']);
    push_decimal(st.port, &mut name);
    assert(name@ == st.ip@ + seq![':'] + decimal(st.port as nat));
    let lag_fine = if lag_threshold == 0 {
        st.lag == 0
    } else {
        st.lag < lag_threshold
    };
    same_chars(&name, addr) && lag_fine
}

/// The commands that a migrating task hands on.
pub enum MigratingSend<T> {
    /// The task does not serve the slot (yet, or any more): the caller routes it.
    SlotNotFound(T),
    /// Forward these, in this order, to the destination proxy.
    Forward(Vec<T>),
    /// Held in the waiting queue until the switch is committed.
    Queued,
}

/// What the releasing phase does next.
#[derive(Debug, Clone, Copy, PartialEq, Eq, Structural)]
pub enum ReleaseStep {
    /// Sleep `delay` milliseconds, then step again with `lasting` as the time spent.
    Sleep { delay: u64, lasting: u64 },
    /// Sleep `delay` milliseconds, then drain the waiting queue.
    Drain { delay: u64 },
}

/// How long to wait between two looks at the phase once the first wait is
/// over: the minimum blocking time, but at least 1 ms so that time moves on,
/// and at most 5 ms.
pub open spec fn poll_delay(min_blocking_time: u64) -> u64 {
    if min_blocking_time < 1 {
        1
    } else if min_blocking_time < 5 {
        min_blocking_time
    } else {
        5
    }
}

pub open spec fn sat_add(a: u64, b: u64) -> u64 {
    if a + b > u64::MAX {
        u64::MAX
    } else {
        (a + b) as u64
    }
}

/// The source side of one slot-range migration: its phase, its waiting queue
/// and its flags. The async driver around it sleeps, talks to the destination
/// and forwards what it is told to.
pub struct RedisMigratingTask<T> {
    pub config: MigrationConfig,
    pub db_name: String,
    pub slot_range: (u64, u64),
    pub meta: MigrationMeta,
    pub state: AtomicMigrationState,
    pub redirection_stopped: bool,
    pub blocking: bool,
    pub queue: Vec<T>,
    pub stop_signal: bool,
}

impl<T> RedisMigratingTask<T> {
    /// The queue holds commands only while the task blocks and has left the
    /// first phase; once it stops blocking the switch is committed and the queue
    /// stays empty.
    pub open spec fn wf(&self) -> bool {
        &&& (!self.blocking ==> self.queue@.len() == 0 && self.state@
            == MigrationState::SwitchCommitted)
        &&& (self.state@ == MigrationState::TransferringData ==> self.queue@.len() == 0)
    }

    /// Whether `self` is the same migration as `other`: same timing, database,
    /// slots and meta.
    pub open spec fn keeps_identity(&self, other: &Self) -> bool {
        &&& self.config == other.config
        &&& self.db_name == other.db_name
        &&& self.slot_range == other.slot_range
        &&& self.meta == other.meta
    }

    /// The `TMPSWITCH` argument of this migration, with the given version.
    pub open spec fn switch_view(&self, version: Seq<char>) -> SwitchView {
        (version, self.db_name@, self.slot_range.0, self.slot_range.1, self.meta@)
    }

    pub fn new(config: MigrationConfig, db_name: String, slot_range: (u64, u64), meta: MigrationMeta) -> (r: Self)
        ensures
            r.wf(),
            r.config == config,
            r.db_name == db_name,
            r.slot_range == slot_range,
            r.meta == meta,
            r.state@ == MigrationState::TransferringData,
            !r.redirection_stopped,
            r.blocking,
            r.queue@.len() == 0,
            !r.stop_signal,
    {
        RedisMigratingTask {
            config,
            db_name,
            slot_range,
            meta,
            state: AtomicMigrationState::new(),
            redirection_stopped: false,
            blocking: true,
            queue: Vec::new(),
            stop_signal: false,
        }
    }

    pub fn get_state(&self) -> (r: MigrationState)
        ensures
            r == self.state@,
    {
        self.state.get_state()
    }

    /// Arms the stop signal; a task runs once per arming.
    pub fn start(&mut self) -> (r: Result<(), MigrationError>)
        ensures
            final(self).stop_signal,
            final(self).keeps_identity(old(self)),
            r is Ok <==> !old(self).stop_signal,
            r is Err ==> r == Err::<(), MigrationError>(MigrationError::AlreadyStarted),
            final(self).state == old(self).state,
            final(self).queue == old(self).queue,
            final(self).blocking == old(self).blocking,
    {
        if self.stop_signal {
            Err(MigrationError::AlreadyStarted)
        } else {
            self.stop_signal = true;
            Ok(())
        }
    }

    /// Takes the stop signal; it can be taken once per start.
    pub fn stop(&mut self) -> (r: Result<(), MigrationError>)
        ensures
            !final(self).stop_signal,
            final(self).keeps_identity(old(self)),
            r is Ok <==> old(self).stop_signal,
            r is Err ==> r == Err::<(), MigrationError>(MigrationError::AlreadyEnded),
            final(self).state == old(self).state,
            final(self).queue == old(self).queue,
            final(self).blocking == old(self).blocking,
    {
        if self.stop_signal {
            self.stop_signal = false;
            Ok(())
        } else {
            Err(MigrationError::AlreadyEnded)
        }
    }

    /// Whether a replica row list shows the destination node caught up.
    pub fn replica_state_ready(states: &Vec<ReplicaState>, meta: &MigrationMeta, lag_threshold: u64) -> (r: bool)
        ensures
            r == replicas_ready(replica_views(states@), meta.dst_node_address@, lag_threshold),
    {
        let addr = chars_of(meta.dst_node_address.as_str());
        let ghost v = replica_views(states@);
        let mut i: usize = 0;
        while i < states.len()
            invariant
                i <= states.len(),
                v == replica_views(states@),
                addr@ == meta.dst_node_address@,
                forall|j: int| 0 <= j < i ==> !replica_matches(#[trigger] v[j], addr@, lag_threshold),
            decreases states.len() - i,
        {
            if replica_is(&states[i], &addr, lag_threshold) {
                assert(replica_matches(v[i as int], addr@, lag_threshold));
                return true;
            }
            i = i + 1;
        }
        false
    }

    /// Whether a reply to `INFO REPLICATION` from the destination proxy shows
    /// the destination node caught up. A reply that is not a bulk string, is not
    /// UTF-8 or does not parse counts as not ready, and the poll goes on.
    pub fn check_replication_reply(&self, reply: &Resp) -> (r: bool)
        ensures
            r == replication_reply_ready(*reply, self.meta.dst_node_address@, self.config.lag_threshold),
    {
        match reply {
            Resp::Bulk(Some(data)) => {
                match utf8_text(data.as_slice()) {
                    Some(info) => {
                        match extract_replicas_from_replication_info(info) {
                            Ok(states) => Self::replica_state_ready(&states, &self.meta, self.config.lag_threshold),
                            Err(()) => false,
                        }
                    },
                    None => false,
                }
            },
            _ => false,
        }
    }

    /// The destination has caught up: the task moves to the phase before the switch.
    pub fn replication_done(&mut self)
        requires
            old(self).wf(),
        ensures
            final(self).wf(),
            final(self).keeps_identity(old(self)),
            final(self).state@ == later(old(self).state@, MigrationState::PreSwitch),
            final(self).queue == old(self).queue,
            final(self).blocking == old(self).blocking,
            final(self).redirection_stopped == old(self).redirection_stopped,
            final(self).stop_signal == old(self).stop_signal,
    {
        self.state.set_state(MigrationState::PreSwitch);
    }

    /// Starts the switch: the phase moves to `SwitchStarted` and the result is
    /// the command to send to the destination proxy, `UMCTL TMPSWITCH` followed
    /// by the words of the switch argument.
    pub fn switch_command(&mut self) -> (r: Vec<String>)
        requires
            old(self).wf(),
        ensures
            final(self).wf(),
            final(self).keeps_identity(old(self)),
            final(self).state@ == later(old(self).state@, MigrationState::SwitchStarted),
            final(self).queue == old(self).queue,
            final(self).blocking == old(self).blocking,
            final(self).redirection_stopped == old(self).redirection_stopped,
            final(self).stop_signal == old(self).stop_signal,
            final(self).meta == old(self).meta,
            final(self).db_name == old(self).db_name,
            final(self).slot_range == old(self).slot_range,
            strings_view(r@) == seq![umctl(), tmpswitch()] + switch_words(
                old(self).switch_view(crate::meta::SERVER_PROXY_VERSION@),
            ),
    {
        self.state.set_state(MigrationState::SwitchStarted);
        let arg = SwitchArg {
            version: crate::meta::SERVER_PROXY_VERSION.to_owned(),
            db_name: self.db_name.clone(),
            slot_start: self.slot_range.0,
            slot_end: self.slot_range.1,
            meta: self.meta_copy(),
        };
        let words = arg.into_strings();
        let mut cmd: Vec<String> = Vec::new();
        let a = "UMCTL".to_owned();
        let b = "TMPSWITCH".to_owned();
        proof {
            reveal_strlit("UMCTL");
            reveal_strlit("TMPSWITCH");
            assert(a@ =~= umctl());
            assert(b@ =~= tmpswitch());
        }
        cmd.push(a);
        cmd.push(b);
        let ghost head = strings_view(cmd@);
        assert(head =~= seq![umctl(), tmpswitch()]);
        let mut i: usize = 0;
        while i < words.len()
            invariant
                i <= words.len(),
                strings_view(cmd@) == head + strings_view(words@).take(i as int),
            decreases words.len() - i,
        {
            let ghost before = cmd@;
            let w = words[i].clone();
            cmd.push(w);
            assert(strings_view(cmd@) =~= strings_view(before).push(w@));
            i = i + 1;
            assert(strings_view(cmd@) =~= head + strings_view(words@).take(i as int));
        }
        assert(strings_view(words@).take(words@.len() as int) == strings_view(words@));
        cmd
    }

    fn meta_copy(&self) -> (r: MigrationMeta)
        ensures
            r@ == self.meta@,
    {
        MigrationMeta {
            epoch: self.meta.epoch,
            src_proxy_address: self.meta.src_proxy_address.clone(),
            src_node_address: self.meta.src_node_address.clone(),
            dst_proxy_address: self.meta.dst_proxy_address.clone(),
            dst_node_address: self.meta.dst_node_address.clone(),
        }
    }

    /// Handles the destination's reply to `TMPSWITCH`: an error reply leaves
    /// everything as it is and the switch is sent again; any other reply
    /// commits the switch. The result says whether the switch is committed.
    pub fn handle_switch_reply(&mut self, reply: &Resp) -> (r: bool)
        requires
            old(self).wf(),
        ensures
            final(self).wf(),
            final(self).keeps_identity(old(self)),
            r == !(reply is Error),
            final(self).state@ == if r {
                MigrationState::SwitchCommitted
            } else {
                old(self).state@
            },
            final(self).queue == old(self).queue,
            final(self).blocking == old(self).blocking,
            final(self).redirection_stopped == old(self).redirection_stopped,
            final(self).stop_signal == old(self).stop_signal,
    {
        match reply {
            Resp::Error(_) => false,
            _ => {
                self.state.set_state(MigrationState::SwitchCommitted);
                true
            },
        }
    }

    /// One step of the releasing phase, `lasting_time` milliseconds after it
    /// began. At zero the task waits `min_blocking_time`. Later, past
    /// `max_blocking_time` the switch is forced to committed; once it is
    /// after `poll_delay` (1 to 5 ms), so the time spent always grows.
    /// after a short delay.
    pub fn release_queue_step(&mut self, lasting_time: u64) -> (r: ReleaseStep)
        requires
            old(self).wf(),
        ensures
            final(self).wf(),
            final(self).keeps_identity(old(self)),
            final(self).queue == old(self).queue,
            final(self).blocking == old(self).blocking,
            final(self).redirection_stopped == old(self).redirection_stopped,
            final(self).stop_signal == old(self).stop_signal,
            r matches ReleaseStep::Sleep { lasting, .. } ==> (lasting > lasting_time || lasting_time
                == u64::MAX),
            lasting_time == 0 ==> final(self).state@ == old(self).state@ && r == (ReleaseStep::Sleep {
                delay: old(self).config.min_blocking_time,
                lasting: sat_add(old(self).config.min_blocking_time, 1),
            }),
            lasting_time > 0 && lasting_time > old(self).config.max_blocking_time ==> final(self).state@ == MigrationState::SwitchCommitted && r == (ReleaseStep::Drain { delay: 0 }),
            lasting_time > 0 && lasting_time <= old(self).config.max_blocking_time ==> final(self).state@ == old(self).state@ && r == if old(self).state@
                == MigrationState::SwitchCommitted {
                ReleaseStep::Drain { delay: poll_delay(old(self).config.min_blocking_time) }
            } else {
                ReleaseStep::Sleep {
                    delay: poll_delay(old(self).config.min_blocking_time),
                    lasting: sat_add(lasting_time, poll_delay(old(self).config.min_blocking_time)),
                }
            },
    {
        let min_blocking_time = self.config.min_blocking_time;
        if lasting_time == 0 {
            // One more than the wait, so that the next step sees a non-zero time.
            return ReleaseStep::Sleep { delay: min_blocking_time, lasting: min_blocking_time.saturating_add(1) };
        }
        let delay = if lasting_time > self.config.max_blocking_time {
            self.state.set_state(MigrationState::SwitchCommitted);
            0
        } else if min_blocking_time < 1 {
            1
        } else if min_blocking_time < 5 {
            min_blocking_time
        } else {
            5
        };
        if self.state.get_state() != MigrationState::SwitchCommitted {
            ReleaseStep::Sleep { delay, lasting: lasting_time.saturating_add(delay) }
        } else {
            ReleaseStep::Drain { delay }
        }
    }

    /// Stops blocking and hands out every queued command, oldest first. Once
    /// drained the queue stays empty: later commands are forwarded at once.
    pub fn drain_waiting_queue(&mut self) -> (r: Vec<T>)
        requires
            old(self).wf(),
            old(self).state@ == MigrationState::SwitchCommitted,
        ensures
            final(self).wf(),
            final(self).keeps_identity(old(self)),
            r@ == old(self).queue@,
            !old(self).blocking ==> r@.len() == 0,
            final(self).queue@.len() == 0,
            !final(self).blocking,
            final(self).state == old(self).state,
            final(self).redirection_stopped == old(self).redirection_stopped,
            final(self).stop_signal == old(self).stop_signal,
    {
        self.blocking = false;
        let mut out: Vec<T> = Vec::new();
        core::mem::swap(&mut out, &mut self.queue);
        out
    }

    /// After `max_redirection_time` the task stops serving the slots.
    pub fn stop_redirection(&mut self)
        requires
            old(self).wf(),
        ensures
            final(self).wf(),
            final(self).keeps_identity(old(self)),
            final(self).redirection_stopped,
            final(self).state == old(self).state,
            final(self).queue == old(self).queue,
            final(self).blocking == old(self).blocking,
            final(self).stop_signal == old(self).stop_signal,
    {
        self.redirection_stopped = true;
    }

    /// Takes a command for the migrating slots. Before the switch starts, or
    /// once redirection stopped, the task does not serve it. While it blocks
    /// and the switch is not committed, the command waits in the queue. Once
    /// committed, the queue is drained first and the command follows it.
    pub fn send(&mut self, cmd_task: T) -> (r: MigratingSend<T>)
        requires
            old(self).wf(),
        ensures
            final(self).wf(),
            final(self).keeps_identity(old(self)),
            final(self).state == old(self).state,
            final(self).redirection_stopped == old(self).redirection_stopped,
            final(self).stop_signal == old(self).stop_signal,
            !old(self).blocking ==> !(r is Queued) && final(self).queue@.len() == 0,
            (old(self).state@ == MigrationState::TransferringData || old(self).redirection_stopped)
                ==> r == MigratingSend::SlotNotFound(cmd_task) && final(self).queue == old(self).queue
                && final(self).blocking == old(self).blocking,
            (old(self).state@ != MigrationState::TransferringData && !old(self).redirection_stopped
                && old(self).blocking && old(self).state@ != MigrationState::SwitchCommitted)
                ==> r is Queued && final(self).queue@ == old(self).queue@.push(cmd_task)
                && final(self).blocking,
            (!old(self).redirection_stopped && old(self).state@ == MigrationState::SwitchCommitted)
                ==> (r matches MigratingSend::Forward(v) && v@ == old(self).queue@.push(cmd_task))
                && final(self).queue@.len() == 0 && !final(self).blocking,
    {
        let st = self.state.get_state();
        if st == MigrationState::TransferringData || self.redirection_stopped {
            return MigratingSend::SlotNotFound(cmd_task);
        }
        if self.blocking && st != MigrationState::SwitchCommitted {
            self.queue.push(cmd_task);
            return MigratingSend::Queued;
        }
        let mut out = self.drain_waiting_queue();
        out.push(cmd_task);
        MigratingSend::Forward(out)
    }
}

/// The first word of an administrative command.
pub open spec fn umctl() -> Seq<char> {
    seq!['U', 'M', 'C', 'T', 'L']
}

/// The administrative subcommand that commits a switch.
pub open spec fn tmpswitch() -> Seq<char> {
    seq!['T', 'M', 'P', 'S', 'W', 'I', 'T', 'C', 'H']
}

/// The commands that an importing task hands on.
pub enum ImportingSend<T> {
    /// The switch is committed: the caller serves the slot itself.
    SlotNotFound(T),
    /// Send it back to the source proxy, which still owns the slots.
    Redirect(T),
}

/// The phase of the destination after it receives a switch argument with the
/// given version.
pub open spec fn after_commit(cur: MigrationState, version: Seq<char>) -> MigrationState {
    if version == crate::meta::SERVER_PROXY_VERSION@ {
        later(cur, MigrationState::SwitchCommitted)
    } else {
        cur
    }
}

/// Receiving the same switch twice leaves the destination where the first one
/// put it.
pub proof fn lemma_commit_idempotent(cur: MigrationState, version: Seq<char>)
    ensures
        after_commit(after_commit(cur, version), version) == after_commit(cur, version),
{
}

/// The destination side of one slot-range migration.
pub struct RedisImportingTask {
    pub config: MigrationConfig,
    pub meta: MigrationMeta,
    pub state: AtomicMigrationState,
    pub stop_signal: bool,
}

impl RedisImportingTask {
    pub fn new(config: MigrationConfig, meta: MigrationMeta) -> (r: Self)
        ensures
            r.config == config,
            r.meta == meta,
            r.state@ == MigrationState::TransferringData,
            !r.stop_signal,
    {
        RedisImportingTask { config, meta, state: AtomicMigrationState::new(), stop_signal: false }
    }

    pub fn get_state(&self) -> (r: MigrationState)
        ensures
            r == self.state@,
    {
        self.state.get_state()
    }

    /// Arms the stop signal; a task runs once per arming.
    pub fn start(&mut self) -> (r: Result<(), MigrationError>)
        ensures
            final(self).stop_signal,
            r is Ok <==> !old(self).stop_signal,
            r is Err ==> r == Err::<(), MigrationError>(MigrationError::AlreadyStarted),
            final(self).state == old(self).state,
    {
        if self.stop_signal {
            Err(MigrationError::AlreadyStarted)
        } else {
            self.stop_signal = true;
            Ok(())
        }
    }

    /// Takes the stop signal; it can be taken once per start.
    pub fn stop(&mut self) -> (r: Result<(), MigrationError>)
        ensures
            !final(self).stop_signal,
            r is Ok <==> old(self).stop_signal,
            r is Err ==> r == Err::<(), MigrationError>(MigrationError::AlreadyEnded),
            final(self).state == old(self).state,
    {
        if self.stop_signal {
            self.stop_signal = false;
            Ok(())
        } else {
            Err(MigrationError::AlreadyEnded)
        }
    }

    /// The switch never came within `max_blocking_time`: the slots are released
    /// to this side all the same.
    pub fn release_importing_for_timeout(&mut self)
        ensures
            final(self).state@ == MigrationState::SwitchCommitted,
            final(self).stop_signal == old(self).stop_signal,
    {
        self.state.set_state(MigrationState::SwitchCommitted);
    }

    /// Until the switch is committed, commands for the importing slots go back
    /// to the source proxy; after it, this side serves them.
    pub fn send<T>(&self, cmd_task: T) -> (r: ImportingSend<T>)
        ensures
            self.state@ == MigrationState::SwitchCommitted ==> r == ImportingSend::SlotNotFound(cmd_task),
            self.state@ != MigrationState::SwitchCommitted ==> r == ImportingSend::Redirect(cmd_task),
    {
        if self.state.get_state() == MigrationState::SwitchCommitted {
            ImportingSend::SlotNotFound(cmd_task)
        } else {
            ImportingSend::Redirect(cmd_task)
        }
    }

    /// Accepts the switch if its version is this proxy's.
    pub fn commit(&mut self, switch_arg: &SwitchArg) -> (r: Result<(), MigrationError>)
        ensures
            r is Ok <==> switch_arg.version@ == crate::meta::SERVER_PROXY_VERSION@,
            r is Err ==> r == Err::<(), MigrationError>(MigrationError::IncompatibleVersion),
            final(self).state@ == after_commit(old(self).state@, switch_arg.version@),
            final(self).stop_signal == old(self).stop_signal,
    {
        if !switch_arg.version_matches() {
            Err(MigrationError::IncompatibleVersion)
        } else {
            self.state.set_state(MigrationState::SwitchCommitted);
            Ok(())
        }
    }
}

} // verus!
