use vstd::prelude::*;

use crate::text::{
    chars_of, has_prefix, parse_u64, parse_u64_spec, same_chars, split_char,
    split_crlf, split_lines, split_on, string_of, views,
};

verus! {

/// One replica row of the `INFO REPLICATION` text of a back-end.
#[derive(Debug)]
pub struct ReplicaState {
    pub ip: String,
    pub port: u64,
    pub state: String,
    pub offset: u64,
    pub lag: u64,
}

/// A replica row as plain values: ip, port, state, offset, lag.
pub type ReplicaView = (Seq<char>, u64, Seq<char>, u64, u64);

impl View for ReplicaState {
    type V = ReplicaView;

    open spec fn view(&self) -> ReplicaView {
        (self.ip@, self.port, self.state@, self.offset, self.lag)
    }
}

/// The key of a `k=v` segment: what stands before the first '='.
pub open spec fn kv_key(seg: Seq<char>) -> Seq<char> {
    split_on(seg, '=')[0]
}

/// The value of a `k=v` segment: what stands between the first '=' and the next.
pub open spec fn kv_value(seg: Seq<char>) -> Seq<char> {
    split_on(seg, '=')[1]
}

/// Whether a segment holds an '='.
pub open spec fn has_kv(seg: Seq<char>) -> bool {
    split_on(seg, '=').len() >= 2
}

/// The value of the last segment whose key is `key`: a later pair replaces an
/// earlier one with the same key.
pub open spec fn lookup(segs: Seq<Seq<char>>, key: Seq<char>) -> Option<Seq<char>>
    decreases segs.len(),
{
    if segs.len() == 0 {
        None
    } else if kv_key(segs.last()) == key {
        Some(kv_value(segs.last()))
    } else {
        lookup(segs.drop_last(), key)
    }
}

pub open spec fn key_ip() -> Seq<char> {
    seq!['i', 'p']
}

pub open spec fn key_port() -> Seq<char> {
    seq!['p', 'o', 'r', 't']
}

pub open spec fn key_state() -> Seq<char> {
    seq!['s', 't', 'a', 't', 'e']
}

pub open spec fn key_offset() -> Seq<char> {
    seq!['o', 'f', 'f', 's', 'e', 't']
}

pub open spec fn key_lag() -> Seq<char> {
    seq!['l', 'a', 'g']
}

/// A numeric field: present and a decimal numeral.
pub open spec fn number_field(segs: Seq<Seq<char>>, key: Seq<char>) -> Option<u64> {
    match lookup(segs, key) {
        Some(v) => parse_u64_spec(v),
        None => None,
    }
}

/// The replica that a comma-separated list of `k=v` pairs describes, if every
/// segment is a pair and the five fields are there, the numeric ones as numerals.
pub open spec fn replica_spec(s: Seq<char>) -> Option<ReplicaView> {
    let segs = split_on(s, ',');
    if (forall|i: int| 0 <= i < segs.len() ==> has_kv(#[trigger] segs[i]))
        && lookup(segs, key_ip()) is Some && number_field(segs, key_port()) is Some
        && lookup(segs, key_state()) is Some && number_field(segs, key_offset()) is Some
        && number_field(segs, key_lag()) is Some {
        Some(
            (
                lookup(segs, key_ip())->0,
                number_field(segs, key_port())->0,
                lookup(segs, key_state())->0,
                number_field(segs, key_offset())->0,
                number_field(segs, key_lag())->0,
            ),
        )
    } else {
        None
    }
}

/// Whether a line of the replication text is a replica row.
pub open spec fn is_replica_line(line: Seq<char>) -> bool {
    line.len() >= 5 && line.take(5) == seq!['s', 'l', 'a', 'v', 'e']
}

/// A value without its trailing carriage return, if it has one.
pub open spec fn strip_cr(v: Seq<char>) -> Seq<char> {
    if v.len() > 0 && v.last() == '\r' {
        v.drop_last()
    } else {
        v
    }
}

/// The replica of a replica row: its value after the first ':' up to the next,
/// without a trailing carriage return.
pub open spec fn replica_of_line(line: Seq<char>) -> Option<ReplicaView> {
    let parts = split_on(line, ':');
    if parts.len() >= 2 {
        replica_spec(strip_cr(parts[1]))
    } else {
        None
    }
}

/// The replicas of a sequence of lines, in order, if every replica row parses.
pub open spec fn replicas_of_lines(lines: Seq<Seq<char>>) -> Option<Seq<ReplicaView>>
    decreases lines.len(),
{
    if lines.len() == 0 {
        Some(Seq::<ReplicaView>::empty())
    } else {
        let prev = replicas_of_lines(lines.drop_last());
        if !is_replica_line(lines.last()) {
            prev
        } else {
            match (prev, replica_of_line(lines.last())) {
                (Some(p), Some(r)) => Some(p.push(r)),
                _ => None,
            }
        }
    }
}

/// The replicas that an `INFO REPLICATION` reply lists.
pub open spec fn replicas_spec(info: Seq<char>) -> Option<Seq<ReplicaView>> {
    replicas_of_lines(split_crlf(info))
}

/// The views of a vector of replica states.
pub open spec fn replica_views(v: Seq<ReplicaState>) -> Seq<ReplicaView> {
    v.map_values(|r: ReplicaState| r@)
}

/// A copy of a character vector.
fn copy_chars(v: &Vec<char>) -> (r: Vec<char>)
    ensures
        r@ == v@,
{
    let mut r: Vec<char> = Vec::new();
    let mut i: usize = 0;
    while i < v.len()
        invariant
            i <= v.len(),
            r@ == v@.take(i as int),
        decreases v.len() - i,
    {
        r.push(v[i]);
        i = i + 1;
        assert(r@ == v@.take(i as int));
    }
    assert(v@.take(v@.len() as int) == v@);
    r
}

/// Finds the value of `key` among the pairs whose keys and values stand in
/// `keys` and `vals`, as `lookup` does on the segments.
fn find_value(
    keys: &Vec<Vec<char>>,
    vals: &Vec<Vec<char>>,
    key: &Vec<char>,
    Ghost(segs): Ghost<Seq<Seq<char>>>,
) -> (r: Option<usize>)
    requires
        keys.len() == segs.len(),
        vals.len() == segs.len(),
        forall|j: int|
            0 <= j < segs.len() ==> keys@[j]@ == kv_key(#[trigger] segs[j]) && vals@[j]@
                == kv_value(segs[j]),
    ensures
        match r {
            Some(j) => j < vals.len() && lookup(segs, key@) == Some(vals@[j as int]@),
            None => lookup(segs, key@) is None,
        },
{
    let mut i: usize = keys.len();
    assert(segs.take(i as int) == segs);
    while i > 0
        invariant
            i <= keys.len(),
            keys.len() == segs.len(),
            vals.len() == segs.len(),
            forall|j: int|
                0 <= j < segs.len() ==> keys@[j]@ == kv_key(#[trigger] segs[j]) && vals@[j]@
                    == kv_value(segs[j]),
            lookup(segs, key@) == lookup(segs.take(i as int), key@),
        decreases i,
    {
        assert(segs.take(i as int).drop_last() == segs.take(i - 1));
        assert(segs.take(i as int).last() == segs[i - 1]);
        if same_chars(&keys[i - 1], key) {
            return Some(i - 1);
        }
        i = i - 1;
    }
    None
}

fn field_text(
    keys: &Vec<Vec<char>>,
    vals: &Vec<Vec<char>>,
    key: &str,
    Ghost(segs): Ghost<Seq<Seq<char>>>,
) -> (r: Option<Vec<char>>)
    requires
        keys.len() == segs.len(),
        vals.len() == segs.len(),
        forall|j: int|
            0 <= j < segs.len() ==> keys@[j]@ == kv_key(#[trigger] segs[j]) && vals@[j]@
                == kv_value(segs[j]),
    ensures
        match r {
            Some(v) => lookup(segs, key@) == Some(v@),
            None => lookup(segs, key@) is None,
        },
{
    let k = chars_of(key);
    match find_value(keys, vals, &k, Ghost(segs)) {
        Some(j) => Some(copy_chars(&vals[j])),
        None => None,
    }
}

fn field_number(
    keys: &Vec<Vec<char>>,
    vals: &Vec<Vec<char>>,
    key: &str,
    Ghost(segs): Ghost<Seq<Seq<char>>>,
) -> (r: Option<u64>)
    requires
        keys.len() == segs.len(),
        vals.len() == segs.len(),
        forall|j: int|
            0 <= j < segs.len() ==> keys@[j]@ == kv_key(#[trigger] segs[j]) && vals@[j]@
                == kv_value(segs[j]),
    ensures
        r == number_field(segs, key@),
{
    let k = chars_of(key);
    match find_value(keys, vals, &k, Ghost(segs)) {
        Some(j) => parse_u64(&vals[j]),
        None => None,
    }
}

impl ReplicaState {
    /// Reads a replica from its `k=v` pairs separated by ','.
    pub fn parse_replica_meta(value: String) -> (r: Result<ReplicaState, ()>)
        ensures
            match r {
                Ok(st) => replica_spec(value@) == Some(st@),
                Err(()) => replica_spec(value@) is None,
            },
    {
        let chars = chars_of(value.as_str());
        Self::parse_chars(&chars)
    }

    fn parse_chars(chars: &Vec<char>) -> (r: Result<ReplicaState, ()>)
        ensures
            match r {
                Ok(st) => replica_spec(chars@) == Some(st@),
                Err(()) => replica_spec(chars@) is None,
            },
    {
        let segs = split_char(chars, ',');
        let ghost sv = split_on(chars@, ',');
        assert(segs@.len() == sv.len());
        let mut keys: Vec<Vec<char>> = Vec::new();
        let mut vals: Vec<Vec<char>> = Vec::new();
        let mut i: usize = 0;
        while i < segs.len()
            invariant
                i <= segs.len(),
                views(segs@) == sv,
                sv == split_on(chars@, ','),
                segs@.len() == sv.len(),
                keys.len() == i,
                vals.len() == i,
                forall|j: int|
                    0 <= j < i ==> keys@[j]@ == kv_key(#[trigger] sv[j]) && vals@[j]@ == kv_value(
                        sv[j],
                    ) && has_kv(sv[j]),
            decreases segs.len() - i,
        {
            assert(segs@[i as int]@ == sv[i as int]);
            let kv = split_char(&segs[i], '=');
            assert(views(kv@) == split_on(sv[i as int], '='));
            if kv.len() < 2 {
                assert(!has_kv(sv[i as int]));
                assert(!(forall|j: int| 0 <= j < sv.len() ==> has_kv(#[trigger] sv[j])));
                assert(replica_spec(chars@) is None);
                return Err(());
            }
            assert(kv@[0]@ == kv_key(sv[i as int]));
            assert(kv@[1]@ == kv_value(sv[i as int]));
            keys.push(copy_chars(&kv[0]));
            vals.push(copy_chars(&kv[1]));
            i = i + 1;
        }
        assert(forall|j: int| 0 <= j < sv.len() ==> has_kv(#[trigger] sv[j]));
        let ip = field_text(&keys, &vals, "ip", Ghost(sv));
        let port = field_number(&keys, &vals, "port", Ghost(sv));
        let state = field_text(&keys, &vals, "state", Ghost(sv));
        let offset = field_number(&keys, &vals, "offset", Ghost(sv));
        let lag = field_number(&keys, &vals, "lag", Ghost(sv));
        proof {
            reveal_strlit("ip");
            reveal_strlit("port");
            reveal_strlit("state");
            reveal_strlit("offset");
            reveal_strlit("lag");
            assert("ip"@ == key_ip());
            assert("port"@ == key_port());
            assert("state"@ == key_state());
            assert("offset"@ == key_offset());
            assert("lag"@ == key_lag());
        }
        match (ip, port, state, offset, lag) {
            (Some(ip), Some(port), Some(state), Some(offset), Some(lag)) => {
                Ok(ReplicaState { ip: string_of(&ip), port, state: string_of(&state), offset, lag })
            },
            _ => Err(()),
        }
    }
}

proof fn lemma_failure_persists(lines: Seq<Seq<char>>, k: int)
    requires
        0 <= k <= lines.len(),
        replicas_of_lines(lines.take(k)) is None,
    ensures
        replicas_of_lines(lines) is None,
    decreases lines.len() - k,
{
    if k < lines.len() {
        assert(lines.take(k + 1).drop_last() == lines.take(k));
        lemma_failure_persists(lines, k + 1);
    } else {
        assert(lines.take(k) == lines);
    }
}

/// Reads the replica rows out of an `INFO REPLICATION` reply: of its lines
/// (separated by "\r\n"), those that begin with "slave", each read from its
/// value after ':' without a trailing '\r'. A row that does not parse makes
/// the whole reply fail.
pub fn extract_replicas_from_replication_info(info: String) -> (r: Result<Vec<ReplicaState>, ()>)
    ensures
        match r {
            Ok(v) => replicas_spec(info@) == Some(replica_views(v@)),
            Err(()) => replicas_spec(info@) is None,
        },
{
    let chars = chars_of(info.as_str());
    let lines = split_lines(&chars);
    let ghost lv = split_crlf(chars@);
    let prefix = chars_of("slave");
    proof {
        reveal_strlit("slave");
        assert(prefix@ == seq!['s', 'l', 'a', 'v', 'e']);
    }
    let mut states: Vec<ReplicaState> = Vec::new();
    let mut i: usize = 0;
    assert(lv.take(0) == Seq::<Seq<char>>::empty());
    assert(replica_views(states@) == Seq::<ReplicaView>::empty());
    while i < lines.len()
        invariant
            i <= lines.len(),
            views(lines@) == lv,
            lv == split_crlf(chars@),
            chars@ == info@,
            lines@.len() == lv.len(),
            prefix@ == seq!['s', 'l', 'a', 'v', 'e'],
            replicas_of_lines(lv.take(i as int)) == Some(replica_views(states@)),
        decreases lines.len() - i,
    {
        let line = &lines[i];
        let ghost l = lv[i as int];
        assert(line@ == l);
        assert(lv.take(i + 1).drop_last() == lv.take(i as int));
        assert(lv.take(i + 1).last() == l);
        if has_prefix(line, &prefix) {
            assert(is_replica_line(l));
            let parts = split_char(line, ':');
            assert(views(parts@) == split_on(l, ':'));
            if parts.len() < 2 {
                assert(replica_of_line(l) is None);
                assert(replicas_of_lines(lv.take(i + 1)) is None);
                proof { lemma_failure_persists(lv, i + 1); }
                return Err(());
            }
            let mut value = copy_chars(&parts[1]);
            assert(value@ == split_on(l, ':')[1]);
            if value.len() > 0 && value[value.len() - 1] == '\r' {
                value.pop();
            }
            assert(value@ == strip_cr(split_on(l, ':')[1]));
            match ReplicaState::parse_chars(&value) {
                Ok(st) => {
                    let ghost before = states@;
                    states.push(st);
                    assert(replica_views(states@) == replica_views(before).push(st@));
                },
                Err(()) => {
                    proof { lemma_failure_persists(lv, i + 1); }
                    return Err(());
                },
            }
        } else {
            assert(!is_replica_line(l));
        }
        i = i + 1;
    }
    assert(lv.take(lv.len() as int) == lv);
    Ok(states)
}

} // verus!
