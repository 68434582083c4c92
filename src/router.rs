use vstd::prelude::*;

verus! {

/// The number of slots that the key space is cut into.
pub const SLOT_COUNT: usize = 16384;

/// What the XMODEM CRC-16 of a byte string is.
pub uninterp spec fn crc16_xmodem(msg: Seq<u8>) -> u16;

/// Relies on crc16's `State::<XMODEM>::calculate`: the XMODEM CRC-16 of the
/// bytes, which depends on them alone.
#[verifier::external_body]
fn crc16_of(msg: &[u8]) -> (r: u16)
    ensures
        r == crc16_xmodem(msg@),
{
    crc16::State::<crc16::XMODEM>::calculate(msg)
}

/// The index of the first `b` in `key` at or after `from`, or the length of
/// `key` if there is none.
pub open spec fn first_index(key: Seq<u8>, b: u8, from: int) -> int
    decreases key.len() - from,
{
    if from >= key.len() {
        key.len() as int
    } else if key[from] == b {
        from
    } else {
        first_index(key, b, from + 1)
    }
}

/// The part of a key that decides its slot: what stands between its first '{'
/// and the first '}' after it, if that is not empty, and else the whole key.
pub open spec fn hash_part(key: Seq<u8>) -> Seq<u8> {
    let s = first_index(key, 123u8, 0);
    let e = first_index(key, 125u8, s + 1);
    if s < key.len() && e < key.len() && e > s + 1 {
        key.subrange(s + 1, e)
    } else {
        key
    }
}

/// The slot of a key.
pub open spec fn slot_of(key: Seq<u8>) -> int {
    crc16_xmodem(hash_part(key)) as int % SLOT_COUNT as int
}

fn find_byte(key: &[u8], b: u8, from: usize) -> (r: usize)
    requires
        from <= key@.len(),
    ensures
        r == first_index(key@, b, from as int),
        from <= r <= key@.len(),
{
    let mut i = from;
    while i < key.len()
        invariant
            from <= i <= key@.len(),
            first_index(key@, b, from as int) == first_index(key@, b, i as int),
        decreases key.len() - i,
    {
        if key[i] == b {
            return i;
        }
        i = i + 1;
    }
    i
}

/// The bounds of the part of `key` that decides its slot.
pub fn hash_part_bounds(key: &[u8]) -> (r: (usize, usize))
    ensures
        r.0 <= r.1 <= key@.len(),
        key@.subrange(r.0 as int, r.1 as int) == hash_part(key@),
{
    let s = find_byte(key, 123u8, 0);
    if s < key.len() {
        let e = find_byte(key, 125u8, s + 1);
        if e < key.len() && e > s + 1 {
            return (s + 1, e);
        }
    }
    assert(key@.subrange(0, key@.len() as int) == key@);
    (0, key.len())
}

/// A copy of the bytes of `key` from `lo` up to `hi`.
fn copy_range(key: &[u8], lo: usize, hi: usize) -> (r: Vec<u8>)
    requires
        lo <= hi <= key@.len(),
    ensures
        r@ == key@.subrange(lo as int, hi as int),
{
    let mut r: Vec<u8> = Vec::new();
    let mut i = lo;
    while i < hi
        invariant
            lo <= i <= hi <= key@.len(),
            r@ == key@.subrange(lo as int, i as int),
        decreases hi - i,
    {
        r.push(key[i]);
        i = i + 1;
        assert(r@ == key@.subrange(lo as int, i as int));
    }
    r
}

/// The slot of a key: the CRC-16 of its hash part, modulo the slot count.
pub fn key_slot(key: &[u8]) -> (r: usize)
    ensures
        r == slot_of(key@),
        r < SLOT_COUNT,
{
    let (lo, hi) = hash_part_bounds(key);
    let part = copy_range(key, lo, hi);
    let crc = crc16_of(part.as_slice());
    (crc as usize) % SLOT_COUNT
}

/// How a range of slots is held by this proxy.
#[derive(Debug, Clone, Copy, PartialEq, Eq, Structural)]
pub enum RangeKind {
    /// Served by the shard that owns it.
    Stable,
    /// Being moved out to another shard.
    Migrating,
    /// Being moved in from another shard.
    Importing,
}

/// A range of slots, both ends inclusive, and how it is held.
#[derive(Debug, Clone, Copy, PartialEq, Eq, Structural)]
pub struct SlotRange {
    pub start: usize,
    pub end: usize,
    pub kind: RangeKind,
}

/// The precedence of range kinds where ranges overlap: an importing range
/// wins, since the destination accepts before the source releases.
pub open spec fn precedence(k: RangeKind) -> int {
    match k {
        RangeKind::Stable => 0,
        RangeKind::Migrating => 1,
        RangeKind::Importing => 2,
    }
}

fn precedence_of(k: RangeKind) -> (r: u8)
    ensures
        r == precedence(k),
{
    match k {
        RangeKind::Stable => 0,
        RangeKind::Migrating => 1,
        RangeKind::Importing => 2,
    }
}

pub open spec fn covers(r: SlotRange, slot: int) -> bool {
    r.start <= slot <= r.end
}

/// The range among the first `n` that governs `slot`: of those that cover it,
/// one of highest precedence, the first such.
pub open spec fn governing(ranges: Seq<SlotRange>, slot: int, n: int) -> Option<int>
    decreases n,
{
    if n <= 0 {
        None
    } else {
        let prev = governing(ranges, slot, n - 1);
        if !covers(ranges[n - 1], slot) {
            prev
        } else {
            match prev {
                None => Some(n - 1),
                Some(i) => if precedence(ranges[n - 1].kind) > precedence(ranges[i].kind) {
                    Some(n - 1)
                } else {
                    Some(i)
                },
            }
        }
    }
}

proof fn lemma_governing_in_range(ranges: Seq<SlotRange>, slot: int, n: int)
    requires
        0 <= n,
    ensures
        governing(ranges, slot, n) matches Some(i) ==> 0 <= i < n,
    decreases n,
{
    if n > 0 {
        lemma_governing_in_range(ranges, slot, n - 1);
    }
}

/// Where a command for a slot goes.
#[derive(Debug, Clone, Copy, PartialEq, Eq, Structural)]
pub enum RouteDecision {
    /// The range at this index of the topology governs the slot.
    Covered { range: usize, kind: RangeKind },
    SlotNotCovered,
}

/// The decision for a slot under a topology.
pub open spec fn decision(ranges: Seq<SlotRange>, slot: int) -> RouteDecision {
    match governing(ranges, slot, ranges.len() as int) {
        Some(i) => RouteDecision::Covered { range: i as usize, kind: ranges[i].kind },
        None => RouteDecision::SlotNotCovered,
    }
}

fn govern(ranges: &Vec<SlotRange>, slot: usize) -> (r: Option<usize>)
    ensures
        r matches Some(i) ==> governing(ranges@, slot as int, ranges@.len() as int) == Some(i as int),
        r is None ==> governing(ranges@, slot as int, ranges@.len() as int) is None,
{
    let mut cur: Option<usize> = None;
    let mut n: usize = 0;
    while n < ranges.len()
        invariant
            n <= ranges@.len(),
            cur matches Some(i) ==> governing(ranges@, slot as int, n as int) == Some(i as int) && i < n,
            cur is None ==> governing(ranges@, slot as int, n as int) is None,
        decreases ranges.len() - n,
    {
        let r = ranges[n];
        if r.start <= slot && slot <= r.end {
            cur = match cur {
                None => Some(n),
                Some(i) => if precedence_of(r.kind) > precedence_of(ranges[i].kind) {
                    Some(n)
                } else {
                    Some(i)
                },
            };
        }
        n = n + 1;
    }
    cur
}

/// The slot table of one topology: for every slot, the range that governs it.
/// It is built whole and never changed, so every reader of one table sees the
/// same topology.
pub struct SlotTable {
    pub epoch: u64,
    pub ranges: Vec<SlotRange>,
    pub table: Vec<RouteDecision>,
}

impl SlotTable {
    /// Every slot's entry is the decision that the ranges give for it.
    pub open spec fn wf(&self) -> bool {
        &&& self.table@.len() == SLOT_COUNT
        &&& forall|s: int| 0 <= s < SLOT_COUNT ==> #[trigger] self.table@[s] == decision(self.ranges@, s)
    }

    /// Builds the table of a topology.
    pub fn install_topology(epoch: u64, ranges: Vec<SlotRange>) -> (r: SlotTable)
        ensures
            r.wf(),
            r.epoch == epoch,
            r.ranges@ == ranges@,
    {
        let mut table: Vec<RouteDecision> = Vec::new();
        let mut s: usize = 0;
        while s < SLOT_COUNT
            invariant
                s <= SLOT_COUNT,
                table@.len() == s,
                forall|k: int| 0 <= k < s ==> #[trigger] table@[k] == decision(ranges@, k),
            decreases SLOT_COUNT - s,
        {
            let d = match govern(&ranges, s) {
                Some(i) => {
                    proof { lemma_governing_in_range(ranges@, s as int, ranges@.len() as int); }
                    RouteDecision::Covered { range: i, kind: ranges[i].kind }
                },
                None => RouteDecision::SlotNotCovered,
            };
            table.push(d);
            s = s + 1;
        }
        SlotTable { epoch, ranges, table }
    }

    /// The decision for a slot.
    pub fn route_slot(&self, slot: usize) -> (r: RouteDecision)
        requires
            self.wf(),
            slot < SLOT_COUNT,
        ensures
            r == decision(self.ranges@, slot as int),
    {
        self.table[slot]
    }

    /// The decision for a key: that of its slot.
    pub fn route(&self, key: &[u8]) -> (r: RouteDecision)
        requires
            self.wf(),
        ensures
            r == decision(self.ranges@, slot_of(key@)),
    {
        self.route_slot(key_slot(key))
    }
}

/// Where an importing range and a migrating range of one topology both cover a
/// slot, no migrating range governs it: an importing one does.
pub proof fn lemma_importing_wins(ranges: Seq<SlotRange>, slot: int, i: int)
    requires
        0 <= i < ranges.len(),
        covers(ranges[i], slot),
        ranges[i].kind == RangeKind::Importing,
    ensures
        decision(ranges, slot) matches RouteDecision::Covered { kind, .. } && kind
            == RangeKind::Importing,
{
    lemma_importing_wins_prefix(ranges, slot, i, ranges.len() as int);
    lemma_governing_in_range(ranges, slot, ranges.len() as int);
}

proof fn lemma_importing_wins_prefix(ranges: Seq<SlotRange>, slot: int, i: int, n: int)
    requires
        0 <= i < n <= ranges.len(),
        covers(ranges[i], slot),
        ranges[i].kind == RangeKind::Importing,
    ensures
        governing(ranges, slot, n) matches Some(j) && ranges[j].kind == RangeKind::Importing,
    decreases n,
{
    lemma_governing_in_range(ranges, slot, n - 1);
    if i < n - 1 {
        lemma_importing_wins_prefix(ranges, slot, i, n - 1);
    }
}

} // verus!
