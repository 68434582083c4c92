use vstd::prelude::*;

use crate::text::{chars_of, decimal, lemma_decimal_parses, parse_u64, parse_u64_spec, push_decimal, string_of};

verus! {

/// The version that both ends of a slot switch must run.
pub const SERVER_PROXY_VERSION: &'static str = "0.4.0";

/// The identity of one migration: two tasks refer to the same migration iff
/// their metas are equal.
#[derive(Debug, Clone)]
pub struct MigrationMeta {
    pub epoch: u64,
    pub src_proxy_address: String,
    pub src_node_address: String,
    pub dst_proxy_address: String,
    pub dst_node_address: String,
}

/// A migration meta as plain values, fields in declaration order.
pub type MetaView = (u64, Seq<char>, Seq<char>, Seq<char>, Seq<char>);

impl View for MigrationMeta {
    type V = MetaView;

    open spec fn view(&self) -> MetaView {
        (
            self.epoch,
            self.src_proxy_address@,
            self.src_node_address@,
            self.dst_proxy_address@,
            self.dst_node_address@,
        )
    }
}

/// The views of a vector of strings.
pub open spec fn strings_view(v: Seq<String>) -> Seq<Seq<char>> {
    v.map_values(|s: String| s@)
}

proof fn lemma_strings_view_push(v: Seq<String>, s: String)
    ensures
        strings_view(v.push(s)) == strings_view(v).push(s@),
{
    assert(strings_view(v.push(s)) =~= strings_view(v).push(s@));
}

/// The wire words of a meta: the epoch in decimal, then the four addresses.
pub open spec fn meta_words(m: MetaView) -> Seq<Seq<char>> {
    seq![decimal(m.0 as nat), m.1, m.2, m.3, m.4]
}

/// The meta that five wire words describe.
pub open spec fn meta_of_words(w: Seq<Seq<char>>) -> Option<MetaView> {
    if w.len() == 5 && parse_u64_spec(w[0]) is Some {
        Some((parse_u64_spec(w[0])->0, w[1], w[2], w[3], w[4]))
    } else {
        None
    }
}

/// The decimal numeral of `n` as a string.
pub fn decimal_string(n: u64) -> (r: String)
    ensures
        r@ == decimal(n as nat),
{
    let mut v: Vec<char> = Vec::new();
    push_decimal(n, &mut v);
    assert(v@ == decimal(n as nat));
    string_of(&v)
}

fn parse_string_u64(s: &String) -> (r: Option<u64>)
    ensures
        r == parse_u64_spec(s@),
{
    let c = chars_of(s.as_str());
    parse_u64(&c)
}

impl MigrationMeta {
    /// The wire words of this meta.
    pub fn into_strings(&self) -> (r: Vec<String>)
        ensures
            strings_view(r@) == meta_words(self@),
    {
        let mut r: Vec<String> = Vec::new();
        r.push(decimal_string(self.epoch));
        r.push(self.src_proxy_address.clone());
        r.push(self.src_node_address.clone());
        r.push(self.dst_proxy_address.clone());
        r.push(self.dst_node_address.clone());
        assert(strings_view(r@) =~= meta_words(self@));
        r
    }

    /// Reads a meta back from exactly five wire words.
    pub fn from_strings(words: &Vec<String>) -> (r: Option<MigrationMeta>)
        ensures
            match r {
                Some(m) => meta_of_words(strings_view(words@)) == Some(m@),
                None => meta_of_words(strings_view(words@)) is None,
            },
    {
        if words.len() != 5 {
            return None;
        }
        match parse_string_u64(&words[0]) {
            Some(epoch) => Some(
                MigrationMeta {
                    epoch,
                    src_proxy_address: words[1].clone(),
                    src_node_address: words[2].clone(),
                    dst_proxy_address: words[3].clone(),
                    dst_node_address: words[4].clone(),
                },
            ),
            None => None,
        }
    }
}

/// Reading back the words that a meta is written as gives the same meta.
pub proof fn lemma_meta_round_trip(m: MetaView)
    ensures
        meta_of_words(meta_words(m)) == Some(m),
{
    lemma_decimal_parses(m.0);
}

/// Writing back the meta read from five words gives the same words, where the
/// epoch word is written the way `decimal` writes it (no '+', no leading zeros).
pub proof fn lemma_meta_words_round_trip(w: Seq<Seq<char>>)
    requires
        meta_of_words(w) is Some,
        w[0] == decimal(parse_u64_spec(w[0])->0 as nat),
    ensures
        meta_words(meta_of_words(w)->0) == w,
{
    assert(meta_words(meta_of_words(w)->0) =~= w);
}

/// The argument of `UMCTL TMPSWITCH`: the sender's version and the migration of
/// one slot range of one database.
#[derive(Debug, Clone)]
pub struct SwitchArg {
    pub version: String,
    pub db_name: String,
    pub slot_start: u64,
    pub slot_end: u64,
    pub meta: MigrationMeta,
}

/// A switch argument as plain values.
pub type SwitchView = (Seq<char>, Seq<char>, u64, u64, MetaView);

impl View for SwitchArg {
    type V = SwitchView;

    open spec fn view(&self) -> SwitchView {
        (self.version@, self.db_name@, self.slot_start, self.slot_end, self.meta@)
    }
}

/// The wire words of a switch argument: version, database, first and last slot,
/// then the meta's words.
pub open spec fn switch_words(a: SwitchView) -> Seq<Seq<char>> {
    seq![a.0, a.1, decimal(a.2 as nat), decimal(a.3 as nat)] + meta_words(a.4)
}

/// The switch argument that nine wire words describe.
pub open spec fn switch_of_words(w: Seq<Seq<char>>) -> Option<SwitchView> {
    if w.len() == 9 && parse_u64_spec(w[2]) is Some && parse_u64_spec(w[3]) is Some
        && meta_of_words(w.skip(4)) is Some {
        Some(
            (
                w[0],
                w[1],
                parse_u64_spec(w[2])->0,
                parse_u64_spec(w[3])->0,
                meta_of_words(w.skip(4))->0,
            ),
        )
    } else {
        None
    }
}

impl SwitchArg {
    /// The wire words of this argument.
    pub fn into_strings(&self) -> (r: Vec<String>)
        ensures
            strings_view(r@) == switch_words(self@),
    {
        let mut r: Vec<String> = Vec::new();
        r.push(self.version.clone());
        r.push(self.db_name.clone());
        r.push(decimal_string(self.slot_start));
        r.push(decimal_string(self.slot_end));
        let m = self.meta.into_strings();
        let mut i: usize = 0;
        let ghost head = strings_view(r@);
        while i < m.len()
            invariant
                i <= m.len(),
                strings_view(r@) == head + strings_view(m@).take(i as int),
            decreases m.len() - i,
        {
            let ghost before = r@;
            let w = m[i].clone();
            r.push(w);
            proof { lemma_strings_view_push(before, w); }
            i = i + 1;
            assert(strings_view(r@) =~= head + strings_view(m@).take(i as int));
        }
        assert(strings_view(m@).take(m@.len() as int) == strings_view(m@));
        assert(strings_view(r@) =~= switch_words(self@));
        r
    }

    /// Reads an argument back from exactly nine wire words.
    pub fn from_strings(words: &Vec<String>) -> (r: Option<SwitchArg>)
        ensures
            match r {
                Some(a) => switch_of_words(strings_view(words@)) == Some(a@),
                None => switch_of_words(strings_view(words@)) is None,
            },
    {
        if words.len() != 9 {
            return None;
        }
        let ghost w = strings_view(words@);
        let mut rest: Vec<String> = Vec::new();
        let mut i: usize = 4;
        while i < 9
            invariant
                4 <= i <= 9,
                words.len() == 9,
                w == strings_view(words@),
                strings_view(rest@) == w.subrange(4, i as int),
            decreases 9 - i,
        {
            let ghost before = rest@;
            let x = words[i].clone();
            rest.push(x);
            proof { lemma_strings_view_push(before, x); }
            i = i + 1;
            assert(strings_view(rest@) =~= w.subrange(4, i as int));
        }
        assert(w.subrange(4, 9) == w.skip(4));
        let start = parse_string_u64(&words[2]);
        let end = parse_string_u64(&words[3]);
        let meta = MigrationMeta::from_strings(&rest);
        match (start, end, meta) {
            (Some(slot_start), Some(slot_end), Some(meta)) => Some(
                SwitchArg {
                    version: words[0].clone(),
                    db_name: words[1].clone(),
                    slot_start,
                    slot_end,
                    meta,
                },
            ),
            _ => None,
        }
    }

    /// Whether this argument carries the version that this proxy runs.
    pub fn version_matches(&self) -> (r: bool)
        ensures
            r == (self.version@ == SERVER_PROXY_VERSION@),
    {
        let mine = chars_of(SERVER_PROXY_VERSION);
        let theirs = chars_of(self.version.as_str());
        crate::text::same_chars(&mine, &theirs)
    }
}

/// Reading back the words that a switch argument is written as gives the same
/// argument.
pub proof fn lemma_switch_round_trip(a: SwitchView)
    ensures
        switch_of_words(switch_words(a)) == Some(a),
{
    lemma_decimal_parses(a.2);
    lemma_decimal_parses(a.3);
    lemma_meta_round_trip(a.4);
    assert(switch_words(a).skip(4) =~= meta_words(a.4));
}

} // verus!
