use vstd::prelude::*;
use crate::address::{address_text, parse_address_spec};
use crate::erc::{hex_digit, Address};
use vstd::utf8::encode_utf8;

verus! {

/// The mapping that a sequence of entries stands for.
pub open spec fn map_of(s: Seq<(Address, String)>) -> Map<Seq<u8>, Seq<char>>
    decreases s.len(),
{
    if s.len() == 0 {
        Map::empty()
    } else {
        map_of(s.drop_last()).insert(s.last().0.view(), s.last().1@)
    }
}

/// No address occurs twice among the entries.
pub open spec fn keys_unique(s: Seq<(Address, String)>) -> bool {
    forall|i: int, j: int|
        0 <= i < j < s.len() ==> (#[trigger] s[i]).0.view() != (#[trigger] s[j]).0.view()
}

/// What inserting `v` at `k` leaves: `m` itself when `k` is already present.
pub open spec fn insert_if_absent(m: Map<Seq<u8>, Seq<char>>, k: Seq<u8>, v: Seq<char>) -> Map<
    Seq<u8>,
    Seq<char>,
> {
    if m.contains_key(k) {
        m
    } else {
        m.insert(k, v)
    }
}

pub proof fn lemma_map_of_keys(s: Seq<(Address, String)>, k: Seq<u8>)
    ensures
        map_of(s).contains_key(k) <==> exists|i: int| 0 <= i < s.len() && (#[trigger] s[i]).0.view() == k,
    decreases s.len(),
{
    if s.len() > 0 {
        lemma_map_of_keys(s.drop_last(), k);
        if map_of(s).contains_key(k) && s.last().0.view() != k {
            let i = choose|i: int| 0 <= i < s.drop_last().len() && (#[trigger] s.drop_last()[i]).0.view() == k;
            assert(s[i] == s.drop_last()[i]);
        }
        if exists|i: int| 0 <= i < s.len() && (#[trigger] s[i]).0.view() == k {
            let i = choose|i: int| 0 <= i < s.len() && (#[trigger] s[i]).0.view() == k;
            if i < s.len() - 1 {
                assert(s.drop_last()[i] == s[i]);
            }
        }
    }
}

pub proof fn lemma_map_of_value(s: Seq<(Address, String)>, i: int)
    requires
        keys_unique(s),
        0 <= i < s.len(),
    ensures
        map_of(s).contains_key(s[i].0.view()),
        map_of(s)[s[i].0.view()] == s[i].1@,
    decreases s.len(),
{
    lemma_map_of_keys(s, s[i].0.view());
    if i < s.len() - 1 {
        assert(s.drop_last()[i] == s[i]);
        assert(keys_unique(s.drop_last())) by {
            assert forall|a: int, b: int| 0 <= a < b < s.drop_last().len() implies
                (#[trigger] s.drop_last()[a]).0.view() != (#[trigger] s.drop_last()[b]).0.view() by {
                assert(s.drop_last()[a] == s[a]);
                assert(s.drop_last()[b] == s[b]);
            }
        }
        lemma_map_of_value(s.drop_last(), i);
        assert(s[i].0.view() != s[s.len() - 1].0.view());
    }
}

/// How `serde_json` writes one character inside a string literal: `"` and
/// `\` escaped, the five short escapes, other characters below 0x20 as
/// `\u00` and two lowercase hex digits, everything else as it is.
pub open spec fn json_escape(c: char) -> Seq<char> {
    if c == '"' {
        seq!['\\', '"']
    } else if c == '\\' {
        seq!['\\', '\\']
    } else if c == '\u{8}' {
        seq!['\\', 'b']
    } else if c == '\t' {
        seq!['\\', 't']
    } else if c == '\n' {
        seq!['\\', 'n']
    } else if c == '\u{c}' {
        seq!['\\', 'f']
    } else if c == '\r' {
        seq!['\\', 'r']
    } else if (c as u32) < 0x20 {
        seq!['\\', 'u', '0', '0', hex_digit((c as u32) as int / 16), hex_digit((c as u32) as int % 16)]
    } else {
        seq![c]
    }
}

/// The characters of `s`, each escaped for a JSON string literal.
pub open spec fn json_escaped(s: Seq<char>) -> Seq<char>
    decreases s.len(),
{
    if s.len() == 0 {
        Seq::empty()
    } else {
        json_escaped(s.drop_last()) + json_escape(s.last())
    }
}

/// The JSON string literal that `serde_json` writes for `s`.
pub open spec fn json_quoted(s: Seq<char>) -> Seq<char> {
    seq!['"'] + json_escaped(s) + seq!['"']
}

/// The members of the JSON object written in `text` whose values are all
/// strings, as `serde_json` reads it into an ordered map: ordered by key, each
/// key once; `None` when `text` is no such object.
pub uninterp spec fn json_string_object(text: Seq<char>) -> Option<Seq<(Seq<char>, Seq<char>)>>;

/// Relies on `serde_json::to_string` on a `str`: the JSON string literal for
/// `s`, escaped as `format_escaped_str` and its escape table do. Serializing
/// a string does not fail.
#[verifier::external_body]
fn json_quote(s: &str) -> (r: String)
    ensures
        r@ == json_quoted(s@),
{
    match serde_json::to_string(s) {
        Ok(q) => q,
        Err(_) => String::new(),
    }
}

/// Relies on `serde_json::from_str` into a `BTreeMap<String, String>`: the
/// members of the object written in `text`, in key order.
#[verifier::external_body]
fn json_object_pairs(text: &str) -> (r: Option<Vec<(String, String)>>)
    ensures
        r is None <==> json_string_object(text@) is None,
        r is Some ==> r->0@.map_values(|p: (String, String)| (p.0@, p.1@)) == json_string_object(text@)->0,
{
    let m: std::collections::BTreeMap<String, String> = serde_json::from_str(text).ok()?;
    Some(m.into_iter().collect())
}

/// One member of a stored registry: quoted address text, `:`, quoted payload.
pub open spec fn entry_text(e: (Seq<u8>, Seq<char>)) -> Seq<char> {
    json_quoted(address_text(e.0)) + seq![':'] + json_quoted(e.1)
}

/// The members of a stored registry, separated by commas.
pub open spec fn entries_text(s: Seq<(Seq<u8>, Seq<char>)>) -> Seq<char>
    decreases s.len(),
{
    if s.len() == 0 {
        Seq::empty()
    } else if s.len() == 1 {
        entry_text(s[0])
    } else {
        entries_text(s.drop_last()) + seq![','] + entry_text(s.last())
    }
}

/// The stored form of a registry: a JSON object of its members.
pub open spec fn registry_text(s: Seq<(Seq<u8>, Seq<char>)>) -> Seq<char> {
    seq!['{'] + entries_text(s) + seq!['}']
}

/// The address that a stored key names, if it names one.
pub open spec fn parse_key(k: Seq<char>) -> Option<Seq<u8>> {
    parse_address_spec(encode_utf8(k))
}

/// Every stored key names an address.
pub open spec fn all_keys_parse(ps: Seq<(Seq<char>, Seq<char>)>) -> bool {
    forall|j: int| 0 <= j < ps.len() ==> (#[trigger] parse_key(ps[j].0)) is Some
}

/// The mapping loaded from stored members: each in turn is recorded unless
/// its address already is.
pub open spec fn load_map(ps: Seq<(Seq<char>, Seq<char>)>) -> Map<Seq<u8>, Seq<char>>
    decreases ps.len(),
{
    if ps.len() == 0 {
        Map::empty()
    } else {
        let m = load_map(ps.drop_last());
        match parse_key(ps.last().0) {
            Some(k) => insert_if_absent(m, k, ps.last().1),
            None => m,
        }
    }
}

/// An append-only dedup registry of contracts: each address, once recorded
/// with its payload, keeps that payload for good.
pub struct ContractManager {
    file: String,
    entries: Vec<(Address, String)>,
}

impl ContractManager {
    /// The recorded payloads by address.
    pub closed spec fn view(&self) -> Map<Seq<u8>, Seq<char>> {
        map_of(self.entries@)
    }

    pub closed spec fn wf(&self) -> bool {
        keys_unique(self.entries@)
    }

    /// The entries as (address, payload), in order of insertion.
    pub closed spec fn entry_seq(&self) -> Seq<(Seq<u8>, Seq<char>)> {
        self.entries@.map_values(|e: (Address, String)| (e.0.view(), e.1@))
    }

    /// Where the registry is kept.
    pub closed spec fn path(&self) -> Seq<char> {
        self.file@
    }

    /// An empty registry kept at `file`.
    pub fn new(file: &str) -> (r: ContractManager)
        ensures
            r.wf(),
            r.view() == Map::<Seq<u8>, Seq<char>>::empty(),
            r.path() == file@,
    {
        ContractManager { file: file.to_owned(), entries: Vec::new() }
    }

    /// Where the registry is kept.
    pub fn file(&self) -> (r: &str)
        ensures
            r@ == self.path(),
    {
        self.file.as_str()
    }

    /// Position of `addr` among the entries, if recorded.
    fn find(&self, addr: &Address) -> (r: Option<usize>)
        requires
            self.wf(),
        ensures
            r is None <==> !self.view().contains_key(addr.view()),
            r is Some ==> r->0 < self.entries@.len() && self.entries@[r->0 as int].0.view() == addr.view(),
    {
        let mut i: usize = 0;
        while i < self.entries.len()
            invariant
                0 <= i <= self.entries@.len(),
                forall|j: int| 0 <= j < i ==> (#[trigger] self.entries@[j]).0.view() != addr.view(),
            decreases self.entries@.len() - i,
        {
            if self.entries[i].0.same(addr) {
                proof {
                    lemma_map_of_keys(self.entries@, addr.view());
                }
                return Some(i);
            }
            i = i + 1;
        }
        proof {
            lemma_map_of_keys(self.entries@, addr.view());
        }
        None
    }

    /// Whether `addr` has been recorded.
    pub fn contains(&self, addr: &Address) -> (r: bool)
        requires
            self.wf(),
        ensures
            r == self.view().contains_key(addr.view()),
    {
        self.find(addr).is_some()
    }

    /// The payload recorded for `addr`, if any.
    pub fn lookup(&self, addr: &Address) -> (r: Option<String>)
        requires
            self.wf(),
        ensures
            r is None <==> !self.view().contains_key(addr.view()),
            r is Some ==> r->0@ == self.view()[addr.view()],
    {
        match self.find(addr) {
            None => None,
            Some(i) => {
                proof {
                    lemma_map_of_value(self.entries@, i as int);
                }
                Some(self.entries[i].1.clone())
            },
        }
    }

    /// Records `data` for `addr` when `addr` is absent and returns `true`;
    /// returns `false` and changes nothing when it is already present.
    pub fn add(&mut self, addr: &Address, data: &str) -> (r: bool)
        requires
            old(self).wf(),
        ensures
            final(self).wf(),
            final(self).path() == old(self).path(),
            r == !old(self).view().contains_key(addr.view()),
            final(self).view() == insert_if_absent(old(self).view(), addr.view(), data@),
            final(self).entry_seq() == if r {
                old(self).entry_seq().push((addr.view(), data@))
            } else {
                old(self).entry_seq()
            },
    {
        if self.find(addr).is_some() {
            return false;
        }
        let ghost before = self.entries@;
        self.entries.push((addr.copy(), data.to_owned()));
        proof {
            assert(self.entry_seq() =~= old(self).entry_seq().push((addr.view(), data@)));
            assert(self.entries@.drop_last() =~= before);
            lemma_map_of_keys(before, addr.view());
            assert forall|i: int, j: int| 0 <= i < j < self.entries@.len() implies
                (#[trigger] self.entries@[i]).0.view() != (#[trigger] self.entries@[j]).0.view() by {
                if j == self.entries@.len() - 1 {
                    assert(before[i] == self.entries@[i]);
                } else {
                    assert(before[i] == self.entries@[i]);
                    assert(before[j] == self.entries@[j]);
                }
            }
        }
        true
    }

    /// The registry as a JSON object from address text to payload, in order
    /// of insertion.
    pub fn to_json(&self) -> (r: String)
        ensures
            r@ == registry_text(self.entry_seq()),
    {
        proof { reveal_strlit("{"); reveal_strlit(","); reveal_strlit(":"); reveal_strlit("}"); }
        let mut text = "{".to_owned();
        let mut i: usize = 0;
        while i < self.entries.len()
            invariant
                0 <= i <= self.entries@.len(),
                text@ == seq!['{'] + entries_text(self.entry_seq().subrange(0, i as int)),
            decreases self.entries@.len() - i,
        {
            proof { reveal_strlit(","); reveal_strlit(":"); }
            let ghost prefix = self.entry_seq().subrange(0, i as int);
            assert(self.entry_seq()[i as int] == (self.entries@[i as int].0.view(), self.entries@[i as int].1@));
            if i > 0 {
                text = text.concat(",");
            }
            let ghost start = text@;
            let hex = self.entries[i].0.to_hex();
            let key = json_quote(hex.as_str());
            let value = json_quote(self.entries[i].1.as_str());
            text = text.concat(key.as_str());
            text = text.concat(":");
            text = text.concat(value.as_str());
            assert(text@ =~= start + entry_text(self.entry_seq()[i as int]));
            proof {
                let next = self.entry_seq().subrange(0, i + 1);
                assert(next.drop_last() =~= prefix);
                assert(next.last() == self.entry_seq()[i as int]);
                if i == 0 {
                    assert(prefix =~= Seq::<(Seq<u8>, Seq<char>)>::empty());
                    assert(entries_text(next) == entry_text(next[0]));
                    assert(text@ =~= seq!['{'] + entries_text(next));
                } else {
                    assert(entries_text(next) == entries_text(prefix) + seq![','] + entry_text(next.last()));
                    assert(text@ =~= seq!['{'] + entries_text(next));
                }
            }
            i = i + 1;
        }
        proof {
            assert(self.entry_seq().subrange(0, self.entries@.len() as int) =~= self.entry_seq());
        }
        text.concat("}")
    }

    /// A registry kept at `file`, loaded from the JSON text stored there: the
    /// flag is `false`, and the registry empty, when the text is no JSON
    /// object from address text to string.
    /// Members are taken in key order; where two keys name one address
    /// (the same digits in another case, or with and without `0x`), the
    /// first in that order is kept.
    pub fn from_json(file: &str, text: &str) -> (r: (ContractManager, bool))
        ensures
            r.0.wf(),
            r.0.path() == file@,
            r.1 == (json_string_object(text@) is Some && all_keys_parse(json_string_object(text@)->0)),
            r.1 ==> r.0.view() == load_map(json_string_object(text@)->0),
            !r.1 ==> r.0.view() == Map::<Seq<u8>, Seq<char>>::empty(),
    {
        let pairs = match json_object_pairs(text) {
            Some(p) => p,
            None => return (ContractManager::new(file), false),
        };
        let ghost ps = json_string_object(text@)->0;
        let mut manager = ContractManager::new(file);
        let mut i: usize = 0;
        while i < pairs.len()
            invariant
                0 <= i <= pairs@.len(),
                ps == pairs@.map_values(|p: (String, String)| (p.0@, p.1@)),
                ps == json_string_object(text@)->0,
                manager.wf(),
                manager.path() == file@,
                manager.view() == load_map(ps.subrange(0, i as int)),
                forall|j: int| 0 <= j < i ==> (#[trigger] parse_key(ps[j].0)) is Some,
            decreases pairs@.len() - i,
        {
            assert(ps[i as int] == (pairs@[i as int].0@, pairs@[i as int].1@));
            let addr = match Address::parse(pairs[i].0.as_str()) {
                Some(a) => a,
                None => {
                    assert(parse_key(ps[i as int].0) is None);
                    assert(!all_keys_parse(ps));
                    return (ContractManager::new(file), false);
                },
            };
            manager.add(&addr, pairs[i].1.as_str());
            proof {
                assert(ps.subrange(0, i + 1).drop_last() =~= ps.subrange(0, i as int));
            }
            i = i + 1;
        }
        proof {
            assert(ps.subrange(0, pairs@.len() as int) =~= ps);
        }
        (manager, true)
    }

    /// A registry kept at `file` from what is stored there: empty when nothing
    /// is stored yet or what is stored cannot be read.
    pub fn get(file: &str, stored: Option<&str>) -> (r: ContractManager)
        ensures
            r.wf(),
            r.path() == file@,
            stored is None ==> r.view() == Map::<Seq<u8>, Seq<char>>::empty(),
            stored is Some ==> r.view() == (if json_string_object(stored->0@) is Some
                && all_keys_parse(json_string_object(stored->0@)->0) {
                load_map(json_string_object(stored->0@)->0)
            } else {
                Map::<Seq<u8>, Seq<char>>::empty()
            }),
    {
        match stored {
            None => ContractManager::new(file),
            Some(text) => ContractManager::from_json(file, text).0,
        }
    }
}

/// Inserting at an address that is already recorded never changes the
/// recorded payload, whatever payload is offered.
pub proof fn lemma_add_present_keeps_payload(m: Map<Seq<u8>, Seq<char>>, k: Seq<u8>, v: Seq<char>)
    requires
        m.contains_key(k),
    ensures
        insert_if_absent(m, k, v) == m,
        insert_if_absent(m, k, v)[k] == m[k],
{
}

/// Once recorded, an address stays recorded with the same payload through
/// any further insertion.
pub proof fn lemma_add_preserves_entries(
    m: Map<Seq<u8>, Seq<char>>,
    k: Seq<u8>,
    v: Seq<char>,
    other: Seq<u8>,
)
    requires
        m.contains_key(other),
    ensures
        insert_if_absent(m, k, v).contains_key(other),
        insert_if_absent(m, k, v)[other] == m[other],
{
}

} // verus!
