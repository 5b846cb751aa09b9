//! The attribute-map representation used to store and transmit a profile
//! record: string keys mapped to string, boolean or nested-map values.
//!
//! Maps are kept as entry lists; a later entry with the same key shadows an
//! earlier one, so lookups search from the end, matching the overwrite
//! semantics of the keyed store the maps travel to and from.

use vstd::prelude::*;

verus! {

/// A stored attribute value: a string, a boolean, or a nested attribute map.
#[derive(Debug)]
pub enum AttrVal {
    S(String),
    B(bool),
    M(AttrMap),
}

/// The wire/storage shape of a record: string keys to attribute values.
#[derive(Debug)]
pub struct AttrMap {
    pub entries: Vec<(String, AttrVal)>,
}

/// A plain string-to-string map, as identity attributes and client metadata
/// arrive on a lifecycle event.
#[derive(Debug, Clone, PartialEq)]
pub struct StrMap {
    pub entries: Vec<(String, String)>,
}

impl View for AttrMap {
    type V = Seq<(String, AttrVal)>;

    open spec fn view(&self) -> Seq<(String, AttrVal)> {
        self.entries@
    }
}

impl View for StrMap {
    type V = Seq<(String, String)>;

    open spec fn view(&self) -> Seq<(String, String)> {
        self.entries@
    }
}

/// Value of the last entry with key `k`, if any.
pub open spec fn assoc_get<V>(s: Seq<(String, V)>, k: Seq<char>) -> Option<V>
    decreases s.len(),
{
    if s.len() == 0 {
        None
    } else if s.last().0@ == k {
        Some(s.last().1)
    } else {
        assoc_get(s.drop_last(), k)
    }
}

/// Appending an entry shadows exactly the key it carries.
pub broadcast proof fn lemma_assoc_get_push<V>(s: Seq<(String, V)>, k0: String, v: V, k: Seq<char>)
    ensures
        #[trigger] assoc_get(s.push((k0, v)), k) == if k0@ == k {
            Some(v)
        } else {
            assoc_get(s, k)
        },
{
    let s2 = s.push((k0, v));
    assert(s2.last() == (k0, v));
    if k0@ != k {
        assert(s2.drop_last() =~= s);
    }
}

/// String-typed attribute at key `k`: present only if the entry is there and
/// holds a string.
pub open spec fn str_field(m: AttrMap, k: Seq<char>) -> Option<Seq<char>> {
    match assoc_get(m@, k) {
        Some(AttrVal::S(s)) => Some(s@),
        _ => None,
    }
}

/// Boolean-typed attribute at key `k`.
pub open spec fn bool_field(m: AttrMap, k: Seq<char>) -> Option<bool> {
    match assoc_get(m@, k) {
        Some(AttrVal::B(b)) => Some(b),
        _ => None,
    }
}

/// Nested-map attribute at key `k`.
pub open spec fn map_field(m: AttrMap, k: Seq<char>) -> Option<AttrMap> {
    match assoc_get(m@, k) {
        Some(AttrVal::M(mm)) => Some(mm),
        _ => None,
    }
}

/// String equality decided by content.
pub fn str_eq(a: &str, b: &str) -> (r: bool)
    ensures
        r == (a@ == b@),
{
    let sa = a.to_owned();
    let sb = b.to_owned();
    sa == sb
}

/// Last-match lookup in an entry list.
pub fn assoc_lookup<'a, V>(entries: &'a Vec<(String, V)>, k: &str) -> (r: Option<&'a V>)
    ensures
        match r {
            Some(v) => assoc_get(entries@, k@) == Some(*v),
            None => assoc_get(entries@, k@) is None,
        },
{
    let mut i: usize = entries.len();
    assert(entries@.take(i as int) =~= entries@);
    while i > 0
        invariant
            i <= entries.len(),
            assoc_get(entries@, k@) == assoc_get(entries@.take(i as int), k@),
        decreases i,
    {
        i = i - 1;
        let pair = &entries[i];
        proof {
            assert(entries@.take(i + 1).last() == entries@[i as int]);
        }
        if str_eq(pair.0.as_str(), k) {
            return Some(&pair.1);
        }
        proof {
            assert(entries@.take(i + 1).drop_last() =~= entries@.take(i as int));
        }
    }
    None
}

impl AttrMap {
    pub fn new() -> (m: AttrMap)
        ensures
            m@ == Seq::<(String, AttrVal)>::empty(),
    {
        AttrMap { entries: Vec::new() }
    }

    pub fn push(&mut self, k: String, v: AttrVal)
        ensures
            final(self)@ == old(self)@.push((k, v)),
    {
        self.entries.push((k, v));
    }

    pub fn get(&self, k: &str) -> (r: Option<&AttrVal>)
        ensures
            match r {
                Some(v) => assoc_get(self@, k@) == Some(*v),
                None => assoc_get(self@, k@) is None,
            },
    {
        assoc_lookup(&self.entries, k)
    }

    /// The string at key `k`, if the entry is there and holds a string.
    pub fn get_s(&self, k: &str) -> (r: Option<&String>)
        ensures
            match r {
                Some(s) => str_field(*self, k@) == Some(s@),
                None => str_field(*self, k@) is None,
            },
    {
        match self.get(k) {
            Some(AttrVal::S(s)) => Some(s),
            _ => None,
        }
    }

    /// The boolean at key `k`, if the entry is there and holds a boolean.
    pub fn get_b(&self, k: &str) -> (r: Option<bool>)
        ensures
            match r {
                Some(b) => bool_field(*self, k@) == Some(b),
                None => bool_field(*self, k@) is None,
            },
    {
        match self.get(k) {
            Some(AttrVal::B(b)) => Some(*b),
            _ => None,
        }
    }

    /// The nested map at key `k`, if the entry is there and holds a map.
    pub fn get_m(&self, k: &str) -> (r: Option<&AttrMap>)
        ensures
            match r {
                Some(mm) => map_field(*self, k@) == Some(*mm),
                None => map_field(*self, k@) is None,
            },
    {
        match self.get(k) {
            Some(AttrVal::M(mm)) => Some(mm),
            _ => None,
        }
    }
}

impl AttrVal {
    /// The nested map, if this value holds one.
    pub fn as_m(&self) -> (r: Option<&AttrMap>)
        ensures
            r is Some <==> self is M,
            r matches Some(m) ==> *self == AttrVal::M(*m),
    {
        match self {
            AttrVal::M(m) => Some(m),
            _ => None,
        }
    }
}

impl StrMap {
    pub fn new() -> (m: StrMap)
        ensures
            m@ == Seq::<(String, String)>::empty(),
    {
        StrMap { entries: Vec::new() }
    }

    pub fn push(&mut self, k: String, v: String)
        ensures
            final(self)@ == old(self)@.push((k, v)),
    {
        self.entries.push((k, v));
    }

    pub fn get(&self, k: &str) -> (r: Option<&String>)
        ensures
            match r {
                Some(v) => assoc_get(self@, k@) == Some(*v),
                None => assoc_get(self@, k@) is None,
            },
    {
        assoc_lookup(&self.entries, k)
    }
}

} // verus!
