//! Map-typed configuration artifacts.
//!
//! Commands, expandable layers and per-app expansion rules are
//! key/value tables layered over three tiers.  A [`ConfigMap`] keeps
//! the declarations in the order the tiers contributed them; its
//! mathematical view is the finite map in which a later declaration of
//! a key wins, so layering a tier is simply appending its entries.

use vstd::prelude::*;

verus! {

/// The map denoted by an entry list: later entries win.
pub open spec fn assoc_map<V>(s: Seq<(String, V)>) -> Map<Seq<char>, V>
    decreases s.len(),
{
    if s.len() == 0 {
        Map::empty()
    } else {
        assoc_map(s.drop_last()).insert(s.last().0@, s.last().1)
    }
}

/// Appending entry lists unions their maps, the appended side winning.
pub proof fn lemma_assoc_map_concat<V>(a: Seq<(String, V)>, b: Seq<(String, V)>)
    ensures
        assoc_map(a + b) == assoc_map(a).union_prefer_right(assoc_map(b)),
    decreases b.len(),
{
    if b.len() == 0 {
        assert(a + b =~= a);
        assert(assoc_map(a).union_prefer_right(assoc_map(b)) =~= assoc_map(a));
    } else {
        let b0 = b.drop_last();
        let x = b.last();
        lemma_assoc_map_concat(a, b0);
        assert((a + b).drop_last() =~= a + b0);
        assert(assoc_map(a + b) == assoc_map(a + b0).insert(x.0@, x.1));
        assert(assoc_map(a).union_prefer_right(assoc_map(b0)).insert(x.0@, x.1)
            =~= assoc_map(a).union_prefer_right(assoc_map(b0).insert(x.0@, x.1)));
    }
}

/// A key occurring in no entry is absent from the map.
pub proof fn lemma_assoc_map_no_key<V>(s: Seq<(String, V)>, k: Seq<char>)
    requires
        forall|i: int| 0 <= i < s.len() ==> s[i].0@ != k,
    ensures
        !assoc_map(s).contains_key(k),
    decreases s.len(),
{
    if s.len() > 0 {
        lemma_assoc_map_no_key(s.drop_last(), k);
    }
}

/// The map carries the value of the last entry that declares a key.
pub proof fn lemma_assoc_map_last_match<V>(s: Seq<(String, V)>, i: int, k: Seq<char>)
    requires
        0 <= i < s.len(),
        s[i].0@ == k,
        forall|j: int| i < j < s.len() ==> s[j].0@ != k,
    ensures
        assoc_map(s).contains_key(k),
        assoc_map(s)[k] == s[i].1,
    decreases s.len(),
{
    if i < s.len() - 1 {
        lemma_assoc_map_last_match(s.drop_last(), i, k);
    }
}

/// A map-typed configuration artifact, stored as the sequence of
/// declarations the tiers contributed, in order.
pub struct ConfigMap<V> {
    pub entries: Vec<(String, V)>,
}

impl<V> View for ConfigMap<V> {
    type V = Map<Seq<char>, V>;

    open spec fn view(&self) -> Map<Seq<char>, V> {
        assoc_map(self.entries@)
    }
}

impl<V> ConfigMap<V> {
    /// The empty table.
    pub fn new() -> (r: ConfigMap<V>)
        ensures
            r@ == Map::<Seq<char>, V>::empty(),
    {
        ConfigMap { entries: Vec::new() }
    }

    /// Declare `key` as `value`, overriding any earlier declaration.
    pub fn insert(&mut self, key: String, value: V)
        ensures
            final(self)@ == old(self)@.insert(key@, value),
    {
        let ghost k = key@;
        let ghost v = value;
        self.entries.push((key, value));
        proof {
            assert(self.entries@.drop_last() =~= old(self).entries@);
            assert(self.entries@.last() == (self.entries@.last().0, v));
        }
    }

    /// Current value of `key`: the last declaration wins.
    pub fn get(&self, key: &String) -> (r: Option<&V>)
        ensures
            match r {
                Some(v) => self@.contains_key(key@) && *v == self@[key@],
                None => !self@.contains_key(key@),
            },
    {
        let n = self.entries.len();
        let mut i: usize = n;
        while i > 0
            invariant
                i <= n,
                n == self.entries@.len(),
                forall|j: int| i <= j < n ==> self.entries@[j].0@ != key@,
            decreases i,
        {
            i -= 1;
            if self.entries[i].0 == *key {
                proof {
                    lemma_assoc_map_last_match(self.entries@, i as int, key@);
                }
                return Some(&self.entries[i].1);
            }
        }
        proof {
            lemma_assoc_map_no_key(self.entries@, key@);
        }
        None
    }

    /// Layer `other` over this table: keys declared by `other` win.
    pub fn merge_from(&mut self, other: ConfigMap<V>)
        ensures
            final(self)@ == old(self)@.union_prefer_right(other@),
    {
        let mut o = other;
        let ghost oe = o.entries@;
        self.entries.append(&mut o.entries);
        proof {
            lemma_assoc_map_concat(old(self).entries@, oe);
        }
    }
}

/// The map a possibly-absent tier contributes: its table, or nothing.
pub open spec fn tier_map<V>(t: Option<ConfigMap<V>>) -> Map<Seq<char>, V> {
    match t {
        Some(m) => m@,
        None => Map::empty(),
    }
}

/// Merge the three tiers of a map-typed artifact: package default,
/// system override, per-user override, later tiers winning per key.
/// An absent tier (missing or unparsable file) is silently skipped.
pub fn merge_map_tiers<V>(
    default_tier: Option<ConfigMap<V>>,
    system_tier: Option<ConfigMap<V>>,
    user_tier: Option<ConfigMap<V>>,
) -> (r: ConfigMap<V>)
    ensures
        r@ == tier_map(default_tier).union_prefer_right(tier_map(system_tier)).union_prefer_right(
            tier_map(user_tier),
        ),
{
    let mut r = match default_tier {
        Some(m) => m,
        None => ConfigMap::new(),
    };
    match system_tier {
        Some(m) => r.merge_from(m),
        None => {
            proof {
                assert(r@.union_prefer_right(Map::<Seq<char>, V>::empty()) =~= r@);
            }
        },
    }
    match user_tier {
        Some(m) => r.merge_from(m),
        None => {
            proof {
                assert(r@.union_prefer_right(Map::<Seq<char>, V>::empty()) =~= r@);
            }
        },
    }
    r
}

} // verus!
