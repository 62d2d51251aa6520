//! Chain methods for deserializing byte contents: decode a byte slice as
//! a JSON or a YAML document into a string-to-string mapping.

use vstd::prelude::*;

verus! {

/// Declares [`serde_json::Error`], the failure value of a JSON decode,
/// handed back to the caller unmodified.
#[verifier::external_type_specification]
#[verifier::external_body]
pub struct ExJsonError(serde_json::Error);

/// Declares [`serde_yaml::Error`], the failure value of a YAML decode,
/// handed back to the caller unmodified.
#[verifier::external_type_specification]
#[verifier::external_body]
pub struct ExYamlError(serde_yaml::Error);

/// The string-to-string map that the given bytes denote as a JSON
/// document, or nothing when they are not one.
pub uninterp spec fn json_str_map(bytes: Seq<u8>) -> Option<Map<Seq<char>, Seq<char>>>;

/// The string-to-string map that the given bytes denote as a YAML
/// document, or nothing when they are not one.
pub uninterp spec fn yaml_str_map(bytes: Seq<u8>) -> Option<Map<Seq<char>, Seq<char>>>;

/// No two pairs of `s` share a key.
pub open spec fn distinct_keys(s: Seq<(String, String)>) -> bool {
    forall|i: int, j: int| 0 <= i < j < s.len() ==> s[i].0@ != s[j].0@
}

/// The map that a sequence of key-value pairs holds; a later pair with
/// the same key shadows an earlier one.
pub open spec fn pairs_map(s: Seq<(String, String)>) -> Map<Seq<char>, Seq<char>>
    decreases s.len(),
{
    if s.len() == 0 {
        Map::empty()
    } else {
        pairs_map(s.drop_last()).insert(s.last().0@, s.last().1@)
    }
}

/// A string-to-string mapping, the concrete target of the decode
/// operations; modelled as a finite map from key characters to value
/// characters.
#[derive(Debug)]
pub struct StrMap {
    pairs: Vec<(String, String)>,
}

impl View for StrMap {
    type V = Map<Seq<char>, Seq<char>>;

    closed spec fn view(&self) -> Map<Seq<char>, Seq<char>> {
        pairs_map(self.pairs@)
    }
}

/// A pair list with distinct keys holds exactly its keys, each bound to
/// the value paired with it, and as many of them as it has pairs.
proof fn lemma_pairs_map_props(s: Seq<(String, String)>)
    requires
        distinct_keys(s),
    ensures
        pairs_map(s).dom().finite(),
        pairs_map(s).len() == s.len(),
        forall|k: Seq<char>| #[trigger] pairs_map(s).contains_key(k)
            ==> exists|i: int| 0 <= i < s.len() && s[i].0@ == k,
        forall|i: int| 0 <= i < s.len()
            ==> pairs_map(s).contains_key(#[trigger] s[i].0@) && pairs_map(s)[s[i].0@] == s[i].1@,
    decreases s.len(),
{
    if s.len() == 0 {
    } else {
        let s0 = s.drop_last();
        assert(distinct_keys(s0)) by {
            assert(forall|i: int, j: int| 0 <= i < j < s0.len() ==> s0[i] == s[i] && s0[j] == s[j]);
        }
        lemma_pairs_map_props(s0);
        let last = s.last();
        assert(!pairs_map(s0).contains_key(last.0@)) by {
            if pairs_map(s0).contains_key(last.0@) {
                let i = choose|i: int| 0 <= i < s0.len() && s0[i].0@ == last.0@;
                assert(s[i].0@ == s[s.len() - 1].0@);
            }
        }
        assert(forall|i: int| 0 <= i < s0.len() ==> s0[i] == s[i]);
    }
}

impl StrMap {
    /// The mapping's internal invariant: no stored key repeats.
    pub closed spec fn wf(&self) -> bool {
        distinct_keys(self.pairs@)
    }

    /// An empty mapping.
    pub fn new() -> (r: StrMap)
        ensures
            r.wf(),
            r@ == Map::<Seq<char>, Seq<char>>::empty(),
    {
        StrMap { pairs: Vec::new() }
    }

    /// Wrap a pair list with distinct keys as a mapping.
    fn from_pairs(pairs: Vec<(String, String)>) -> (r: StrMap)
        requires
            distinct_keys(pairs@),
        ensures
            r.wf(),
            r@ == pairs_map(pairs@),
    {
        StrMap { pairs }
    }

    /// The number of keys the mapping holds.
    pub fn len(&self) -> (n: usize)
        requires
            self.wf(),
        ensures
            n == self@.len(),
    {
        proof {
            lemma_pairs_map_props(self.pairs@);
        }
        self.pairs.len()
    }

    /// Look the given key up; return its value, or nothing when the
    /// mapping does not hold the key.
    #[verifier::loop_isolation(false)]
    pub fn get(&self, key: &String) -> (r: Option<String>)
        requires
            self.wf(),
        ensures
            match r {
                Some(v) => self@.contains_key(key@) && v@ == self@[key@],
                None => !self@.contains_key(key@),
            },
    {
        proof {
            lemma_pairs_map_props(self.pairs@);
        }
        let n = self.pairs.len();
        let mut i: usize = 0;
        while i < n
            invariant
                n == self.pairs.len(),
                0 <= i <= n,
                self.wf(),
                forall|j: int| 0 <= j < i ==> self.pairs@[j].0@ != key@,
            decreases n - i,
        {
            if self.pairs[i].0 == *key {
                return Some(self.pairs[i].1.clone());
            }
            i = i + 1;
        }
        proof {
            if self@.contains_key(key@) {
                let j = choose|j: int| 0 <= j < self.pairs@.len() && self.pairs@[j].0@ == key@;
                assert(self.pairs@[j].0@ != key@);
            }
        }
        None
    }

    /// Bind the given key to the given value, replacing a previous
    /// binding of the same key.
    #[verifier::loop_isolation(false)]
    pub fn insert(&mut self, key: String, value: String)
        requires
            old(self).wf(),
        ensures
            final(self).wf(),
            final(self)@ == old(self)@.insert(key@, value@),
    {
        proof {
            lemma_pairs_map_props(self.pairs@);
        }
        let ghost s0 = self.pairs@;
        let ghost k0 = key@;
        let n = self.pairs.len();
        let mut i: usize = 0;
        while i < n
            invariant
                self.pairs@ == s0,
                0 <= i <= n,
                forall|j: int| 0 <= j < i ==> s0[j].0@ != k0,
            decreases n - i,
        {
            if self.pairs[i].0 == key {
                self.pairs.set(i, (key, value));
                proof {
                    let s1 = self.pairs@;
                    assert(forall|p: int| 0 <= p < s1.len() && p != i ==> s1[p] == s0[p]);
                    assert(distinct_keys(s1)) by {
                        assert forall|p: int, q: int| 0 <= p < q < s1.len() implies s1[p].0@
                            != s1[q].0@ by {
                            if p == i {
                                assert(s0[p].0@ != s0[q].0@);
                            } else if q == i {
                                assert(s0[p].0@ != s0[q].0@);
                            }
                        }
                    }
                    lemma_pairs_map_props(s1);
                    let target = pairs_map(s0).insert(k0, value@);
                    assert forall|k: Seq<char>| #[trigger] pairs_map(s1).contains_key(k) implies
                        target.contains_key(k) && pairs_map(s1)[k] == target[k] by {
                        let p = choose|p: int| 0 <= p < s1.len() && s1[p].0@ == k;
                        if p != i {
                            assert(s0[p].0@ != s0[i as int].0@);
                        }
                    }
                    assert forall|k: Seq<char>| #[trigger] target.contains_key(k) implies
                        pairs_map(s1).contains_key(k) by {
                        if k != k0 {
                            let q = choose|q: int| 0 <= q < s0.len() && s0[q].0@ == k;
                            assert(s1[q].0@ == k);
                        } else {
                            assert(s1[i as int].0@ == k);
                        }
                    }
                    assert(pairs_map(s1) =~= target);
                }
                return ;
            }
            i = i + 1;
        }
        self.pairs.push((key, value));
        proof {
            let s1 = self.pairs@;
            assert(forall|p: int| 0 <= p < s0.len() ==> s1[p] == s0[p]);
            assert(distinct_keys(s1));
            assert(s1.drop_last() =~= s0);
            assert(pairs_map(s1) == pairs_map(s0).insert(k0, value@));
        }
    }

    /// Decide whether `self` and `other` hold exactly the same keys,
    /// each bound to the same value.
    #[verifier::loop_isolation(false)]
    pub fn equals(&self, other: &StrMap) -> (r: bool)
        requires
            self.wf(),
            other.wf(),
        ensures
            r == (self@ == other@),
    {
        proof {
            lemma_pairs_map_props(self.pairs@);
            lemma_pairs_map_props(other.pairs@);
        }
        let n = self.pairs.len();
        let mut i: usize = 0;
        while i < n
            invariant
                n == self.pairs.len(),
                0 <= i <= n,
                self.wf(),
                other.wf(),
                forall|j: int| 0 <= j < i
                    ==> other@.contains_key(#[trigger] self.pairs@[j].0@)
                        && other@[self.pairs@[j].0@] == self.pairs@[j].1@,
            decreases n - i,
        {
            let found = other.get(&self.pairs[i].0);
            match found {
                Some(v) => {
                    if !(v == self.pairs[i].1) {
                        proof {
                            let k = self.pairs@[i as int].0@;
                            assert(self@[k] == self.pairs@[i as int].1@);
                        }
                        return false;
                    }
                },
                None => {
                    proof {
                        let k = self.pairs@[i as int].0@;
                        assert(self@.contains_key(k));
                    }
                    return false;
                },
            }
            i = i + 1;
        }
        let m = other.pairs.len();
        let mut j: usize = 0;
        while j < m
            invariant
                m == other.pairs.len(),
                0 <= j <= m,
                self.wf(),
                other.wf(),
                forall|p: int| 0 <= p < self.pairs@.len()
                    ==> other@.contains_key(#[trigger] self.pairs@[p].0@)
                        && other@[self.pairs@[p].0@] == self.pairs@[p].1@,
                forall|q: int| 0 <= q < j
                    ==> self@.contains_key(#[trigger] other.pairs@[q].0@),
            decreases m - j,
        {
            let found = self.get(&other.pairs[j].0);
            match found {
                Some(_) => {},
                None => {
                    proof {
                        let k = other.pairs@[j as int].0@;
                        assert(other@.contains_key(k));
                    }
                    return false;
                },
            }
            j = j + 1;
        }
        proof {
            assert(self@ =~= other@) by {
                assert(forall|k: Seq<char>| #[trigger] self@.contains_key(k)
                    ==> other@.contains_key(k) && other@[k] == self@[k]);
                assert(forall|k: Seq<char>| #[trigger] other@.contains_key(k)
                    ==> self@.contains_key(k));
            }
        }
        true
    }
}

/// Relies on [`serde_json::from_slice`]: deserializing a byte slice into
/// a string-to-string map either fails or yields one map, a function of
/// the bytes alone, with pairwise distinct keys.
#[verifier::external_body]
fn de_json_pairs(bytes: &[u8]) -> (r: Result<Vec<(String, String)>, serde_json::Error>)
    ensures
        r is Ok <==> json_str_map(bytes@) is Some,
        r matches Ok(pairs) ==> distinct_keys(pairs@) && json_str_map(bytes@) == Some(
            pairs_map(pairs@),
        ),
{
    match serde_json::from_slice::<std::collections::HashMap<String, String>>(bytes) {
        Ok(m) => Ok(m.into_iter().collect()),
        Err(e) => Err(e),
    }
}

/// Relies on [`serde_yaml::from_slice`]: deserializing a byte slice into
/// a string-to-string map either fails or yields one map, a function of
/// the bytes alone, with pairwise distinct keys.
#[verifier::external_body]
fn de_yaml_pairs(bytes: &[u8]) -> (r: Result<Vec<(String, String)>, serde_yaml::Error>)
    ensures
        r is Ok <==> yaml_str_map(bytes@) is Some,
        r matches Ok(pairs) ==> distinct_keys(pairs@) && yaml_str_map(bytes@) == Some(
            pairs_map(pairs@),
        ),
{
    match serde_yaml::from_slice::<std::collections::HashMap<String, String>>(bytes) {
        Ok(m) => Ok(m.into_iter().collect()),
        Err(e) => Err(e),
    }
}

/// Extend byte contents with methods for deserializing them.
pub trait DeExt: Sized {
    /// The byte contents that `self` stands for.
    spec fn bytes(self) -> Seq<u8>;

    /// Deserialize self as a json string; succeeds exactly when the
    /// bytes denote a JSON string-to-string mapping.
    fn de_json(self) -> (r: Result<StrMap, serde_json::Error>)
        ensures
            r is Ok <==> json_str_map(self.bytes()) is Some,
            r matches Ok(m) ==> m.wf() && json_str_map(self.bytes()) == Some(m@),
    ;

    /// Deserialize self as a yaml string; succeeds exactly when the
    /// bytes denote a YAML string-to-string mapping.
    fn de_yaml(self) -> (r: Result<StrMap, serde_yaml::Error>)
        ensures
            r is Ok <==> yaml_str_map(self.bytes()) is Some,
            r matches Ok(m) ==> m.wf() && yaml_str_map(self.bytes()) == Some(m@),
    ;
}

impl<'a> DeExt for &'a [u8] {
    open spec fn bytes(self) -> Seq<u8> {
        self@
    }

    fn de_json(self) -> (r: Result<StrMap, serde_json::Error>) {
        match de_json_pairs(self) {
            Ok(pairs) => Ok(StrMap::from_pairs(pairs)),
            Err(e) => Err(e),
        }
    }

    fn de_yaml(self) -> (r: Result<StrMap, serde_yaml::Error>) {
        match de_yaml_pairs(self) {
            Ok(pairs) => Ok(StrMap::from_pairs(pairs)),
            Err(e) => Err(e),
        }
    }
}

impl DeExt for Vec<u8> {
    open spec fn bytes(self) -> Seq<u8> {
        self@
    }

    fn de_json(self) -> (r: Result<StrMap, serde_json::Error>) {
        match de_json_pairs(self.as_slice()) {
            Ok(pairs) => Ok(StrMap::from_pairs(pairs)),
            Err(e) => Err(e),
        }
    }

    fn de_yaml(self) -> (r: Result<StrMap, serde_yaml::Error>) {
        match de_yaml_pairs(self.as_slice()) {
            Ok(pairs) => Ok(StrMap::from_pairs(pairs)),
            Err(e) => Err(e),
        }
    }
}

} // verus!
