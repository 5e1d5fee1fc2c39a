//! A map from strings to strings.

use vstd::prelude::*;

verus! {

/// The views of a list of strings, in order.
pub open spec fn string_views(list: Seq<String>) -> Seq<Seq<char>> {
    list.map_values(|s: String| s@)
}

/// The views of a list of pairs, in order.
pub open spec fn pair_views(list: Seq<(String, String)>) -> Seq<(Seq<char>, Seq<char>)> {
    list.map_values(|p: (String, String)| (p.0@, p.1@))
}

/// `s` names every entry of `m` exactly once, in some order.
pub open spec fn is_listing(s: Seq<(Seq<char>, Seq<char>)>, m: Map<Seq<char>, Seq<char>>) -> bool {
    &&& forall|i: int, j: int| 0 <= i < j < s.len() ==> s[i].0 != s[j].0
    &&& forall|i: int| 0 <= i < s.len() ==> m.contains_pair(#[trigger] s[i].0, s[i].1)
    &&& forall|k: Seq<char>| m.contains_key(k) ==> exists|i: int| 0 <= i < s.len() && #[trigger] s[i].0 == k
}

/// A map from strings to strings, kept as a list of pairs in which no key
/// occurs twice.
pub struct StringMap {
    pub(crate) list: Vec<(String, String)>,
}

impl View for StringMap {
    type V = Map<Seq<char>, Seq<char>>;

    closed spec fn view(&self) -> Map<Seq<char>, Seq<char>> {
        Map::new(
            |k: Seq<char>| exists|i: int| 0 <= i < self.list.len() && self.list[i].0@ == k,
            |k: Seq<char>| self.list[self.position(k)].1@,
        )
    }
}

impl StringMap {
    /// No key occurs twice.
    #[verifier::type_invariant]
    spec fn wf(&self) -> bool {
        forall|i: int, j: int|
            0 <= i < j < self.list.len() ==> self.list[i].0@ != self.list[j].0@
    }

    /// Where the pair of key `k` stands, if there is one.
    spec fn position(&self, k: Seq<char>) -> int {
        choose|i: int| 0 <= i < self.list.len() && self.list[i].0@ == k
    }

    proof fn lemma_entries(&self)
        requires
            self.wf(),
        ensures
            forall|i: int|
                0 <= i < self.list.len() ==> self@.contains_pair(
                    #[trigger] self.list[i].0@,
                    self.list[i].1@,
                ),
            forall|k: Seq<char>| #[trigger]
                self@.contains_key(k) ==> 0 <= self.position(k) < self.list.len()
                    && self.list[self.position(k)].0@ == k,
            forall|k: Seq<char>|
                self@.contains_key(k) <==> exists|i: int|
                    0 <= i < self.list.len() && #[trigger] self.list[i].0@ == k,
    {
        assert forall|i: int| 0 <= i < self.list.len() implies self@.contains_pair(
            #[trigger] self.list[i].0@,
            self.list[i].1@,
        ) by {
            let k = self.list[i].0@;
            let j = self.position(k);
            assert(0 <= j < self.list.len() && self.list[j].0@ == k);
            assert(j == i);
        }
    }

    /// The empty map.
    pub fn new() -> (r: StringMap)
        ensures
            r@ == Map::<Seq<char>, Seq<char>>::empty(),
    {
        let r = StringMap { list: Vec::new() };
        assert(r@ =~= Map::<Seq<char>, Seq<char>>::empty());
        r
    }

    /// Whether the map holds no entry.
    pub fn is_empty(&self) -> (r: bool)
        ensures
            r == (self@ == Map::<Seq<char>, Seq<char>>::empty()),
    {
        proof {
            use_type_invariant(&*self);
            self.lemma_entries();
            if self.list.len() == 0 {
                assert(self@ =~= Map::<Seq<char>, Seq<char>>::empty());
            } else {
                assert(self@.contains_key(self.list[0].0@));
            }
        }
        self.list.len() == 0
    }

    fn find(&self, id: &String) -> (r: Option<usize>)
        ensures
            match r {
                Some(i) => i < self.list.len() && self.list[i as int].0@ == id@,
                None => forall|i: int| 0 <= i < self.list.len() ==> self.list[i].0@ != id@,
            },
    {
        let mut i: usize = 0;
        while i < self.list.len()
            invariant
                i <= self.list.len(),
                forall|j: int| 0 <= j < i ==> self.list[j].0@ != id@,
            decreases self.list.len() - i,
        {
            if self.list[i].0 == *id {
                return Some(i);
            }
            i += 1;
        }
        None
    }

    /// Whether key `id` has an entry.
    pub fn contains_key(&self, id: &String) -> (r: bool)
        ensures
            r == self@.contains_key(id@),
    {
        proof {
            use_type_invariant(&*self);
            self.lemma_entries();
        }
        self.find(id).is_some()
    }

    /// The value stored under key `id`, if there is one.
    pub fn get(&self, id: &String) -> (r: Option<&String>)
        ensures
            match r {
                Some(pw) => self@.contains_key(id@) && pw@ == self@[id@],
                None => !self@.contains_key(id@),
            },
    {
        proof {
            use_type_invariant(&*self);
            self.lemma_entries();
        }
        match self.find(id) {
            Some(i) => Some(&self.list[i].1),
            None => None,
        }
    }

    /// Stores `pw` under key `id`, replacing what was stored there; returns
    /// whether the key had an entry before.
    pub fn insert(&mut self, id: String, pw: String) -> (replaced: bool)
        ensures
            final(self)@ == old(self)@.insert(id@, pw@),
            replaced == old(self)@.contains_key(id@),
    {
        proof {
            use_type_invariant(&*self);
            self.lemma_entries();
        }
        let ghost before = *self;
        let ghost key = id@;
        let ghost val = pw@;
        let ghost at: int;
        let found = self.find(&id);
        let mut taken = StringMap::new();
        std::mem::swap(self, &mut taken);
        let mut list = taken.list;
        let replaced = match found {
            Some(i) => {
                list.set(i, (id, pw));
                proof {
                    at = i as int;
                }
                true
            },
            None => {
                list.push((id, pw));
                proof {
                    at = list.len() - 1;
                }
                false
            },
        };
        proof {
            let after = StringMap { list };
            assert(after.list[at].0@ == key && after.list[at].1@ == val);
            assert(after.wf());
            after.lemma_entries();
            assert forall|k: Seq<char>| after@.contains_key(k) <==> before@.insert(
                key,
                val,
            ).contains_key(k) by {
                if before@.contains_key(k) {
                    let i = before.position(k);
                    assert(after.list[i].0@ == k);
                }
            }
            assert forall|k: Seq<char>| after@.contains_key(k) implies after@[k] == before@.insert(
                key,
                val,
            )[k] by {
                let i = after.position(k);
                if k != key {
                    assert(before.list[i].0@ == k);
                    assert(before@.contains_pair(before.list[i].0@, before.list[i].1@));
                }
            }
            assert(after@ =~= before@.insert(key, val));
        }
        *self = StringMap { list };
        replaced
    }

    /// Every entry once, as a list of pairs.
    pub fn pairs(&self) -> (r: Vec<(String, String)>)
        ensures
            is_listing(pair_views(r@), self@),
    {
        let mut out: Vec<(String, String)> = Vec::new();
        let mut i: usize = 0;
        while i < self.list.len()
            invariant
                i <= self.list.len(),
                out.len() == i,
                forall|j: int| 0 <= j < i ==> out[j].0@ == self.list[j].0@ && out[j].1@ == self.list[j].1@,
            decreases self.list.len() - i,
        {
            out.push((self.list[i].0.clone(), self.list[i].1.clone()));
            i += 1;
        }
        proof {
            use_type_invariant(&*self);
            self.lemma_entries();
            let s = pair_views(out@);
            assert forall|i: int| 0 <= i < s.len() implies self@.contains_pair(
                #[trigger] s[i].0,
                s[i].1,
            ) by {
                assert(self@.contains_pair(self.list[i].0@, self.list[i].1@));
            }
            assert forall|k: Seq<char>| self@.contains_key(k) implies exists|i: int|
                0 <= i < s.len() && #[trigger] s[i].0 == k by {
                let i = self.position(k);
                assert(s[i].0 == k);
            }
        }
        out
    }
}

} // verus!
