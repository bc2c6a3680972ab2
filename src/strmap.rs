//! A map from strings to values, kept as two parallel vectors whose keys are
//! pairwise distinct. Its view is a `Map` from the keys' characters.
use vstd::prelude::*;
use vstd::seq_lib::*;

verus! {

/// A value that can be copied into an equal one.
pub trait Duplicate: Sized {
    fn duplicate(&self) -> (r: Self)
        ensures
            r == *self;
}

impl Duplicate for u32 {
    fn duplicate(&self) -> (r: u32) {
        *self
    }
}

impl Duplicate for String {
    fn duplicate(&self) -> (r: String) {
        self.clone()
    }
}

#[derive(Debug)]
pub struct StrMap<V> {
    keys: Vec<String>,
    vals: Vec<V>,
}

impl<V> View for StrMap<V> {
    type V = Map<Seq<char>, V>;

    closed spec fn view(&self) -> Map<Seq<char>, V> {
        Map::new(
            |k: Seq<char>| exists|i: int| 0 <= i < self.keys.len() && self.keys[i]@ == k,
            |k: Seq<char>| self.vals[choose|i: int| 0 <= i < self.keys.len() && self.keys[i]@ == k],
        )
    }
}

impl<V> StrMap<V> {
    #[verifier::type_invariant]
    spec fn inv(&self) -> bool {
        &&& self.keys.len() == self.vals.len()
        &&& forall|i: int, j: int|
            0 <= i < self.keys.len() && 0 <= j < self.keys.len() && i != j
                ==> self.keys[i]@ != self.keys[j]@
    }

    spec fn key_views(&self) -> Seq<Seq<char>> {
        self.keys@.map_values(|k: String| k@)
    }

    proof fn lemma_entry(&self, i: int)
        requires
            self.inv(),
            0 <= i < self.keys.len(),
        ensures
            self@.contains_key(self.keys[i]@),
            self@[self.keys[i]@] == self.vals[i],
    {
        let k = self.keys[i]@;
        assert(exists|j: int| 0 <= j < self.keys.len() && self.keys[j]@ == k);
        let j = choose|j: int| 0 <= j < self.keys.len() && self.keys[j]@ == k;
        assert(i == j);
    }

    proof fn lemma_absent(&self, k: Seq<char>)
        requires
            forall|i: int| 0 <= i < self.keys.len() ==> self.keys[i]@ != k,
        ensures
            !self@.contains_key(k),
    {
    }

    proof fn lemma_len(&self)
        requires
            self.inv(),
        ensures
            self@.dom().len() == self.keys.len(),
            self@.dom() == self.key_views().to_set(),
    {
        let kv = self.key_views();
        assert(self@.dom() =~= kv.to_set()) by {
            assert forall|k: Seq<char>| self@.dom().contains(k) implies kv.to_set().contains(k) by {
                let i = choose|i: int| 0 <= i < self.keys.len() && self.keys[i]@ == k;
                assert(kv[i] == k);
            }
            assert forall|k: Seq<char>| kv.to_set().contains(k) implies self@.dom().contains(k) by {
                let i = choose|i: int| 0 <= i < kv.len() && kv[i] == k;
                assert(self.keys[i]@ == k);
            }
        }
        assert(kv.no_duplicates()) by {
            assert forall|i: int, j: int| 0 <= i < kv.len() && 0 <= j < kv.len() && i != j
                implies kv[i] != kv[j] by {
                assert(kv[i] == self.keys[i]@ && kv[j] == self.keys[j]@);
            }
        }
        kv.unique_seq_to_set();
    }

    pub fn new() -> (m: Self)
        ensures
            m@ == Map::<Seq<char>, V>::empty(),
    {
        let m = StrMap { keys: Vec::new(), vals: Vec::new() };
        assert(m@ =~= Map::<Seq<char>, V>::empty());
        m
    }

    pub fn len(&self) -> (n: usize)
        ensures
            n == self@.len(),
    {
        proof {
            use_type_invariant(self);
            self.lemma_len();
        }
        self.keys.len()
    }

    pub fn is_empty(&self) -> (b: bool)
        ensures
            b == (self@ == Map::<Seq<char>, V>::empty()),
    {
        proof {
            use_type_invariant(self);
            if self.keys.len() == 0 {
                assert(self@ =~= Map::<Seq<char>, V>::empty());
            } else {
                self.lemma_entry(0);
                assert(!Map::<Seq<char>, V>::empty().contains_key(self.keys[0]@));
            }
        }
        self.keys.len() == 0
    }

    /// The position of `k` among the keys, if it is there.
    fn find(&self, k: &str) -> (r: Option<usize>)
        ensures
            match r {
                Some(i) => i < self.keys.len() && self.keys[i as int]@ == k@,
                None => forall|i: int| 0 <= i < self.keys.len() ==> self.keys[i]@ != k@,
            },
    {
        let key = k.to_owned();
        let mut i: usize = 0;
        while i < self.keys.len()
            invariant
                i <= self.keys.len(),
                key@ == k@,
                forall|j: int| 0 <= j < i ==> self.keys[j]@ != k@,
            decreases self.keys.len() - i,
        {
            if self.keys[i] == key {
                return Some(i);
            }
            i = i + 1;
        }
        None
    }

    pub fn contains_key(&self, k: &str) -> (b: bool)
        ensures
            b == self@.contains_key(k@),
    {
        proof {
            use_type_invariant(self);
        }
        match self.find(k) {
            Some(i) => {
                proof {
                    self.lemma_entry(i as int);
                }
                true
            },
            None => false,
        }
    }

    pub fn get(&self, k: &str) -> (r: Option<&V>)
        ensures
            r.is_some() == self@.contains_key(k@),
            r.is_some() ==> *r.unwrap() == self@[k@],
    {
        proof {
            use_type_invariant(self);
        }
        match self.find(k) {
            Some(i) => {
                proof {
                    self.lemma_entry(i as int);
                }
                Some(&self.vals[i])
            },
            None => None,
        }
    }

    /// The `i`-th entry in storage order; each entry is one of the map's pairs.
    pub fn entry(&self, i: usize) -> (r: (&String, &V))
        requires
            i < self@.len(),
        ensures
            self@.contains_key(r.0@),
            self@[r.0@] == *r.1,
    {
        proof {
            use_type_invariant(self);
            self.lemma_len();
            self.lemma_entry(i as int);
        }
        (&self.keys[i], &self.vals[i])
    }

    /// Takes the storage out of a map, leaving an empty one behind.
    fn take_parts(&mut self) -> (r: (Vec<String>, Vec<V>))
        ensures
            final(self)@ == Map::<Seq<char>, V>::empty(),
            r.0.len() == r.1.len(),
            r.0@ == old(self).keys@,
            r.1@ == old(self).vals@,
    {
        proof {
            use_type_invariant(&*self);
        }
        let mut m = StrMap::new();
        std::mem::swap(self, &mut m);
        let StrMap { keys, vals } = m;
        (keys, vals)
    }

    pub fn insert(&mut self, k: String, v: V)
        ensures
            final(self)@ == old(self)@.insert(k@, v),
    {
        proof {
            use_type_invariant(&*self);
        }
        let ghost before = *self;
        let found = self.find(k.as_str());
        let (mut keys, mut vals) = self.take_parts();
        match found {
            Some(i) => {
                vals.set(i, v);
                *self = StrMap { keys, vals };
                proof {
                    assert forall|kk: Seq<char>| #[trigger] self@.contains_key(kk) == before@.insert(k@, v).contains_key(kk) by {
                        if self@.contains_key(kk) {
                            let j = choose|j: int| 0 <= j < self.keys.len() && self.keys[j]@ == kk;
                            before.lemma_entry(j);
                        }
                        if before@.contains_key(kk) {
                            let j = choose|j: int| 0 <= j < before.keys.len() && before.keys[j]@ == kk;
                            self.lemma_entry(j);
                        }
                        if kk == k@ {
                            self.lemma_entry(i as int);
                        }
                    }
                    assert forall|kk: Seq<char>| self@.contains_key(kk) implies #[trigger] self@[kk] == before@.insert(k@, v)[kk] by {
                        let j = choose|j: int| 0 <= j < self.keys.len() && self.keys[j]@ == kk;
                        self.lemma_entry(j);
                        if j != i {
                            before.lemma_entry(j);
                        }
                    }
                    assert(self@ =~= before@.insert(k@, v));
                }
            },
            None => {
                keys.push(k);
                vals.push(v);
                *self = StrMap { keys, vals };
                proof {
                    let n = before.keys.len() as int;
                    assert forall|kk: Seq<char>| #[trigger] self@.contains_key(kk) == before@.insert(k@, v).contains_key(kk) by {
                        if self@.contains_key(kk) {
                            let j = choose|j: int| 0 <= j < self.keys.len() && self.keys[j]@ == kk;
                            if j < n {
                                before.lemma_entry(j);
                            }
                        }
                        if before@.contains_key(kk) {
                            let j = choose|j: int| 0 <= j < before.keys.len() && before.keys[j]@ == kk;
                            self.lemma_entry(j);
                        }
                        if kk == k@ {
                            self.lemma_entry(n);
                        }
                    }
                    assert forall|kk: Seq<char>| self@.contains_key(kk) implies #[trigger] self@[kk] == before@.insert(k@, v)[kk] by {
                        let j = choose|j: int| 0 <= j < self.keys.len() && self.keys[j]@ == kk;
                        self.lemma_entry(j);
                        if j < n {
                            before.lemma_entry(j);
                        }
                    }
                    assert(self@ =~= before@.insert(k@, v));
                }
            },
        }
    }

    /// Sets every value to `v`, keeping the keys.
    pub fn fill(&mut self, v: V)
        where
            V: Copy,
        ensures
            final(self)@ == Map::new(|k: Seq<char>| old(self)@.contains_key(k), |k: Seq<char>| v),
    {
        proof {
            use_type_invariant(&*self);
        }
        let (keys, vals) = self.take_parts();
        let n = vals.len();
        let mut filled: Vec<V> = Vec::new();
        let mut i: usize = 0;
        while i < n
            invariant
                filled.len() == i,
                i <= n,
                forall|j: int| 0 <= j < i ==> filled[j] == v,
            decreases n - i,
        {
            filled.push(v);
            i = i + 1;
        }
        *self = StrMap { keys, vals: filled };
        assert(self@ =~= Map::new(|k: Seq<char>| old(self)@.contains_key(k), |k: Seq<char>| v));
    }

    pub fn clear(&mut self)
        ensures
            final(self)@ == Map::<Seq<char>, V>::empty(),
    {
        let _ = self.take_parts();
    }
}

impl<V: Duplicate> StrMap<V> {
    /// An equal, independent map.
    pub fn duplicate(&self) -> (r: Self)
        ensures
            r@ == self@,
    {
        proof {
            use_type_invariant(self);
        }
        let n = self.keys.len();
        let mut keys: Vec<String> = Vec::new();
        let mut vals: Vec<V> = Vec::new();
        let mut i: usize = 0;
        while i < n
            invariant
                n == self.keys.len(),
                n == self.vals.len(),
                i <= n,
                keys.len() == i,
                vals.len() == i,
                forall|j: int| 0 <= j < i ==> keys[j] == self.keys[j],
                forall|j: int| 0 <= j < i ==> vals[j] == self.vals[j],
            decreases n - i,
        {
            keys.push(self.keys[i].clone());
            vals.push(self.vals[i].duplicate());
            i = i + 1;
        }
        proof {
            assert(keys@ =~= self.keys@);
            assert(vals@ =~= self.vals@);
        }
        StrMap { keys, vals }
    }
}

} // verus!
