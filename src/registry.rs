//! The session registry: at most one value per session key.
use vstd::prelude::*;

verus! {

/// Why an insertion into the registry was refused.
#[derive(Clone, Copy, Debug, PartialEq, Eq)]
pub enum RegistryError {
    /// The key is already present.
    Conflict,
}

/// Whether `insert_new(k, _)` succeeds on a registry holding `m`.
pub open spec fn admits<V>(m: Map<Seq<char>, V>, k: Seq<char>) -> bool {
    !m.contains_key(k)
}

/// The contents after `insert_new(k, v)` on a registry holding `m`.
pub open spec fn after_insert_new<V>(m: Map<Seq<char>, V>, k: Seq<char>, v: V) -> Map<Seq<char>, V> {
    if admits(m, k) {
        m.insert(k, v)
    } else {
        m
    }
}

/// A mapping from session key to session, with unique keys, kept in insertion order.
pub struct Registry<V> {
    keys: Vec<String>,
    values: Vec<V>,
    contents: Ghost<Map<Seq<char>, V>>,
}

impl<V> Registry<V> {
    /// The contents: each key with its value.
    pub closed spec fn view(&self) -> Map<Seq<char>, V> {
        self.contents@
    }

    /// Keys and values line up, keys are unique, and the contents are exactly the pairs held.
    pub closed spec fn wf(&self) -> bool {
        &&& self.keys@.len() == self.values@.len()
        &&& forall|i: int, j: int|
            0 <= i < self.keys@.len() && 0 <= j < self.keys@.len() && i != j ==> self.keys@[i]@
                != self.keys@[j]@
        &&& forall|i: int|
            0 <= i < self.keys@.len() ==> #[trigger] self.contents@.contains_key(self.keys@[i]@)
                && self.contents@[self.keys@[i]@] == self.values@[i]
        &&& forall|k: Seq<char>|
            #[trigger] self.contents@.contains_key(k) ==> exists|i: int|
                0 <= i < self.keys@.len() && self.keys@[i]@ == k
    }

    /// An empty registry.
    pub fn new() -> (r: Self)
        ensures
            r.wf(),
            r@ == Map::<Seq<char>, V>::empty(),
    {
        Registry { keys: Vec::new(), values: Vec::new(), contents: Ghost(Map::empty()) }
    }

    fn find(&self, key: &String) -> (r: Option<usize>)
        requires
            self.wf(),
        ensures
            match r {
                Some(i) => i < self.keys@.len() && self.keys@[i as int]@ == key@,
                None => !self@.contains_key(key@),
            },
    {
        let mut i: usize = 0;
        while i < self.keys.len()
            invariant
                self.wf(),
                0 <= i <= self.keys@.len(),
                forall|j: int| 0 <= j < i ==> self.keys@[j]@ != key@,
            decreases self.keys@.len() - i,
        {
            if self.keys[i] == *key {
                return Some(i);
            }
            i = i + 1;
        }
        None
    }

    /// Whether a value is registered under `key`.
    pub fn contains_key(&self, key: &String) -> (r: bool)
        requires
            self.wf(),
        ensures
            r == self@.contains_key(key@),
    {
        self.find(key).is_some()
    }

    /// The value registered under `key`, if any.
    pub fn get(&self, key: &String) -> (r: Option<&V>)
        requires
            self.wf(),
        ensures
            match r {
                Some(v) => self@.contains_key(key@) && *v == self@[key@],
                None => !self@.contains_key(key@),
            },
    {
        match self.find(key) {
            Some(i) => {
                assert(self.contents@.contains_key(self.keys@[i as int]@));
                Some(&self.values[i])
            },
            None => None,
        }
    }

    /// Registers `value` under `key` unless the key is already present, in which
    /// case the registry is left as it was.
    pub fn insert_new(&mut self, key: String, value: V) -> (r: Result<(), RegistryError>)
        requires
            old(self).wf(),
        ensures
            final(self).wf(),
            (r is Ok) == admits(old(self)@, key@),
            r is Err ==> r == Err::<(), RegistryError>(RegistryError::Conflict),
            final(self)@ == after_insert_new(old(self)@, key@, value),
    {
        if self.find(&key).is_some() {
            return Err(RegistryError::Conflict);
        }
        let ghost k = key@;
        let ghost old_keys = self.keys@;
        self.contents = Ghost(self.contents@.insert(k, value));
        self.keys.push(key);
        self.values.push(value);
        proof {
            let n = self.keys@.len() - 1;
            assert(self.keys@[n]@ == k);
            assert forall|i: int| 0 <= i < self.keys@.len() implies #[trigger] self.contents@.contains_key(
                self.keys@[i]@,
            ) && self.contents@[self.keys@[i]@] == self.values@[i] by {
                if i < n {
                    assert(self.keys@[i] == old_keys[i]);
                    assert(old_keys[i]@ != k);
                }
            }
            assert forall|kk: Seq<char>| #[trigger] self.contents@.contains_key(kk) implies exists|i: int|
                0 <= i < self.keys@.len() && self.keys@[i]@ == kk by {
                if kk != k {
                    let i = choose|i: int| 0 <= i < old_keys.len() && old_keys[i]@ == kk;
                    assert(self.keys@[i] == old_keys[i]);
                }
            }
        }
        Ok(())
    }

    /// Removes and returns the value registered under `key`, if any.
    pub fn remove(&mut self, key: &String) -> (r: Option<V>)
        requires
            old(self).wf(),
        ensures
            final(self).wf(),
            match r {
                Some(v) => old(self)@.contains_key(key@) && v == old(self)@[key@],
                None => !old(self)@.contains_key(key@),
            },
            final(self)@ == old(self)@.remove(key@),
    {
        match self.find(key) {
            None => {
                assert(self@.remove(key@) == self@);
                None
            },
            Some(i) => {
                let ghost old_keys = self.keys@;
                let ghost old_values = self.values@;
                assert(self.contents@.contains_key(old_keys[i as int]@));
                self.contents = Ghost(self.contents@.remove(key@));
                let _k = self.keys.remove(i);
                let v = self.values.remove(i);
                proof {
                    assert forall|a: int| 0 <= a < self.keys@.len() implies #[trigger] self.contents@.contains_key(
                        self.keys@[a]@,
                    ) && self.contents@[self.keys@[a]@] == self.values@[a] by {
                        if a < i {
                            assert(self.keys@[a] == old_keys[a]);
                            assert(self.values@[a] == old_values[a]);
                        } else {
                            assert(self.keys@[a] == old_keys[a + 1]);
                            assert(self.values@[a] == old_values[a + 1]);
                        }
                    }
                    assert forall|kk: Seq<char>| #[trigger] self.contents@.contains_key(kk) implies exists|a: int|
                        0 <= a < self.keys@.len() && self.keys@[a]@ == kk by {
                        let j = choose|j: int| 0 <= j < old_keys.len() && old_keys[j]@ == kk;
                        if j < i {
                            assert(self.keys@[j] == old_keys[j]);
                        } else {
                            assert(j != i);
                            assert(self.keys@[j - 1] == old_keys[j]);
                        }
                    }
                    assert forall|a: int, b: int|
                        0 <= a < self.keys@.len() && 0 <= b < self.keys@.len() && a != b implies self.keys@[a]@
                        != self.keys@[b]@ by {
                        let oa = if a < i { a } else { a + 1 };
                        let ob = if b < i { b } else { b + 1 };
                        assert(self.keys@[a] == old_keys[oa]);
                        assert(self.keys@[b] == old_keys[ob]);
                    }
                }
                Some(v)
            },
        }
    }
}

/// A key can be registered once: a second `insert_new` of the same key is refused,
/// while a different key that was free stays free after the first insertion.
pub proof fn lemma_registry_uniqueness<V>(m: Map<Seq<char>, V>, k1: Seq<char>, k2: Seq<char>, v1: V)
    ensures
        admits(m, k1) ==> !admits(after_insert_new(m, k1, v1), k1),
        admits(m, k1) ==> after_insert_new(m, k1, v1)[k1] == v1,
        k1 != k2 && admits(m, k2) ==> admits(after_insert_new(m, k1, v1), k2),
{
}

} // verus!
