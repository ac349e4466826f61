//! A map keyed by strings, compared by their characters.
use crate::text::str_eq;
use vstd::prelude::*;

verus! {

/// A finite map from strings to values of `V`, kept in two vectors of equal
/// length. No key occurs twice: an insertion under a key that is present
/// replaces the value held there.
#[derive(Debug)]
pub struct StringMap<V> {
    keys: Vec<String>,
    values: Vec<V>,
}

impl<V> View for StringMap<V> {
    type V = Map<Seq<char>, V>;

    closed spec fn view(&self) -> Map<Seq<char>, V> {
        Map::new(
            |k: Seq<char>| self.slot_of(k) is Some,
            |k: Seq<char>| self.values[self.slot_of(k).unwrap()],
        )
    }
}

impl<V> StringMap<V> {
    #[verifier::type_invariant]
    closed spec fn inv(self) -> bool {
        &&& self.keys.len() == self.values.len()
        &&& forall|i: int, j: int|
            0 <= i < j < self.keys.len() ==> #[trigger] self.keys[i]@ != #[trigger] self.keys[j]@
    }

    /// The index at which the key `k` is held.
    closed spec fn slot_of(self, k: Seq<char>) -> Option<int> {
        if exists|i: int| 0 <= i < self.keys.len() && #[trigger] self.keys[i]@ == k {
            Some(choose|i: int| 0 <= i < self.keys.len() && #[trigger] self.keys[i]@ == k)
        } else {
            None
        }
    }

    /// The value held under `k`, if any.
    pub open spec fn spec_get(&self, k: Seq<char>) -> Option<V> {
        if self@.contains_key(k) {
            Some(self@[k])
        } else {
            None
        }
    }

    proof fn lemma_slot(self, i: int)
        requires
            self.inv(),
            0 <= i < self.keys.len(),
        ensures
            self.slot_of(self.keys[i]@) == Some(i),
    {
        let k = self.keys[i]@;
        let j = choose|j: int| 0 <= j < self.keys.len() && #[trigger] self.keys[j]@ == k;
        assert(0 <= j < self.keys.len() && self.keys[j]@ == k);
    }

    /// The first `n` keys, as a set.
    closed spec fn key_set(self, n: int) -> Set<Seq<char>>
        decreases n,
    {
        if n <= 0 {
            Set::empty()
        } else {
            self.key_set(n - 1).insert(self.keys[n - 1]@)
        }
    }

    proof fn lemma_key_set(self, n: int)
        requires
            self.inv(),
            0 <= n <= self.keys.len(),
        ensures
            self.key_set(n).finite(),
            self.key_set(n).len() == n,
            forall|k: Seq<char>|
                self.key_set(n).contains(k) <==> exists|i: int|
                    0 <= i < n && #[trigger] self.keys[i]@ == k,
        decreases n,
    {
        if n > 0 {
            self.lemma_key_set(n - 1);
            let last = self.keys[n - 1]@;
            assert(!self.key_set(n - 1).contains(last)) by {
                if self.key_set(n - 1).contains(last) {
                    let i = choose|i: int| 0 <= i < n - 1 && #[trigger] self.keys[i]@ == last;
                    assert(self.keys[i]@ != self.keys[n - 1]@);
                }
            }
            assert forall|k: Seq<char>|
                self.key_set(n).contains(k) <==> exists|i: int|
                    0 <= i < n && #[trigger] self.keys[i]@ == k by {
                if self.key_set(n).contains(k) {
                    if k == last {
                        assert(self.keys[n - 1]@ == k);
                    } else {
                        let i = choose|i: int| 0 <= i < n - 1 && #[trigger] self.keys[i]@ == k;
                        assert(0 <= i < n && self.keys[i]@ == k);
                    }
                }
            }
        }
    }

    proof fn lemma_dom(self)
        requires
            self.inv(),
        ensures
            self@.dom().finite(),
            self@.dom().len() == self.keys.len(),
    {
        self.lemma_key_set(self.keys.len() as int);
        assert(self@.dom() =~= self.key_set(self.keys.len() as int));
    }

    /// A map that holds nothing.
    pub fn new() -> (m: Self)
        ensures
            m@ == Map::<Seq<char>, V>::empty(),
    {
        let m = StringMap { keys: Vec::new(), values: Vec::new() };
        assert(m@ =~= Map::<Seq<char>, V>::empty());
        m
    }

    fn position(&self, key: &str) -> (r: Option<usize>)
        ensures
            match r {
                Some(i) => self.slot_of(key@) == Some(i as int) && i < self.keys.len(),
                None => self.slot_of(key@) is None,
            },
    {
        proof {
            use_type_invariant(self);
        }
        let mut i: usize = 0;
        while i < self.keys.len()
            invariant
                i <= self.keys.len(),
                self.inv(),
                forall|j: int| 0 <= j < i ==> #[trigger] self.keys[j]@ != key@,
            decreases self.keys.len() - i,
        {
            if str_eq(self.keys[i].as_str(), key) {
                proof {
                    self.lemma_slot(i as int);
                }
                return Some(i);
            }
            i += 1;
        }
        None
    }

    /// Whether a value is held under `key`.
    pub fn contains_key(&self, key: &str) -> (r: bool)
        ensures
            r == self@.contains_key(key@),
    {
        self.position(key).is_some()
    }

    /// The value held under `key`.
    pub fn get(&self, key: &str) -> (r: Option<&V>)
        ensures
            match r {
                Some(v) => self.spec_get(key@) == Some(*v),
                None => self.spec_get(key@) is None,
            },
    {
        proof {
            use_type_invariant(self);
        }
        match self.position(key) {
            Some(i) => Some(&self.values[i]),
            None => None,
        }
    }

    /// Puts `value` under `key`, in place of what was held there.
    pub fn insert(&mut self, key: String, value: V)
        ensures
            final(self)@ == old(self)@.insert(key@, value),
    {
        proof {
            use_type_invariant(&*self);
        }
        let found = self.position(key.as_str());
        let mut taken = StringMap { keys: Vec::new(), values: Vec::new() };
        core::mem::swap(self, &mut taken);
        let StringMap { mut keys, mut values } = taken;
        match found {
            Some(i) => {
                values.set(i, value);
                *self = StringMap { keys, values };
                proof {
                    assert forall|k: Seq<char>| self.slot_of(k) == old(self).slot_of(k) by {}
                    assert(self@ =~= old(self)@.insert(key@, value));
                }
            },
            None => {
                keys.push(key);
                values.push(value);
                *self = StringMap { keys, values };
                proof {
                    let n = old(self).keys.len() as int;
                    assert(self.inv()) by {
                        assert forall|i: int, j: int| 0 <= i < j < self.keys.len() implies
                            #[trigger] self.keys[i]@ != #[trigger] self.keys[j]@ by {
                            if j == n {
                                assert(old(self).keys[i]@ != key@);
                            }
                        }
                    }
                    self.lemma_slot(n);
                    assert forall|k: Seq<char>| k != key@ implies self.slot_of(k) == old(
                        self,
                    ).slot_of(k) by {
                        if old(self).slot_of(k) is Some {
                            let i = old(self).slot_of(k).unwrap();
                            self.lemma_slot(i);
                        } else if self.slot_of(k) is Some {
                            let i = self.slot_of(k).unwrap();
                            assert(old(self).keys[i]@ == k);
                        }
                    }
                    assert(self@ =~= old(self)@.insert(key@, value));
                }
            },
        }
    }

    fn take_slot(&mut self, i: usize) -> (r: (String, V))
        requires
            i < old(self).keys.len(),
        ensures
            old(self)@.contains_key(r.0@),
            old(self)@[r.0@] == r.1,
            r.0 == old(self).keys[i as int],
            final(self)@ == old(self)@.remove(r.0@),
    {
        proof {
            use_type_invariant(&*self);
        }
        let mut taken = StringMap { keys: Vec::new(), values: Vec::new() };
        core::mem::swap(self, &mut taken);
        let StringMap { mut keys, mut values } = taken;
        let key = keys.swap_remove(i);
        let value = values.swap_remove(i);
        *self = StringMap { keys, values };
        proof {
            let n = old(self).keys.len() as int;
            old(self).lemma_slot(i as int);
            assert(self.inv()) by {
                assert forall|a: int, b: int| 0 <= a < b < self.keys.len() implies
                    #[trigger] self.keys[a]@ != #[trigger] self.keys[b]@ by {
                    let a0 = if a == i { n - 1 } else { a };
                    let b0 = if b == i { n - 1 } else { b };
                    assert(self.keys[a] == old(self).keys[a0]);
                    assert(self.keys[b] == old(self).keys[b0]);
                    if a0 < b0 {
                        assert(old(self).keys[a0]@ != old(self).keys[b0]@);
                    } else {
                        assert(old(self).keys[b0]@ != old(self).keys[a0]@);
                    }
                }
            }
            assert forall|k: Seq<char>| k != key@ implies (self.slot_of(k) is Some <==> old(
                self,
            ).slot_of(k) is Some) && (self.slot_of(k) is Some ==> self.values[self.slot_of(
                k,
            ).unwrap()] == old(self).values[old(self).slot_of(k).unwrap()]) by {
                if old(self).slot_of(k) is Some {
                    let j = old(self).slot_of(k).unwrap();
                    let j1 = if j == n - 1 { i as int } else { j };
                    assert(self.keys[j1] == old(self).keys[j]);
                    self.lemma_slot(j1);
                } else if self.slot_of(k) is Some {
                    let j = self.slot_of(k).unwrap();
                    let j0 = if j == i { n - 1 } else { j };
                    assert(old(self).keys[j0]@ == k);
                }
            }
            assert(self.slot_of(key@) is None) by {
                if self.slot_of(key@) is Some {
                    let j = self.slot_of(key@).unwrap();
                    let j0 = if j == i { n - 1 } else { j };
                    assert(self.keys[j] == old(self).keys[j0]);
                    if j0 < i {
                        assert(old(self).keys[j0]@ != old(self).keys[i as int]@);
                    } else {
                        assert(old(self).keys[i as int]@ != old(self).keys[j0]@);
                    }
                }
            }
            assert(self@ =~= old(self)@.remove(key@));
        }
        (key, value)
    }

    /// Takes out the value held under `key`.
    pub fn remove(&mut self, key: &str) -> (r: Option<V>)
        ensures
            r == old(self).spec_get(key@),
            final(self)@ == old(self)@.remove(key@),
    {
        match self.position(key) {
            Some(i) => {
                let (_k, v) = self.take_slot(i);
                Some(v)
            },
            None => {
                assert(self@.remove(key@) =~= self@);
                None
            },
        }
    }

    /// The number of entries.
    pub fn len(&self) -> (r: usize)
        ensures
            self@.dom().finite(),
            r == self@.len(),
    {
        proof {
            use_type_invariant(self);
            self.lemma_dom();
        }
        self.keys.len()
    }

    /// The keys, each once, in no particular order.
    pub fn keys(&self) -> (r: Vec<String>)
        ensures
            forall|i: int| 0 <= i < r.len() ==> self@.contains_key(#[trigger] r[i]@),
            forall|k: Seq<char>|
                self@.contains_key(k) ==> exists|i: int| 0 <= i < r.len() && #[trigger] r[i]@ == k,
            forall|i: int, j: int|
                0 <= i < j < r.len() ==> #[trigger] r[i]@ != #[trigger] r[j]@,
    {
        proof {
            use_type_invariant(self);
        }
        let mut out: Vec<String> = Vec::new();
        let mut i: usize = 0;
        while i < self.keys.len()
            invariant
                i <= self.keys.len(),
                out@ == self.keys@.take(i as int),
            decreases self.keys.len() - i,
        {
            out.push(self.keys[i].clone());
            i += 1;
        }
        proof {
            assert(self.keys@.take(self.keys.len() as int) == self.keys@);
            assert forall|i: int| 0 <= i < out.len() implies self@.contains_key(
                #[trigger] out[i]@,
            ) by {
                self.lemma_slot(i);
            }
            assert forall|k: Seq<char>| self@.contains_key(k) implies exists|i: int|
                0 <= i < out.len() && #[trigger] out[i]@ == k by {
                let i = self.slot_of(k).unwrap();
                assert(out[i]@ == k);
            }
        }
        out
    }
}

impl<V: Clone> Clone for StringMap<V> {
    /// A map with the same keys, and under each key a clone of its value.
    fn clone(&self) -> (r: Self)
        ensures
            r@.dom() == self@.dom(),
            forall|k: Seq<char>| #[trigger] r@.contains_key(k) ==> cloned(self@[k], r@[k]),
    {
        proof {
            use_type_invariant(self);
        }
        let mut keys: Vec<String> = Vec::new();
        let mut values: Vec<V> = Vec::new();
        let mut i: usize = 0;
        while i < self.keys.len()
            invariant
                i <= self.keys.len(),
                self.keys.len() == self.values.len(),
                keys@ == self.keys@.take(i as int),
                values.len() == i,
                forall|j: int| 0 <= j < i ==> cloned(self.values[j], #[trigger] values[j]),
            decreases self.keys.len() - i,
        {
            keys.push(self.keys[i].clone());
            values.push(self.values[i].clone());
            i += 1;
        }
        assert(self.keys@.take(self.keys.len() as int) == self.keys@);
        let r = StringMap { keys, values };
        proof {
            assert forall|k: Seq<char>| r.slot_of(k) == self.slot_of(k) by {}
            assert(r@.dom() =~= self@.dom());
            assert forall|k: Seq<char>| #[trigger] r@.contains_key(k) implies cloned(
                self@[k],
                r@[k],
            ) by {
                let j = self.slot_of(k).unwrap();
                assert(cloned(self.values[j], r.values[j]));
            }
        }
        r
    }
}

/// The header fields of a SIP message, by lower-case name.
pub type Headers = StringMap<String>;

/// A copy of `v` that holds the same strings.
pub fn clone_strings(v: &Vec<String>) -> (r: Vec<String>)
    ensures
        r@ == v@,
{
    let mut out: Vec<String> = Vec::new();
    let mut i: usize = 0;
    while i < v.len()
        invariant
            i <= v.len(),
            out@ == v@.take(i as int),
        decreases v.len() - i,
    {
        out.push(v[i].clone());
        i += 1;
    }
    assert(v@.take(v.len() as int) == v@);
    out
}

/// A copy of `o` that holds the same string.
pub fn clone_opt_string(o: &Option<String>) -> (r: Option<String>)
    ensures
        r == *o,
{
    match o {
        Some(s) => Some(s.clone()),
        None => None,
    }
}

impl StringMap<String> {
    /// The map seen as one from names to texts.
    pub open spec fn texts(&self) -> Map<Seq<char>, Seq<char>> {
        Map::new(|k: Seq<char>| self@.contains_key(k), |k: Seq<char>| self@[k]@)
    }

    /// The text held under `k`, or the empty text.
    pub open spec fn text_or_empty(&self, k: Seq<char>) -> Seq<char> {
        if self@.contains_key(k) {
            self@[k]@
        } else {
            Seq::empty()
        }
    }

    proof fn lemma_texts_insert(self, key: Seq<char>, value: String)
        ensures
            Map::new(
                |k: Seq<char>| self@.insert(key, value).contains_key(k),
                |k: Seq<char>| self@.insert(key, value)[k]@,
            ) == self.texts().insert(key, value@),
    {
        assert(Map::new(
            |k: Seq<char>| self@.insert(key, value).contains_key(k),
            |k: Seq<char>| self@.insert(key, value)[k]@,
        ) =~= self.texts().insert(key, value@));
    }

    /// Puts the text `value` under `key`.
    pub fn put(&mut self, key: String, value: String)
        ensures
            final(self)@ == old(self)@.insert(key@, value),
            final(self).texts() == old(self).texts().insert(key@, value@),
    {
        proof {
            old(self).lemma_texts_insert(key@, value);
        }
        self.insert(key, value);
    }

    /// A copy of the text held under `key`.
    pub fn get_text(&self, key: &str) -> (r: Option<String>)
        ensures
            match r {
                Some(v) => self@.contains_key(key@) && v == self@[key@],
                None => !self@.contains_key(key@),
            },
    {
        match self.get(key) {
            Some(v) => Some(v.clone()),
            None => None,
        }
    }

    /// A copy of the text held under `key`, or an empty string.
    pub fn get_or_empty(&self, key: &str) -> (r: String)
        ensures
            r@ == self.text_or_empty(key@),
    {
        match self.get(key) {
            Some(v) => v.clone(),
            None => String::new(),
        }
    }

    /// A copy of the map.
    pub fn duplicate(&self) -> (r: Self)
        ensures
            r@ == self@,
    {
        proof {
            use_type_invariant(self);
        }
        let keys = clone_strings(&self.keys);
        let values = clone_strings(&self.values);
        let r = StringMap { keys, values };
        proof {
            assert forall|k: Seq<char>| r.slot_of(k) == self.slot_of(k) by {}
            assert(r@ =~= self@);
        }
        r
    }
}

} // verus!
