use vstd::prelude::*;

verus! {

/// Whether `key` is the text of one of `keys`.
pub open spec fn has_key(keys: Seq<String>, key: Seq<char>) -> bool {
    exists|i: int| 0 <= i < keys.len() && (#[trigger] keys[i])@ == key
}

/// A position of `key` among `keys`; the only one when the keys are distinct.
pub open spec fn key_index(keys: Seq<String>, key: Seq<char>) -> int {
    choose|i: int| 0 <= i < keys.len() && (#[trigger] keys[i])@ == key
}

/// No text occurs twice among `keys`.
pub open spec fn distinct_keys(keys: Seq<String>) -> bool {
    forall|i: int, j: int|
        0 <= i < j < keys.len() ==> (#[trigger] keys[i])@ != (#[trigger] keys[j])@
}

/// Among distinct keys, the key found at `i` is found nowhere else.
pub proof fn lemma_key_at(keys: Seq<String>, i: int)
    requires
        distinct_keys(keys),
        0 <= i < keys.len(),
    ensures
        has_key(keys, keys[i]@),
        key_index(keys, keys[i]@) == i,
{
    let k = keys[i]@;
    let j = key_index(keys, k);
    assert(j == i);
}

/// Appending a key that was absent keeps the keys distinct, keeps every old
/// key where it was, and puts the new one last.
pub proof fn lemma_key_push(keys: Seq<String>, key: String)
    requires
        distinct_keys(keys),
        !has_key(keys, key@),
    ensures
        distinct_keys(keys.push(key)),
        has_key(keys.push(key), key@),
        key_index(keys.push(key), key@) == keys.len(),
        forall|k: Seq<char>|
            has_key(keys, k) ==> has_key(keys.push(key), k) && key_index(keys.push(key), k)
                == key_index(keys, k),
        forall|k: Seq<char>| has_key(keys.push(key), k) ==> has_key(keys, k) || k == key@,
{
    let after = keys.push(key);
    lemma_key_at(after, keys.len() as int);
    assert forall|k: Seq<char>| has_key(keys, k) implies has_key(after, k) && key_index(after, k)
        == key_index(keys, k) by {
        let i = key_index(keys, k);
        lemma_key_at(after, i);
    }
}

/// `keys` after the entry at `i` is taken out and the last entry moved into
/// its place.
pub open spec fn swap_removed<A>(items: Seq<A>, i: int) -> Seq<A> {
    items.update(i, items.last()).drop_last()
}

/// Taking one key out of distinct keys leaves the others, still distinct.
pub proof fn lemma_key_swap_remove(keys: Seq<String>, i: int)
    requires
        distinct_keys(keys),
        0 <= i < keys.len(),
    ensures
        distinct_keys(swap_removed(keys, i)),
        !has_key(swap_removed(keys, i), keys[i]@),
        forall|k: Seq<char>| k != keys[i]@ ==> (has_key(swap_removed(keys, i), k) <==> has_key(keys, k)),
        forall|k: Seq<char>|
            k != keys[i]@ && has_key(keys, k) ==> key_index(swap_removed(keys, i), k) == (if key_index(
                keys,
                k,
            ) == keys.len() - 1 {
                i
            } else {
                key_index(keys, k)
            }),
{
    let after = swap_removed(keys, i);
    let last = keys.len() - 1;
    let gone = keys[i]@;
    assert forall|k: Seq<char>| k != gone implies (has_key(after, k) <==> has_key(keys, k)) by {
        if has_key(keys, k) {
            let j = key_index(keys, k);
            let dj = if j == last { i } else { j };
            assert(after[dj] == keys[j]);
        }
    }
}

/// Position of `key` among `keys`, if it is there.
pub fn find_key(keys: &Vec<String>, key: &String) -> (r: Option<usize>)
    requires
        distinct_keys(keys@),
    ensures
        match r {
            Some(i) => has_key(keys@, key@) && i == key_index(keys@, key@) && i < keys@.len()
                && keys@[i as int]@ == key@,
            None => !has_key(keys@, key@),
        },
{
    let n = keys.len();
    let mut i: usize = 0;
    while i < n
        invariant
            n == keys@.len(),
            i <= n,
            distinct_keys(keys@),
            forall|j: int| 0 <= j < i ==> (#[trigger] keys@[j])@ != key@,
        decreases n - i,
    {
        if keys[i] == *key {
            return Some(i);
        }
        i = i + 1;
    }
    None
}

/// A list of values, each under a key of its own.
#[derive(Clone, Debug, PartialEq, Eq)]
pub struct Table<V> {
    pub keys: Vec<String>,
    pub vals: Vec<V>,
}

impl<V> Table<V> {
    /// One value per key, and no key twice.
    pub open spec fn wf(&self) -> bool {
        &&& self.keys.len() == self.vals.len()
        &&& distinct_keys(self.keys@)
    }

    /// Whether a value stands under `key`.
    pub open spec fn has(&self, key: Seq<char>) -> bool {
        has_key(self.keys@, key)
    }

    /// Where `key` stands.
    pub open spec fn index_of(&self, key: Seq<char>) -> int {
        key_index(self.keys@, key)
    }

    /// The value under `key`, if there is one.
    pub open spec fn get(&self, key: Seq<char>) -> Option<V> {
        if self.has(key) {
            Some(self.vals[self.index_of(key)])
        } else {
            None
        }
    }

    /// A table without entries.
    pub fn new() -> (t: Self)
        ensures
            t.wf(),
            t.keys@.len() == 0,
            t.vals@.len() == 0,
    {
        Table { keys: Vec::new(), vals: Vec::new() }
    }

    /// Number of entries.
    pub fn len(&self) -> (n: usize)
        requires
            self.wf(),
        ensures
            n == self.keys@.len(),
            n == self.vals@.len(),
    {
        self.keys.len()
    }

    /// Position of `key`, if it is present.
    pub fn find(&self, key: &String) -> (r: Option<usize>)
        requires
            self.wf(),
        ensures
            match r {
                Some(i) => self.has(key@) && i == self.index_of(key@) && i < self.keys@.len()
                    && self.keys@[i as int]@ == key@,
                None => !self.has(key@),
            },
    {
        find_key(&self.keys, key)
    }

    /// Appends `val` under `key`, which must be absent, and returns its
    /// position.
    pub fn insert(&mut self, key: String, val: V) -> (i: usize)
        requires
            old(self).wf(),
            !old(self).has(key@),
        ensures
            final(self).wf(),
            i == old(self).keys@.len(),
            final(self).keys@ == old(self).keys@.push(key),
            final(self).vals@ == old(self).vals@.push(val),
    {
        let i = self.keys.len();
        self.keys.push(key);
        self.vals.push(val);
        i
    }

    /// Takes out the entry at `i`; the last entry moves into its place.
    pub fn swap_remove(&mut self, i: usize) -> (val: V)
        requires
            old(self).wf(),
            i < old(self).keys@.len(),
        ensures
            final(self).wf(),
            val == old(self).vals@[i as int],
            final(self).keys@ == swap_removed(old(self).keys@, i as int),
            final(self).vals@ == swap_removed(old(self).vals@, i as int),
            !final(self).has(old(self).keys@[i as int]@),
            forall|k: Seq<char>|
                k != old(self).keys@[i as int]@ ==> final(self).get(k) == old(self).get(k),
    {
        let ghost before = *self;
        self.keys.swap_remove(i);
        let val = self.vals.swap_remove(i);
        proof {
            let bk = before.keys@;
            lemma_key_swap_remove(bk, i as int);
        }
        val
    }
}

} // verus!
