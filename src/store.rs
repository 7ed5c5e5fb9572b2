use vstd::prelude::*;

verus! {

/// Compares two byte strings element by element.
pub fn bytes_eq(a: &Vec<u8>, b: &Vec<u8>) -> (r: bool)
    ensures
        r == (a@ == b@),
{
    if a.len() != b.len() {
        return false;
    }
    let mut i: usize = 0;
    while i < a.len()
        invariant
            a@.len() == b@.len(),
            0 <= i <= a@.len(),
            forall|j: int| 0 <= j < i ==> a@[j] == b@[j],
        decreases a@.len() - i,
    {
        if a[i] != b[i] {
            return false;
        }
        i = i + 1;
    }
    assert(a@ =~= b@);
    true
}

/// Copies a byte string.
pub fn copy_bytes(a: &Vec<u8>) -> (r: Vec<u8>)
    ensures
        r@ == a@,
{
    let mut r: Vec<u8> = Vec::new();
    let mut i: usize = 0;
    while i < a.len()
        invariant
            0 <= i <= a@.len(),
            r@ == a@.subrange(0, i as int),
        decreases a@.len() - i,
    {
        r.push(a[i]);
        i = i + 1;
        assert(r@ =~= a@.subrange(0, i as int));
    }
    assert(a@.subrange(0, a@.len() as int) =~= a@);
    r
}

/// Taking a key out and putting it back with a value is the same as
/// setting it to that value.
pub proof fn lemma_remove_insert<K, V>(m: Map<K, V>, k: K, v: V)
    ensures
        m.remove(k).insert(k, v) == m.insert(k, v),
{
    assert(m.remove(k).insert(k, v) =~= m.insert(k, v));
}

/// A keyed collection of records whose keys are byte strings; each key
/// occurs at most once. Its model is a finite map from key bytes to records.
/// The keys sit in a `Vec` and are compared byte by byte, because vstd
/// specifies `HashMap` and `BTreeMap` lookups only for keys whose equality
/// and hashing or ordering it models, which byte-string keys are not.
pub struct Store<V> {
    keys: Vec<Vec<u8>>,
    vals: Vec<V>,
    model: Ghost<Map<Seq<u8>, V>>,
}

impl<V> View for Store<V> {
    type V = Map<Seq<u8>, V>;

    closed spec fn view(&self) -> Map<Seq<u8>, V> {
        self.model@
    }
}

impl<V> Store<V> {
    /// Keys are unique, and the two columns agree with the model map.
    pub closed spec fn wf(&self) -> bool {
        &&& self.keys@.len() == self.vals@.len()
        &&& forall|i: int|
            0 <= i < self.keys@.len() ==> {
                &&& self.model@.contains_key(#[trigger] self.keys@[i]@)
                &&& self.model@[self.keys@[i]@] == self.vals@[i]
            }
        &&& forall|k: Seq<u8>|
            #[trigger] self.model@.contains_key(k) ==> exists|i: int|
                0 <= i < self.keys@.len() && #[trigger] self.keys@[i]@ == k
        &&& forall|i: int, j: int|
            0 <= i < self.keys@.len() && 0 <= j < self.keys@.len() && i != j ==> #[trigger] self.keys@[i]@
                != #[trigger] self.keys@[j]@
    }

    pub fn new() -> (r: Self)
        ensures
            r.wf(),
            r@ == Map::<Seq<u8>, V>::empty(),
    {
        Store { keys: Vec::new(), vals: Vec::new(), model: Ghost(Map::empty()) }
    }

    /// Position of `key` in the columns, if present.
    fn find(&self, key: &Vec<u8>) -> (r: Option<usize>)
        requires
            self.wf(),
        ensures
            match r {
                Some(i) => i < self.keys@.len() && self.keys@[i as int]@ == key@,
                None => !self@.contains_key(key@),
            },
    {
        let mut i: usize = 0;
        while i < self.keys.len()
            invariant
                self.wf(),
                0 <= i <= self.keys@.len(),
                forall|j: int| 0 <= j < i ==> self.keys@[j]@ != key@,
            decreases self.keys@.len() - i,
        {
            if bytes_eq(&self.keys[i], key) {
                return Some(i);
            }
            i = i + 1;
        }
        proof {
            if self@.contains_key(key@) {
                let j = choose|j: int| 0 <= j < self.keys@.len() && #[trigger] self.keys@[j]@ == key@;
                assert(self.keys@[j]@ == key@);
            }
        }
        None
    }

    pub fn contains_key(&self, key: &Vec<u8>) -> (r: bool)
        requires
            self.wf(),
        ensures
            r == self@.contains_key(key@),
    {
        match self.find(key) {
            Some(i) => {
                assert(self@.contains_key(self.keys@[i as int]@));
                true
            },
            None => false,
        }
    }

    pub fn get(&self, key: &Vec<u8>) -> (r: Option<&V>)
        requires
            self.wf(),
        ensures
            match r {
                Some(v) => self@.contains_key(key@) && *v == self@[key@],
                None => !self@.contains_key(key@),
            },
    {
        match self.find(key) {
            Some(i) => {
                assert(self@.contains_key(self.keys@[i as int]@));
                Some(&self.vals[i])
            },
            None => None,
        }
    }

    /// Adds a record under a key that is not present yet.
    pub fn insert(&mut self, key: Vec<u8>, v: V)
        requires
            old(self).wf(),
            !old(self)@.contains_key(key@),
        ensures
            final(self).wf(),
            final(self)@ == old(self)@.insert(key@, v),
    {
        let ghost k = key@;
        let ghost old_keys = self.keys@;
        self.keys.push(key);
        self.vals.push(v);
        self.model = Ghost(self.model@.insert(k, v));
        proof {
            let n = old_keys.len() as int;
            assert(self.keys@[n]@ == k);
            assert forall|i: int| 0 <= i < n implies #[trigger] old_keys[i]@ != k by {
                assert(old(self).model@.contains_key(old_keys[i]@));
            }
            assert forall|k2: Seq<u8>| #[trigger] self.model@.contains_key(k2) implies exists|i: int|
                0 <= i < self.keys@.len() && #[trigger] self.keys@[i]@ == k2 by {
                if k2 != k {
                    let i = choose|i: int| 0 <= i < old_keys.len() && #[trigger] old_keys[i]@ == k2;
                    assert(self.keys@[i]@ == k2);
                } else {
                    assert(self.keys@[n]@ == k2);
                }
            }
        }
    }

    /// Removes the record under `key` and hands it back, if there is one.
    pub fn take(&mut self, key: &Vec<u8>) -> (r: Option<V>)
        requires
            old(self).wf(),
        ensures
            final(self).wf(),
            final(self)@ == old(self)@.remove(key@),
            match r {
                Some(v) => old(self)@.contains_key(key@) && v == old(self)@[key@],
                None => !old(self)@.contains_key(key@),
            },
    {
        match self.find(key) {
            None => {
                assert(self@.remove(key@) =~= self@);
                None
            },
            Some(i) => {
                let ghost k = key@;
                let ghost old_keys = self.keys@;
                let ghost old_vals = self.vals@;
                let ghost old_model = self.model@;
                let ghost n = old_keys.len() as int;
                proof {
                    assert(old_model.contains_key(old_keys[i as int]@));
                }
                let _ = self.keys.swap_remove(i);
                let v = self.vals.swap_remove(i);
                self.model = Ghost(old_model.remove(k));
                proof {
                    assert forall|j: int| 0 <= j < self.keys@.len() implies {
                        &&& self.model@.contains_key(#[trigger] self.keys@[j]@)
                        &&& self.model@[self.keys@[j]@] == self.vals@[j]
                    } by {
                        if j == i {
                            assert(self.keys@[j] == old_keys[n - 1]);
                            assert(old_model.contains_key(old_keys[n - 1]@));
                            assert(old_keys[n - 1]@ != old_keys[i as int]@);
                        } else {
                            assert(self.keys@[j] == old_keys[j]);
                            assert(old_model.contains_key(old_keys[j]@));
                            assert(old_keys[j]@ != old_keys[i as int]@);
                        }
                    }
                    assert forall|k2: Seq<u8>| #[trigger] self.model@.contains_key(k2) implies exists|j: int|
                        0 <= j < self.keys@.len() && #[trigger] self.keys@[j]@ == k2 by {
                        assert(old_model.contains_key(k2));
                        let j = choose|j: int| 0 <= j < n && #[trigger] old_keys[j]@ == k2;
                        if j == n - 1 {
                            assert(self.keys@[i as int]@ == k2);
                        } else {
                            assert(j != i);
                            assert(self.keys@[j]@ == k2);
                        }
                    }
                    assert forall|a: int, b: int|
                        0 <= a < self.keys@.len() && 0 <= b < self.keys@.len() && a != b implies #[trigger] self.keys@[a]@
                            != #[trigger] self.keys@[b]@ by {
                        let oa = if a == i { n - 1 } else { a };
                        let ob = if b == i { n - 1 } else { b };
                        assert(self.keys@[a] == old_keys[oa]);
                        assert(self.keys@[b] == old_keys[ob]);
                    }
                }
                Some(v)
            },
        }
    }
}

/// An index from account numbers to byte-string identifiers; each account
/// occurs at most once. It is laid out as `Store` is, so that both registries
/// rest on the same proof pattern.
pub struct AccountIndex {
    accounts: Vec<u64>,
    ids: Vec<Vec<u8>>,
    model: Ghost<Map<u64, Seq<u8>>>,
}

impl View for AccountIndex {
    type V = Map<u64, Seq<u8>>;

    closed spec fn view(&self) -> Map<u64, Seq<u8>> {
        self.model@
    }
}

impl AccountIndex {
    pub closed spec fn wf(&self) -> bool {
        &&& self.accounts@.len() == self.ids@.len()
        &&& forall|i: int|
            0 <= i < self.accounts@.len() ==> {
                &&& self.model@.contains_key(#[trigger] self.accounts@[i])
                &&& self.model@[self.accounts@[i]] == self.ids@[i]@
            }
        &&& forall|a: u64|
            #[trigger] self.model@.contains_key(a) ==> exists|i: int|
                0 <= i < self.accounts@.len() && #[trigger] self.accounts@[i] == a
    }

    pub fn new() -> (r: Self)
        ensures
            r.wf(),
            r@ == Map::<u64, Seq<u8>>::empty(),
    {
        AccountIndex { accounts: Vec::new(), ids: Vec::new(), model: Ghost(Map::empty()) }
    }

    pub fn get(&self, acc: u64) -> (r: Option<&Vec<u8>>)
        requires
            self.wf(),
        ensures
            match r {
                Some(id) => self@.contains_key(acc) && id@ == self@[acc],
                None => !self@.contains_key(acc),
            },
    {
        let mut i: usize = 0;
        while i < self.accounts.len()
            invariant
                self.wf(),
                0 <= i <= self.accounts@.len(),
                forall|j: int| 0 <= j < i ==> self.accounts@[j] != acc,
            decreases self.accounts@.len() - i,
        {
            if self.accounts[i] == acc {
                assert(self.model@.contains_key(self.accounts@[i as int]));
                return Some(&self.ids[i]);
            }
            i = i + 1;
        }
        None
    }

    pub fn contains_key(&self, acc: u64) -> (r: bool)
        requires
            self.wf(),
        ensures
            r == self@.contains_key(acc),
    {
        self.get(acc).is_some()
    }

    /// Adds an account that is not present yet.
    pub fn insert(&mut self, acc: u64, id: Vec<u8>)
        requires
            old(self).wf(),
            !old(self)@.contains_key(acc),
        ensures
            final(self).wf(),
            final(self)@ == old(self)@.insert(acc, id@),
    {
        let ghost old_accounts = self.accounts@;
        let ghost idv = id@;
        self.accounts.push(acc);
        self.ids.push(id);
        self.model = Ghost(self.model@.insert(acc, idv));
        proof {
            let n = old_accounts.len() as int;
            assert forall|i: int| 0 <= i < n implies #[trigger] old_accounts[i] != acc by {
                assert(old(self).model@.contains_key(old_accounts[i]));
            }
            assert forall|a: u64| #[trigger] self.model@.contains_key(a) implies exists|i: int|
                0 <= i < self.accounts@.len() && #[trigger] self.accounts@[i] == a by {
                if a != acc {
                    let i = choose|i: int| 0 <= i < n && #[trigger] old_accounts[i] == a;
                    assert(self.accounts@[i] == a);
                } else {
                    assert(self.accounts@[n] == a);
                }
            }
        }
    }
}

} // verus!
