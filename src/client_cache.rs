use vstd::prelude::*;

verus! {

/// The provider clients of the targets, keyed by the target's domain. A
/// client is made on the first request for its domain and then kept for
/// the life of the process.
pub struct ClientCache<C> {
    keys: Vec<String>,
    clients: Vec<C>,
}

/// The map that the first `n` entries of a cache stand for.
pub open spec fn entries_map<C>(keys: Seq<String>, clients: Seq<C>, n: nat) -> Map<Seq<char>, C>
    decreases n,
{
    if n == 0 {
        Map::empty()
    } else {
        entries_map(keys, clients, (n - 1) as nat).insert(keys[n - 1]@, clients[n - 1])
    }
}

/// The cache after a request for `key` that would make `made` on a miss.
pub open spec fn cache_after<C>(m: Map<Seq<char>, C>, key: Seq<char>, made: C) -> Map<Seq<char>, C> {
    if m.contains_key(key) {
        m
    } else {
        m.insert(key, made)
    }
}

/// A request for `key` makes a new client.
pub open spec fn builds<C>(m: Map<Seq<char>, C>, key: Seq<char>) -> bool {
    !m.contains_key(key)
}

proof fn lemma_entries_map<C>(keys: Seq<String>, clients: Seq<C>, n: nat)
    requires
        n <= keys.len(),
        n <= clients.len(),
        forall|i: int, j: int| 0 <= i < j < n ==> keys[i]@ != keys[j]@,
    ensures
        forall|k: Seq<char>| #[trigger] entries_map(keys, clients, n).contains_key(k) <==> exists|i: int|
            0 <= i < n && keys[i]@ == k,
        forall|i: int| 0 <= i < n ==> entries_map(keys, clients, n)[#[trigger] keys[i]@] == clients[i],
    decreases n,
{
    if n > 0 {
        lemma_entries_map(keys, clients, (n - 1) as nat);
        let m = entries_map(keys, clients, n);
        assert forall|k: Seq<char>| #[trigger] m.contains_key(k) implies exists|i: int| 0 <= i < n && keys[i]@ == k by {
            if k == keys[n - 1]@ {
                assert(keys[n - 1]@ == k);
            } else {
                assert(entries_map(keys, clients, (n - 1) as nat).contains_key(k));
                let i = choose|i: int| 0 <= i < n - 1 && keys[i]@ == k;
                assert(keys[i]@ == k);
            }
        }
        assert forall|k: Seq<char>| (exists|i: int| 0 <= i < n && keys[i]@ == k) implies #[trigger] m.contains_key(k) by {
            let i = choose|i: int| 0 <= i < n && keys[i]@ == k;
            if i < n - 1 {
                assert(entries_map(keys, clients, (n - 1) as nat).contains_key(keys[i]@));
            }
        }
    }
}

impl<C> View for ClientCache<C> {
    type V = Map<Seq<char>, C>;

    closed spec fn view(&self) -> Map<Seq<char>, C> {
        entries_map(self.keys@, self.clients@, self.keys@.len())
    }
}

impl<C> ClientCache<C> {
    /// One client per key, each key once.
    pub closed spec fn wf(&self) -> bool {
        &&& self.keys@.len() == self.clients@.len()
        &&& forall|i: int, j: int| 0 <= i < j < self.keys@.len() ==> self.keys@[i]@ != self.keys@[j]@
    }

    /// An empty cache.
    pub fn new() -> (r: Self)
        ensures
            r.wf(),
            r@ == Map::<Seq<char>, C>::empty(),
    {
        ClientCache { keys: Vec::new(), clients: Vec::new() }
    }

    fn position(&self, key: &str) -> (r: Option<usize>)
        requires
            self.wf(),
        ensures
            r matches Some(i) ==> i < self.keys@.len() && self.keys@[i as int]@ == key@,
            r is None ==> forall|i: int| 0 <= i < self.keys@.len() ==> self.keys@[i]@ != key@,
    {
        let wanted = String::from_str(key);
        let mut i: usize = 0;
        while i < self.keys.len()
            invariant
                wanted@ == key@,
                i <= self.keys@.len(),
                forall|j: int| 0 <= j < i ==> self.keys@[j]@ != key@,
            decreases self.keys@.len() - i,
        {
            if self.keys[i] == wanted {
                return Some(i);
            }
            i = i + 1;
        }
        None
    }

    /// The client kept for `key`, if one was made.
    pub fn get(&self, key: &str) -> (r: Option<&C>)
        requires
            self.wf(),
        ensures
            r is Some <==> self@.contains_key(key@),
            r matches Some(c) ==> *c == self@[key@],
    {
        proof {
            lemma_entries_map(self.keys@, self.clients@, self.keys@.len());
        }
        match self.position(key) {
            Some(i) => Some(&self.clients[i]),
            None => None,
        }
    }

    /// Makes sure that a client is kept for `key`: on the first request for
    /// the key, `make` is called once and its client kept; on a later one,
    /// nothing is made. Tells whether a client was made.
    pub fn get_client<F: FnOnce() -> C>(&mut self, key: &str, make: F) -> (built: bool)
        requires
            old(self).wf(),
            builds(old(self)@, key@) ==> make.requires(()),
        ensures
            final(self).wf(),
            built == builds(old(self)@, key@),
            final(self)@ == cache_after(old(self)@, key@, final(self)@[key@]),
            final(self)@.contains_key(key@),
            !built ==> final(self)@[key@] == old(self)@[key@],
            built ==> make.ensures((), final(self)@[key@]),
    {
        proof {
            lemma_entries_map(self.keys@, self.clients@, self.keys@.len());
        }
        match self.position(key) {
            Some(_) => false,
            None => {
                let client = make();
                let ghost old_keys = self.keys@;
                let ghost old_clients = self.clients@;
                self.keys.push(String::from_str(key));
                self.clients.push(client);
                proof {
                    let n = self.keys@.len();
                    assert(self.keys@.subrange(0, n - 1) =~= old_keys);
                    assert forall|i: int| 0 <= i < n - 1 implies self.keys@[i] == old_keys[i] by {}
                    assert(entries_map(self.keys@, self.clients@, (n - 1) as nat) == entries_map(
                        old_keys,
                        old_clients,
                        (n - 1) as nat,
                    )) by {
                        lemma_entries_prefix(self.keys@, self.clients@, old_keys, old_clients, (n - 1) as nat);
                    }
                }
                true
            },
        }
    }
}

proof fn lemma_entries_prefix<C>(k1: Seq<String>, c1: Seq<C>, k2: Seq<String>, c2: Seq<C>, n: nat)
    requires
        n <= k1.len(),
        n <= k2.len(),
        n <= c1.len(),
        n <= c2.len(),
        forall|i: int| 0 <= i < n ==> k1[i] == k2[i] && c1[i] == c2[i],
    ensures
        entries_map(k1, c1, n) == entries_map(k2, c2, n),
    decreases n,
{
    if n > 0 {
        lemma_entries_prefix(k1, c1, k2, c2, (n - 1) as nat);
    }
}

/// A client is made at most once per key: after one request for `key`, a
/// second request for it makes nothing and leaves the cache, and the
/// client kept for `key`, as the first left them.
pub proof fn lemma_client_built_once<C>(m: Map<Seq<char>, C>, key: Seq<char>, first: C, second: C)
    ensures
        !builds(cache_after(m, key, first), key),
        cache_after(cache_after(m, key, first), key, second) == cache_after(m, key, first),
{
}

} // verus!
