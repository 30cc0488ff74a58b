use vstd::prelude::*;

verus! {

/// The mapping from recipient mailboxes to destinations. Each mailbox appears
/// once; a later entry for a mailbox replaces the earlier one.
pub struct DestMap<D> {
    keys: Vec<String>,
    dests: Vec<D>,
}

impl<D> DestMap<D> {
    /// The mailboxes, in the order they were first added.
    pub closed spec fn spec_keys(&self) -> Seq<Seq<char>> {
        self.keys@.map_values(|k: String| k@)
    }

    /// The destinations, position for position with the mailboxes.
    pub closed spec fn spec_dests(&self) -> Seq<D> {
        self.dests@
    }

    pub open spec fn wf(&self) -> bool {
        &&& self.spec_keys().len() == self.spec_dests().len()
        &&& self.spec_keys().no_duplicates()
    }

    /// The position of `addr` among the mailboxes, if it is mapped.
    pub open spec fn position_of(&self, addr: Seq<char>) -> Option<int> {
        if exists|i: int| 0 <= i < self.spec_keys().len() && self.spec_keys()[i] == addr {
            Some(choose|i: int| 0 <= i < self.spec_keys().len() && self.spec_keys()[i] == addr)
        } else {
            None
        }
    }

    /// The destination that `addr` is mapped to, if any.
    pub open spec fn lookup(&self, addr: Seq<char>) -> Option<D> {
        match self.position_of(addr) {
            Some(i) => Some(self.spec_dests()[i]),
            None => None,
        }
    }

    /// An empty mapping.
    pub fn new() -> (r: Self)
        ensures
            r.wf(),
            r.spec_keys().len() == 0,
            forall|a: Seq<char>| #[trigger] r.lookup(a) is None,
    {
        let r = DestMap { keys: Vec::new(), dests: Vec::new() };
        proof {
            assert(r.spec_keys() =~= Seq::<Seq<char>>::empty());
        }
        r
    }

    /// The number of mapped mailboxes.
    pub fn len(&self) -> (r: usize)
        requires
            self.wf(),
        ensures
            r == self.spec_keys().len(),
    {
        self.keys.len()
    }

    /// The position of `addr` among the mailboxes.
    pub fn position(&self, addr: &String) -> (r: Option<usize>)
        requires
            self.wf(),
        ensures
            r matches Some(i) ==> self.position_of(addr@) == Some(i as int),
            r is None ==> self.position_of(addr@) is None,
    {
        let mut i: usize = 0;
        while i < self.keys.len()
            invariant
                self.wf(),
                0 <= i <= self.keys@.len(),
                self.keys@.len() == self.spec_keys().len(),
                forall|j: int| 0 <= j < i ==> self.spec_keys()[j] != addr@,
            decreases self.keys@.len() - i,
        {
            if self.keys[i] == *addr {
                proof {
                    let k = self.spec_keys();
                    assert(k[i as int] == addr@);
                    let c = choose|j: int| 0 <= j < k.len() && k[j] == addr@;
                    assert(k[c] == k[i as int]);
                }
                return Some(i);
            }
            i = i + 1;
        }
        None
    }

    /// The destination that `addr` is mapped to, if any.
    pub fn get(&self, addr: &String) -> (r: Option<&D>)
        requires
            self.wf(),
        ensures
            r matches Some(d) ==> self.lookup(addr@) == Some(*d),
            r is None ==> self.lookup(addr@) is None,
    {
        match self.position(addr) {
            Some(i) => Some(&self.dests[i]),
            None => None,
        }
    }

    /// Maps `addr` to `dest`, replacing what it was mapped to before.
    pub fn insert(&mut self, addr: String, dest: D)
        requires
            old(self).wf(),
        ensures
            final(self).wf(),
            final(self).lookup(addr@) == Some(dest),
            forall|a: Seq<char>| a != addr@ ==> #[trigger] final(self).lookup(a) == old(self).lookup(a),
    {
        match self.position(&addr) {
            Some(i) => {
                let ghost before = self.spec_keys();
                self.dests.set(i, dest);
                assert(self.spec_keys() == before);
                assert forall|a: Seq<char>| a != addr@ implies #[trigger] self.lookup(a) == old(self).lookup(a) by {
                    if let Some(j) = self.position_of(a) {
                        assert(self.spec_keys()[j] == a);
                        assert(j != i);
                    }
                }
            },
            None => {
                let ghost before = self.spec_keys();
                self.keys.push(addr);
                self.dests.push(dest);
                assert(self.spec_keys() =~= before.push(addr@));
                let ghost n = before.len() as int;
                assert(self.spec_keys()[n] == addr@);
                assert(self.spec_keys().no_duplicates());
                assert forall|a: Seq<char>| a != addr@ implies #[trigger] self.lookup(a) == old(self).lookup(a) by {
                    if exists|j: int| 0 <= j < before.len() && before[j] == a {
                        let j = choose|j: int| 0 <= j < before.len() && before[j] == a;
                        assert(self.spec_keys()[j] == a);
                    }
                    if let Some(j) = self.position_of(a) {
                        assert(j != n);
                        assert(before[j] == a);
                    }
                }
                assert(self.lookup(addr@) == Some(dest)) by {
                    assert(self.spec_keys()[n] == addr@);
                    let c = choose|j: int| 0 <= j < self.spec_keys().len() && self.spec_keys()[j] == addr@;
                    assert(c == n);
                }
            },
        }
    }

    /// For each recipient in order, the position of its destination, or `None`
    /// where it has none: every recipient is looked up, and one without a
    /// destination does not hide those after it.
    pub fn route(&self, to: &Vec<String>) -> (r: Vec<Option<usize>>)
        requires
            self.wf(),
        ensures
            r@.len() == to@.len(),
            forall|i: int|
                0 <= i < to@.len() ==> match #[trigger] r@[i] {
                    Some(p) => self.position_of(to@[i]@) == Some(p as int),
                    None => self.position_of(to@[i]@) is None,
                },
    {
        let mut out: Vec<Option<usize>> = Vec::new();
        let mut i: usize = 0;
        while i < to.len()
            invariant
                self.wf(),
                i <= to@.len(),
                out@.len() == i,
                forall|j: int|
                    0 <= j < i ==> match #[trigger] out@[j] {
                        Some(p) => self.position_of(to@[j]@) == Some(p as int),
                        None => self.position_of(to@[j]@) is None,
                    },
            decreases to@.len() - i,
        {
            let p = self.position(&to[i]);
            out.push(p);
            i = i + 1;
        }
        out
    }

    /// The destination at position `i`.
    pub fn dest_at(&self, i: usize) -> (r: &D)
        requires
            self.wf(),
            i < self.spec_keys().len(),
        ensures
            *r == self.spec_dests()[i as int],
    {
        &self.dests[i]
    }
}

} // verus!
