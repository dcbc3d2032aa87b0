//! The connection registry and shard selectors: an insertion-ordered
//! mapping from shard address to a reusable handle, created lazily on first
//! access, and deterministic or random selection over it. The registry's
//! order is kept by an `indexmap::IndexMap` behind trusted wrappers; the
//! handle stands for one transport-level connection, which the unverified
//! layer around the library attaches by the handle's stable id.

use vstd::prelude::*;

use crate::status::{spec_reduce, reduce_statuses, ShardStatus};

verus! {

#[verifier::external_type_specification]
#[verifier::external_body]
#[verifier::reject_recursive_types(K)]
#[verifier::reject_recursive_types(V)]
#[verifier::reject_recursive_types(S)]
pub struct ExIndexMap<K, V, S>(indexmap::IndexMap<K, V, S>);

/// The entries a registry map holds, in insertion order: each shard address
/// with the value stored for it.
pub uninterp spec fn imap_entries(m: indexmap::IndexMap<String, usize>) -> Seq<(Seq<char>, usize)>;

/// Relies on indexmap::IndexMap::new: creates an empty map.
#[verifier::external_body]
fn imap_new() -> (m: indexmap::IndexMap<String, usize>)
    ensures
        imap_entries(m) == Seq::<(Seq<char>, usize)>::empty(),
{
    indexmap::IndexMap::new()
}

/// Relies on indexmap::IndexMap::len: the number of entries.
#[verifier::external_body]
fn imap_len(m: &indexmap::IndexMap<String, usize>) -> (n: usize)
    ensures
        n == imap_entries(*m).len(),
{
    m.len()
}

/// Relies on indexmap::IndexMap::get_index_of: the position of the given
/// key in insertion order if it is present, and `None` exactly when no
/// entry has that key.
#[verifier::external_body]
fn imap_get_index_of(m: &indexmap::IndexMap<String, usize>, key: &str) -> (r: Option<usize>)
    ensures
        match r {
            Some(i) => i < imap_entries(*m).len() && imap_entries(*m)[i as int].0 == key@,
            None => forall|j: int|
                0 <= j < imap_entries(*m).len() ==> (#[trigger] imap_entries(*m)[j]).0 != key@,
        },
{
    m.get_index_of(key)
}

/// Relies on indexmap::IndexMap::get_index: the entry at the given position
/// in insertion order, if the position is in range; the key is handed back
/// cloned.
#[verifier::external_body]
fn imap_get_index(m: &indexmap::IndexMap<String, usize>, index: usize) -> (r: Option<
    (String, usize),
>)
    ensures
        match r {
            Some(e) => index < imap_entries(*m).len() && e.0@ == imap_entries(*m)[index as int].0
                && e.1 == imap_entries(*m)[index as int].1,
            None => index >= imap_entries(*m).len(),
        },
{
    m.get_index(index).map(|(k, v)| (k.clone(), *v))
}

/// Relies on indexmap::IndexMap::insert: a key that is not yet present is
/// inserted last in insertion order, with its value.
#[verifier::external_body]
fn imap_insert_new(m: &mut indexmap::IndexMap<String, usize>, key: String, value: usize)
    requires
        forall|j: int|
            0 <= j < imap_entries(*old(m)).len() ==> (#[trigger] imap_entries(*old(m))[j]).0
                != key@,
    ensures
        imap_entries(*final(m)) == imap_entries(*old(m)).push((key@, value)),
{
    m.insert(key, value);
}

/// Relies on rand::random: draws one arbitrary 64-bit word; nothing is
/// assumed of its value.
#[verifier::external_body]
fn random_usize() -> usize {
    rand::random::<u64>() as usize
}

/// One reusable connection handle: the shard's network address and the
/// shard's stable position in the registry. The layer around the library
/// maps `id` to the transport-level connection it keeps for that address.
#[derive(Debug, Clone, PartialEq, Eq)]
pub struct ShardHandle {
    pub middleware_addr: String,
    pub id: usize,
}

/// `true` iff no two positions of `addrs` hold the same address.
pub open spec fn distinct_addrs(addrs: Seq<Seq<char>>) -> bool {
    forall|i: int, j: int| 0 <= i < j < addrs.len() ==> addrs[i] != addrs[j]
}

/// What registering `a` leaves of the address list: unchanged when `a` is
/// already known, extended by `a` at the end otherwise.
pub open spec fn spec_register(addrs: Seq<Seq<char>>, a: Seq<char>) -> Seq<Seq<char>> {
    if addrs.contains(a) {
        addrs
    } else {
        addrs.push(a)
    }
}

/// The coordination client: the registry of per-shard connection handles,
/// keyed by address, in insertion order.
pub struct PersiaRpcClient {
    pub clients: indexmap::IndexMap<String, usize>,
}

impl PersiaRpcClient {
    /// The registry's addresses, in insertion order.
    pub open spec fn addrs(&self) -> Seq<Seq<char>> {
        Seq::new(
            imap_entries(self.clients).len(),
            |i: int| imap_entries(self.clients)[i].0,
        )
    }

    /// Each entry's value is its own position, and no address occurs twice.
    pub open spec fn wf(&self) -> bool {
        &&& forall|i: int|
            0 <= i < imap_entries(self.clients).len() ==> (#[trigger] imap_entries(
                self.clients,
            )[i]).1 == i
        &&& distinct_addrs(self.addrs())
    }

    /// An empty registry.
    pub fn new() -> (c: Self)
        ensures
            c.wf(),
            c.addrs() == Seq::<Seq<char>>::empty(),
    {
        let c = PersiaRpcClient { clients: imap_new() };
        proof {
            assert(c.addrs() =~= Seq::<Seq<char>>::empty());
        }
        c
    }

    /// The number of shards currently known.
    pub fn num_clients(&self) -> (n: usize)
        ensures
            n == self.addrs().len(),
    {
        imap_len(&self.clients)
    }

    /// Returns the handle for the shard at position `client_index`.
    pub fn get_client_by_index(&self, client_index: usize) -> (h: ShardHandle)
        requires
            self.wf(),
            client_index < self.addrs().len(),
        ensures
            h.id == client_index,
            h.middleware_addr@ == self.addrs()[client_index as int],
    {
        match imap_get_index(&self.clients, client_index) {
            Some(e) => ShardHandle { middleware_addr: e.0, id: client_index },
            None => vstd::pervasive::unreached(),
        }
    }

    /// Returns the handle for the first shard, the authoritative target of
    /// a dump.
    pub fn get_first_client(&self) -> (h: ShardHandle)
        requires
            self.wf(),
            self.addrs().len() > 0,
        ensures
            h.id == 0,
            h.middleware_addr@ == self.addrs()[0],
    {
        self.get_client_by_index(0)
    }

    /// Returns some currently known shard's address with its handle, chosen
    /// uniformly over the shard count at call time.
    pub fn get_random_client_with_addr(&self) -> (r: (String, ShardHandle))
        requires
            self.wf(),
            self.addrs().len() > 0,
        ensures
            r.1.id < self.addrs().len(),
            r.1.middleware_addr@ == self.addrs()[r.1.id as int],
            r.0@ == r.1.middleware_addr@,
    {
        let n = imap_len(&self.clients);
        let client_idx = random_usize() % n;
        let h = self.get_client_by_index(client_idx);
        let addr = h.middleware_addr.clone();
        (addr, h)
    }

    /// Returns some currently known shard's handle, chosen uniformly over
    /// the shard count at call time.
    pub fn get_random_client(&self) -> (h: ShardHandle)
        requires
            self.wf(),
            self.addrs().len() > 0,
        ensures
            h.id < self.addrs().len(),
            h.middleware_addr@ == self.addrs()[h.id as int],
    {
        self.get_random_client_with_addr().1
    }

    /// Returns the handle for `middleware_addr`: the existing one if the
    /// address is known, else a newly created handle stored at the end of
    /// the registry. Idempotent: one address yields one handle, whose
    /// position never changes afterwards.
    pub fn get_client_by_addr(&mut self, middleware_addr: &str) -> (h: ShardHandle)
        requires
            old(self).wf(),
        ensures
            final(self).wf(),
            final(self).addrs() == spec_register(old(self).addrs(), middleware_addr@),
            h.middleware_addr@ == middleware_addr@,
            h.id < final(self).addrs().len(),
            final(self).addrs()[h.id as int] == middleware_addr@,
    {
        match imap_get_index_of(&self.clients, middleware_addr) {
            Some(i) => {
                proof {
                    assert(self.addrs()[i as int] == middleware_addr@);
                    assert(self.addrs().contains(middleware_addr@));
                }
                ShardHandle { middleware_addr: middleware_addr.to_owned(), id: i }
            },
            None => {
                proof {
                    assert forall|j: int| 0 <= j < self.addrs().len() implies self.addrs()[j]
                        != middleware_addr@ by {
                        assert(imap_entries(self.clients)[j].0 != middleware_addr@);
                    }
                    assert(!self.addrs().contains(middleware_addr@));
                }
                let ghost prev = *self;
                let id = imap_len(&self.clients);
                imap_insert_new(&mut self.clients, middleware_addr.to_owned(), id);
                proof {
                    assert(self.addrs() =~= prev.addrs().push(middleware_addr@));
                }
                ShardHandle { middleware_addr: middleware_addr.to_owned(), id }
            },
        }
    }

    /// The status reducer over one poll cycle's statuses; see
    /// [`reduce_statuses`].
    pub fn process_status(&self, status: Vec<ShardStatus>) -> (r: Result<usize, String>)
        ensures
            match r {
                Ok(c) => spec_reduce(status@) == Result::<nat, Seq<char>>::Ok(c as nat),
                Err(m) => spec_reduce(status@) == Result::<nat, Seq<char>>::Err(m@),
            },
    {
        reduce_statuses(&status)
    }
}

/// Registering an address twice is the same as registering it once: after
/// the first access created the handle, every later access leaves the
/// registry unchanged.
pub proof fn lemma_register_idempotent(addrs: Seq<Seq<char>>, a: Seq<char>)
    ensures
        spec_register(spec_register(addrs, a), a) == spec_register(addrs, a),
{
    if !addrs.contains(a) {
        assert(addrs.push(a).contains(a)) by {
            assert(addrs.push(a)[addrs.len() as int] == a);
        }
    }
}

/// Registering never moves an existing entry: a shard's position, and so
/// its handle, is stable for the registry's lifetime.
pub proof fn lemma_register_keeps_positions(addrs: Seq<Seq<char>>, a: Seq<char>, i: int)
    requires
        0 <= i < addrs.len(),
    ensures
        addrs.len() <= spec_register(addrs, a).len(),
        spec_register(addrs, a)[i] == addrs[i],
{
}

/// In a registry whose addresses are distinct — as every reachable registry
/// is — an address determines its position: one address never yields two
/// different handles.
pub proof fn lemma_handle_unique(addrs: Seq<Seq<char>>, a: Seq<char>, i: int, j: int)
    requires
        distinct_addrs(addrs),
        0 <= i < addrs.len(),
        0 <= j < addrs.len(),
        addrs[i] == a,
        addrs[j] == a,
    ensures
        i == j,
{
    if i < j {
        assert(addrs[i] != addrs[j]);
    } else if j < i {
        assert(addrs[j] != addrs[i]);
    }
}

} // verus!
