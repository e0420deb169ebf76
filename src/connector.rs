//! The backend connector and the table of per-backend clients.
use vstd::prelude::*;
use crate::target::{host_addr, opt_view, resolve, Address, LiteralParses};

verus! {

/// Why a connect call was refused before any backend was contacted.
#[derive(Clone, Copy, Debug, PartialEq, Eq)]
pub enum ConnectError {
    /// The request URI names no destination.
    InvalidUri,
}

/// Opens tunnels through one backend server `S`. It does no work when made
/// and is always ready; each call first settles the destination.
#[derive(Clone, Debug)]
pub struct ShadowSocksConnector<S> {
    pub server: S,
}

impl<S> ShadowSocksConnector<S> {
    pub fn new(server: S) -> (r: ShadowSocksConnector<S>)
        ensures
            r.server == server,
    {
        ShadowSocksConnector { server }
    }

    /// The connector takes work at once.
    pub fn poll_ready(&self) -> (r: bool)
        ensures
            r,
    {
        true
    }

    /// The destination of a connect call made with a request URI: the URI
    /// resolved as a proxy request target, or `InvalidUri` when it names
    /// none.
    pub fn uri_destination(
        &self,
        scheme: Option<&str>,
        authority: Option<&str>,
        lit: &LiteralParses,
    ) -> (r: Result<Address, ConnectError>)
        ensures
            match resolve(opt_view(scheme), opt_view(authority), *lit) {
                None => r == Err::<Address, ConnectError>(ConnectError::InvalidUri),
                Some(m) => r matches Ok(a) && a@ == m,
            },
    {
        match host_addr(scheme, authority, lit) {
            None => Err(ConnectError::InvalidUri),
            Some(a) => Ok(a),
        }
    }
}

/// One client per backend, keyed by the backend's address text. Built before
/// the listener starts and only read afterwards.
pub struct ClientTable<C> {
    entries: Vec<(String, C)>,
}

impl<C> ClientTable<C> {
    pub closed spec fn wf(&self) -> bool {
        forall|i: int, j: int|
            0 <= i < j < self.entries@.len() ==> #[trigger] self.entries@[i].0@
                != #[trigger] self.entries@[j].0@
    }

    pub closed spec fn has(&self, key: Seq<char>) -> bool {
        exists|i: int| 0 <= i < self.entries@.len() && #[trigger] self.entries@[i].0@ == key
    }

    /// The client kept under `key`, when `has(key)`.
    pub closed spec fn client(&self, key: Seq<char>) -> C {
        self.entries@[choose|i: int|
            0 <= i < self.entries@.len() && #[trigger] self.entries@[i].0@ == key].1
    }

    pub closed spec fn len(&self) -> nat {
        self.entries@.len()
    }

    pub fn new() -> (r: ClientTable<C>)
        ensures
            r.wf(),
            r.len() == 0,
            forall|k: Seq<char>| !r.has(k),
    {
        ClientTable { entries: Vec::new() }
    }

    fn position(&self, key: &String) -> (r: Option<usize>)
        requires
            self.wf(),
        ensures
            r is None ==> !self.has(key@),
            r is Some ==> r->0 < self.entries@.len() && self.entries@[r->0 as int].0@ == key@,
    {
        let mut i: usize = 0;
        while i < self.entries.len()
            invariant
                i <= self.entries@.len(),
                forall|j: int| 0 <= j < i ==> #[trigger] self.entries@[j].0@ != key@,
            decreases self.entries@.len() - i,
        {
            if self.entries[i].0 == *key {
                return Some(i);
            }
            i = i + 1;
        }
        None
    }

    /// Keeps `client` under `key`, in place of any client kept there before.
    pub fn insert(&mut self, key: String, client: C)
        requires
            old(self).wf(),
        ensures
            final(self).wf(),
            final(self).has(key@),
            final(self).client(key@) == client,
            forall|k: Seq<char>|
                k != key@ ==> (final(self).has(k) == old(self).has(k) && (old(self).has(k)
                    ==> final(self).client(k) == old(self).client(k))),
    {
        let ghost old_entries = self.entries@;
        match self.position(&key) {
            Some(i) => {
                let ghost kv = key@;
                self.entries.set(i, (key, client));
                assert(self.entries@[i as int].0@ == kv);
                assert forall|k: Seq<char>| #[trigger] self.has(k) && k != kv implies old(self).has(
                    k,
                ) && self.client(k) == old(self).client(k) by {
                    let j = choose|j: int|
                        0 <= j < self.entries@.len() && #[trigger] self.entries@[j].0@ == k;
                    assert(old_entries[j].0@ == k);
                }
                assert forall|k: Seq<char>| #[trigger] old(self).has(k) && k != kv implies self.has(
                    k,
                ) by {
                    let j = choose|j: int|
                        0 <= j < old_entries.len() && #[trigger] old_entries[j].0@ == k;
                    assert(self.entries@[j].0@ == k);
                }
            },
            None => {
                let ghost kv = key@;
                self.entries.push((key, client));
                let ghost n = old_entries.len() as int;
                assert(self.entries@[n].0@ == kv);
                assert forall|k: Seq<char>| #[trigger] self.has(k) && k != kv implies old(self).has(
                    k,
                ) && self.client(k) == old(self).client(k) by {
                    let j = choose|j: int|
                        0 <= j < self.entries@.len() && #[trigger] self.entries@[j].0@ == k;
                    assert(old_entries[j].0@ == k);
                }
                assert forall|k: Seq<char>| #[trigger] old(self).has(k) && k != kv implies self.has(
                    k,
                ) by {
                    let j = choose|j: int|
                        0 <= j < old_entries.len() && #[trigger] old_entries[j].0@ == k;
                    assert(self.entries@[j].0@ == k);
                }
            },
        }
    }

    /// The client kept under `key`.
    pub fn get(&self, key: &String) -> (r: Option<&C>)
        requires
            self.wf(),
        ensures
            r is None <==> !self.has(key@),
            r is Some ==> *r->0 == self.client(key@),
    {
        match self.position(key) {
            Some(i) => Some(&self.entries[i].1),
            None => None,
        }
    }
}

} // verus!
