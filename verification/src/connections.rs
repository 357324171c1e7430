//! The connection manager: the mapping from tenant identity to its live
//! client bundle, with the bookkeeping rules of linking and unlinking.
//! Opening the broker connection itself is asynchronous work done by the
//! caller; the manager records the handle it is given and cancels the
//! bundle's subscription tasks when the tenant goes away.

use vstd::prelude::*;

verus! {

#[verifier::external_type_specification]
#[verifier::external_body]
#[verifier::reject_recursive_types(T)]
pub struct ExJoinHandle<T>(tokio::task::JoinHandle<T>);

#[verifier::external_type_specification]
#[verifier::external_body]
pub struct ExJoinError(tokio::task::JoinError);

/// Relies on `tokio::task::JoinHandle::abort`: asks the task to stop at its
/// next suspension point; nothing comes back.
#[verifier::external_body]
fn abort_task(h: &tokio::task::JoinHandle<()>) {
    h.abort()
}

/// One tenant's broker connection together with the subscription tasks
/// started for it.  The tasks never outlive the bundle: unlinking aborts
/// every one of them before the connection handle is released.
pub struct ClientBundle<C> {
    /// The connection handle, opened by the caller.
    pub client: C,
    /// One entry per started subscription task: its subject and the handle
    /// that cancels it.
    pub sub_handles: Vec<(String, tokio::task::JoinHandle<()>)>,
}

impl<C> ClientBundle<C> {
    /// The subjects of the bundle's subscription tasks.
    pub open spec fn subjects(&self) -> Seq<Seq<char>> {
        self.sub_handles@.map_values(|p: (String, tokio::task::JoinHandle<()>)| p.0@)
    }

    /// How many subscription tasks the bundle owns.
    pub fn task_count(&self) -> (n: usize)
        ensures
            n == self.sub_handles@.len(),
    {
        self.sub_handles.len()
    }
}

/// The tenant-to-bundle map.  At most one bundle exists per tenant.
pub struct ConnectionManager<C> {
    entries: Vec<(String, ClientBundle<C>)>,
}

impl<C> ConnectionManager<C> {
    /// Well-formedness: no tenant occurs twice.
    pub closed spec fn wf(&self) -> bool {
        forall|i: int, j: int|
            0 <= i < j < self.entries@.len() ==> (#[trigger] self.entries@[i]).0@ != (
            #[trigger] self.entries@[j]).0@
    }

    /// Whether the tenant has a bundle.
    pub closed spec fn linked(&self, t: Seq<char>) -> bool {
        exists|i: int| 0 <= i < self.entries@.len() && (#[trigger] self.entries@[i]).0@ == t
    }

    /// How many tenants are linked.
    pub closed spec fn tenant_count(&self) -> nat {
        self.entries@.len()
    }

    /// The bundle of a linked tenant.
    pub closed spec fn spec_bundle(&self, t: Seq<char>) -> ClientBundle<C> {
        self.entries@[choose|i: int|
            0 <= i < self.entries@.len() && (#[trigger] self.entries@[i]).0@ == t].1
    }

    /// An empty manager: no tenant is linked.
    pub fn new() -> (r: ConnectionManager<C>)
        ensures
            r.wf(),
            forall|t: Seq<char>| !r.linked(t),
            r.tenant_count() == 0,
    {
        ConnectionManager { entries: Vec::new() }
    }

    /// How many tenants are linked.
    pub fn len(&self) -> (n: usize)
        ensures
            n == self.tenant_count(),
    {
        self.entries.len()
    }
}

/// Under distinct keys, the bundle of a tenant is the one at any index
/// that holds the tenant's key.
proof fn lemma_bundle_at<C>(m: ConnectionManager<C>, t: Seq<char>, j: int)
    requires
        m.wf(),
        0 <= j < m.entries@.len(),
        m.entries@[j].0@ == t,
    ensures
        m.linked(t),
        m.spec_bundle(t) == m.entries@[j].1,
{
    let w = choose|i: int| 0 <= i < m.entries@.len() && (#[trigger] m.entries@[i]).0@ == t;
    if w != j {
        assert(false);
    }
}

/// What linking promises: afterwards exactly the old tenants and `t` are
/// linked, `t` owns exactly the bundle that was handed in, and the count
/// grew by one unless `t` was already linked (its old bundle is gone, its
/// tasks cancelled).
pub open spec fn spec_link_post<C>(
    pre: ConnectionManager<C>,
    post: ConnectionManager<C>,
    t: Seq<char>,
    b: ClientBundle<C>,
) -> bool {
    &&& post.wf()
    &&& forall|s: Seq<char>| #[trigger] post.linked(s) <==> (pre.linked(s) || s == t)
    &&& post.linked(t)
    &&& post.spec_bundle(t) == b
    &&& (forall|s: Seq<char>|
        s != t && #[trigger] post.linked(s) ==> post.spec_bundle(s) == pre.spec_bundle(s))
    &&& post.tenant_count() == pre.tenant_count() + (if pre.linked(t) {
        0int
    } else {
        1int
    })
}

/// What unlinking promises: afterwards exactly the old tenants except `t`
/// are linked, every subscription task of `t`'s bundle was cancelled (their
/// number is returned), and the count shrank by one if `t` was linked.
pub open spec fn spec_unlink_post<C>(
    pre: ConnectionManager<C>,
    post: ConnectionManager<C>,
    t: Seq<char>,
    cancelled: nat,
) -> bool {
    &&& post.wf()
    &&& forall|s: Seq<char>| #[trigger] post.linked(s) <==> (pre.linked(s) && s != t)
    &&& cancelled == (if pre.linked(t) {
        pre.spec_bundle(t).subjects().len()
    } else {
        0nat
    })
    &&& (forall|s: Seq<char>|
        s != t && #[trigger] post.linked(s) ==> post.spec_bundle(s) == pre.spec_bundle(s))
    &&& post.tenant_count() == pre.tenant_count() - (if pre.linked(t) {
        1int
    } else {
        0int
    })
}

impl<C> ConnectionManager<C> {
    /// Removes and destroys the tenant's bundle if it has one: every owned
    /// subscription task is aborted before the bundle (and with it the
    /// connection handle) is dropped.  A tenant without a bundle is a no-op.
    /// Returns how many tasks were cancelled.
    pub fn unlink(&mut self, tenant: &str) -> (cancelled: usize)
        requires
            old(self).wf(),
        ensures
            spec_unlink_post(*old(self), *final(self), tenant@, cancelled as nat),
    {
        let ghost pre = self.entries@;
        let k = tenant.to_owned();
        let n = self.entries.len();
        let mut i: usize = 0;
        while i < n
            invariant
                n == self.entries@.len(),
                i <= n,
                self.entries@ == pre,
                old(self).wf(),
                pre == old(self).entries@,
                k@ == tenant@,
                forall|p: int| 0 <= p < i ==> (#[trigger] pre[p]).0@ != tenant@,
            decreases n - i,
        {
            if self.entries[i].0 == k {
                // cancel every subscription task before the bundle goes
                let m = self.entries[i].1.sub_handles.len();
                let mut j: usize = 0;
                while j < m
                    invariant
                        i < self.entries@.len(),
                        m == self.entries@[i as int].1.sub_handles@.len(),
                        j <= m,
                        self.entries@ == pre,
                    decreases m - j,
                {
                    abort_task(&self.entries[i].1.sub_handles[j].1);
                    j = j + 1;
                }
                let removed = self.entries.remove(i);
                proof {
                    let post = self.entries@;
                    assert(post == pre.remove(i as int));
                    assert(pre[i as int].0@ == tenant@);
                    assert(old(self).spec_bundle(tenant@) == pre[i as int].1);
                    assert forall|p: int, q: int|
                        0 <= p < q < post.len() implies (#[trigger] post[p]).0@ != (
                    #[trigger] post[q]).0@ by {
                        lemma_removed_elem::<C>(pre, i as int, p);
                        lemma_removed_elem::<C>(pre, i as int, q);
                    }
                    assert forall|s: Seq<char>| #[trigger]
                        self.linked(s) implies (old(self).linked(s) && s != tenant@) by {
                        let w = choose|w: int| 0 <= w < post.len() && (#[trigger] post[w]).0@ == s;
                        lemma_removed_elem::<C>(pre, i as int, w);
                    }
                    assert forall|s: Seq<char>|
                        (old(self).linked(s) && s != tenant@) implies #[trigger] self.linked(
                        s,
                    ) by {
                        let w = choose|w: int| 0 <= w < pre.len() && (#[trigger] pre[w]).0@ == s;
                        if w < i {
                            assert(post[w].0@ == s);
                        } else {
                            assert(w != i);
                            assert(post[w - 1].0@ == s);
                        }
                    }
                    assert forall|s: Seq<char>|
                        s != tenant@ && #[trigger] self.linked(s) implies self.spec_bundle(s)
                        == old(self).spec_bundle(s) by {
                        let wp = choose|w: int|
                            0 <= w < post.len() && (#[trigger] post[w]).0@ == s;
                        lemma_removed_elem::<C>(pre, i as int, wp);
                        let j: int = if wp < i { wp } else { wp + 1 };
                        assert(post[wp] == pre[j]);
                        lemma_bundle_at::<C>(*self, s, wp);
                        lemma_bundle_at::<C>(*old(self), s, j);
                    }
                }
                return m;
            }
            i = i + 1;
        }
        proof {
            if old(self).linked(tenant@) {
                let w = choose|w: int| 0 <= w < pre.len() && (#[trigger] pre[w]).0@ == tenant@;
                assert(false);
            }
        }
        0
    }

    /// Records a bundle for the tenant, replacing (and first destroying, as
    /// [`ConnectionManager::unlink`] does) any bundle the tenant had.
    pub fn link(&mut self, tenant: String, bundle: ClientBundle<C>)
        requires
            old(self).wf(),
        ensures
            spec_link_post(*old(self), *final(self), tenant@, bundle),
    {
        let _ = self.unlink(tenant.as_str());
        let ghost midmgr = *self;
        let ghost mid = self.entries@;
        self.entries.push((tenant, bundle));
        proof {
            let post = self.entries@;
            assert(post == mid.push(post.last()));
            let t = post.last().0@;
            assert(t == tenant@);
            assert(!midmgr.linked(t));
            assert forall|p: int| 0 <= p < mid.len() implies (#[trigger] mid[p]).0@ != t by {
                if mid[p].0@ == t {
                    assert(midmgr.linked(t));
                }
            }
            assert forall|p: int, q: int|
                0 <= p < q < post.len() implies (#[trigger] post[p]).0@ != (
            #[trigger] post[q]).0@ by {
                if q == post.len() - 1 {
                    assert(mid[p] == post[p]);
                }
            }
            assert(post[post.len() - 1].0@ == t);
            assert forall|s: Seq<char>| #[trigger]
                self.linked(s) implies (old(self).linked(s) || s == t) by {
                let w = choose|w: int| 0 <= w < post.len() && (#[trigger] post[w]).0@ == s;
                if w < post.len() - 1 {
                    assert(mid[w].0@ == s);
                    assert(midmgr.linked(s));
                }
            }
            assert forall|s: Seq<char>|
                (old(self).linked(s) || s == t) implies #[trigger] self.linked(s) by {
                if s == t {
                    assert(post[post.len() - 1].0@ == s);
                } else {
                    assert(midmgr.linked(s));
                    let w = choose|w: int| 0 <= w < mid.len() && (#[trigger] mid[w]).0@ == s;
                    assert(post[w].0@ == s);
                }
            }
            let wi = choose|i: int| 0 <= i < post.len() && (#[trigger] post[i]).0@ == t;
            if wi != post.len() - 1 {
                assert(post[wi].0@ == t && post[post.len() - 1].0@ == t);
                assert(false);
            }
            assert(self.spec_bundle(t) == post[wi].1);
            assert forall|s: Seq<char>|
                s != t && #[trigger] self.linked(s) implies self.spec_bundle(s) == old(
                self,
            ).spec_bundle(s) by {
                let wp = choose|w: int| 0 <= w < post.len() && (#[trigger] post[w]).0@ == s;
                assert(wp < post.len() - 1);
                assert(post[wp] == mid[wp]);
                lemma_bundle_at::<C>(*self, s, wp);
                lemma_bundle_at::<C>(midmgr, s, wp);
                assert(midmgr.spec_bundle(s) == old(self).spec_bundle(s));
            }
        }
    }

    /// Unlinks every tenant: aborts all subscription tasks and drops every
    /// bundle.  Used once at shutdown; never errors.
    pub fn shutdown(&mut self)
        requires
            old(self).wf(),
        ensures
            final(self).wf(),
            final(self).tenant_count() == 0,
            forall|t: Seq<char>| !final(self).linked(t),
    {
        while self.entries.len() > 0
            invariant
                self.wf(),
            decreases self.entries@.len(),
        {
            let ghost pre = self.entries@;
            let entry = self.entries.remove(0);
            proof {
                assert forall|p: int, q: int|
                    0 <= p < q < self.entries@.len() implies (#[trigger] self.entries@[p]).0@
                    != (#[trigger] self.entries@[q]).0@ by {
                    assert(self.entries@[p] == pre[p + 1]);
                    assert(self.entries@[q] == pre[q + 1]);
                }
            }
            let m = entry.1.sub_handles.len();
            let mut j: usize = 0;
            while j < m
                invariant
                    m == entry.1.sub_handles@.len(),
                    j <= m,
                decreases m - j,
            {
                abort_task(&entry.1.sub_handles[j].1);
                j = j + 1;
            }
        }
    }

    /// The connection handle of a linked tenant; `None` when the tenant is
    /// not linked.
    pub fn lookup(&self, tenant: &str) -> (r: Option<&C>)
        requires
            self.wf(),
        ensures
            r is Some <==> self.linked(tenant@),
            r matches Some(c) ==> *c == self.spec_bundle(tenant@).client,
    {
        let k = tenant.to_owned();
        let n = self.entries.len();
        let mut i: usize = 0;
        while i < n
            invariant
                self.wf(),
                n == self.entries@.len(),
                i <= n,
                k@ == tenant@,
                forall|p: int| 0 <= p < i ==> (#[trigger] self.entries@[p]).0@ != tenant@,
            decreases n - i,
        {
            if self.entries[i].0 == k {
                proof {
                    lemma_bundle_at::<C>(*self, tenant@, i as int);
                }
                return Some(&self.entries[i].1.client);
            }
            i = i + 1;
        }
        proof {
            if self.linked(tenant@) {
                let w = choose|w: int|
                    0 <= w < self.entries@.len() && (#[trigger] self.entries@[w]).0@ == tenant@;
                assert(false);
            }
        }
        None
    }
}

/// An element of a sequence survives the removal of another index, one slot
/// to the left when it came after it.
proof fn lemma_removed_elem<C>(s: Seq<(String, ClientBundle<C>)>, r: int, p: int)
    requires
        0 <= r < s.len(),
        0 <= p < s.len() - 1,
    ensures
        s.remove(r)[p] == (if p < r {
            s[p]
        } else {
            s[p + 1]
        }),
{
}

/// Linking a tenant into an empty manager and then unlinking it leaves no
/// tenant linked, and cancels exactly the subscription tasks the link had
/// registered.
pub proof fn lemma_link_unlink_round<C>(
    m0: ConnectionManager<C>,
    m1: ConnectionManager<C>,
    m2: ConnectionManager<C>,
    t: Seq<char>,
    b: ClientBundle<C>,
    cancelled: nat,
)
    requires
        m0.tenant_count() == 0,
        spec_link_post(m0, m1, t, b),
        spec_unlink_post(m1, m2, t, cancelled),
    ensures
        m2.tenant_count() == 0,
        forall|s: Seq<char>| !m2.linked(s),
        cancelled == b.subjects().len(),
{
    assert forall|s: Seq<char>| !m2.linked(s) by {
        if m2.linked(s) {
            assert(m1.linked(s) && s != t);
            assert(m0.linked(s));
        }
    }
}

} // verus!
