//! The request-waiter bridge: one-shot slots keyed by subject, used to route
//! a locally produced reply back to an in-flight service request instead of
//! publishing it to the broker.

use vstd::prelude::*;

verus! {

#[verifier::external_type_specification]
#[verifier::external_body]
pub struct ExBytes(bytes::Bytes);

#[verifier::external_type_specification]
#[verifier::external_body]
#[verifier::reject_recursive_types(T)]
pub struct ExOneshotSender<T>(tokio::sync::oneshot::Sender<T>);

/// Relies on `tokio::sync::oneshot::Sender::send`: hands the payload to the
/// receiving half if it still listens and returns the payload otherwise.
/// Which of the two happens depends on the receiver at run time, so only
/// whether delivery succeeded is returned.
#[verifier::external_body]
fn oneshot_send(tx: tokio::sync::oneshot::Sender<bytes::Bytes>, payload: bytes::Bytes) -> bool {
    tx.send(payload).is_ok()
}

/// One pending waiter: its subject and the channel that carries the payload.
struct WaiterEntry {
    subject: String,
    sender: tokio::sync::oneshot::Sender<bytes::Bytes>,
}

/// The table of pending request waiters.  At most one waiter is pending per
/// subject; registering again replaces the earlier waiter.
pub struct WaiterTable {
    entries: Vec<WaiterEntry>,
}

impl WaiterTable {
    /// Well-formedness: no subject occurs twice.
    pub closed spec fn wf(&self) -> bool {
        forall|i: int, j: int|
            0 <= i < j < self.entries@.len() ==> (#[trigger] self.entries@[i]).subject@ != (
            #[trigger] self.entries@[j]).subject@
    }

    /// Whether a waiter is pending for `s`.
    pub closed spec fn is_pending(&self, s: Seq<char>) -> bool {
        exists|i: int| 0 <= i < self.entries@.len() && (#[trigger] self.entries@[i]).subject@ == s
    }

    /// How many waiters are pending.
    pub closed spec fn pending_count(&self) -> nat {
        self.entries@.len()
    }

    /// An empty table: nothing is pending.
    pub fn new() -> (r: WaiterTable)
        ensures
            r.wf(),
            forall|s: Seq<char>| !r.is_pending(s),
            r.pending_count() == 0,
    {
        WaiterTable { entries: Vec::new() }
    }

    /// Registers a waiter for `subject`, replacing any earlier one: after
    /// the call exactly the old subjects and `subject` are pending.
    pub fn add_request_waiter(
        &mut self,
        subject: String,
        sender: tokio::sync::oneshot::Sender<bytes::Bytes>,
    )
        requires
            old(self).wf(),
        ensures
            final(self).wf(),
            forall|s: Seq<char>|
                #[trigger] final(self).is_pending(s) <==> (old(self).is_pending(s) || s
                    == subject@),
    {
        let ghost pre = self.entries@;
        let n = self.entries.len();
        let mut i: usize = 0;
        while i < n
            invariant
                n == self.entries@.len(),
                i <= n,
                self.entries@ == pre,
                old(self).wf(),
                pre == old(self).entries@,
                forall|p: int| 0 <= p < i ==> (#[trigger] pre[p]).subject@ != subject@,
            decreases n - i,
        {
            if self.entries[i].subject == subject {
                let removed = self.entries.remove(i);
                self.entries.push(WaiterEntry { subject, sender });
                proof {
                    let post = self.entries@;
                    assert(post == pre.remove(i as int).push(post.last()));
                    assert(post.last().subject@ == removed.subject@);
                    assert forall|p: int, q: int|
                        0 <= p < q < post.len() implies (#[trigger] post[p]).subject@ != (
                    #[trigger] post[q]).subject@ by {
                        lemma_remove_keeps(pre, i as int, p);
                        if q < post.len() - 1 {
                            lemma_remove_keeps(pre, i as int, q);
                        }
                    }
                    assert forall|s: Seq<char>| #[trigger]
                        self.is_pending(s) implies (old(self).is_pending(s) || s
                        == subject@) by {
                        let w = choose|w: int|
                            0 <= w < post.len() && (#[trigger] post[w]).subject@ == s;
                        if w < post.len() - 1 {
                            lemma_remove_keeps(pre, i as int, w);
                        }
                    }
                    assert forall|s: Seq<char>|
                        (old(self).is_pending(s) || s == subject@) implies #[trigger] self
                        .is_pending(s) by {
                        if s == subject@ {
                            assert(post[post.len() - 1].subject@ == s);
                        } else {
                            let w = choose|w: int|
                                0 <= w < pre.len() && (#[trigger] pre[w]).subject@ == s;
                            if w < i {
                                assert(post[w].subject@ == s);
                            } else {
                                assert(w != i);
                                assert(post[w - 1].subject@ == s);
                            }
                        }
                    }
                }
                return ;
            }
            i = i + 1;
        }
        self.entries.push(WaiterEntry { subject, sender });
        proof {
            let post = self.entries@;
            assert(post == pre.push(post.last()));
            assert forall|s: Seq<char>| #[trigger]
                self.is_pending(s) implies (old(self).is_pending(s) || s == subject@) by {
                let w = choose|w: int| 0 <= w < post.len() && (#[trigger] post[w]).subject@ == s;
                if w < post.len() - 1 {
                    assert(pre[w].subject@ == s);
                }
            }
            assert forall|s: Seq<char>|
                (old(self).is_pending(s) || s == subject@) implies #[trigger] self.is_pending(
                s,
            ) by {
                if s == subject@ {
                    assert(post[post.len() - 1].subject@ == s);
                } else {
                    let w = choose|w: int| 0 <= w < pre.len() && (#[trigger] pre[w]).subject@ == s;
                    assert(post[w].subject@ == s);
                }
            }
        }
    }

    /// Fulfills and removes the waiter for `subject` if one is pending;
    /// returns whether one was.  A waiter whose receiving half was already
    /// abandoned is removed all the same, without error.
    pub fn dispatch_request_waiter(&mut self, subject: &str, payload: bytes::Bytes) -> (r: bool)
        requires
            old(self).wf(),
        ensures
            final(self).wf(),
            r == old(self).is_pending(subject@),
            forall|s: Seq<char>|
                #[trigger] final(self).is_pending(s) <==> (old(self).is_pending(s) && s
                    != subject@),
    {
        let ghost pre = self.entries@;
        let k = subject.to_owned();
        let n = self.entries.len();
        let mut i: usize = 0;
        while i < n
            invariant
                n == self.entries@.len(),
                i <= n,
                self.entries@ == pre,
                old(self).wf(),
                pre == old(self).entries@,
                k@ == subject@,
                forall|p: int| 0 <= p < i ==> (#[trigger] pre[p]).subject@ != subject@,
            decreases n - i,
        {
            if self.entries[i].subject == k {
                let entry = self.entries.remove(i);
                let _delivered = oneshot_send(entry.sender, payload);
                proof {
                    let post = self.entries@;
                    assert(post == pre.remove(i as int));
                    assert forall|p: int, q: int|
                        0 <= p < q < post.len() implies (#[trigger] post[p]).subject@ != (
                    #[trigger] post[q]).subject@ by {
                        lemma_remove_keeps(pre, i as int, p);
                        lemma_remove_keeps(pre, i as int, q);
                    }
                    assert forall|s: Seq<char>| #[trigger]
                        self.is_pending(s) implies (old(self).is_pending(s) && s
                        != subject@) by {
                        let w = choose|w: int|
                            0 <= w < post.len() && (#[trigger] post[w]).subject@ == s;
                        lemma_remove_keeps(pre, i as int, w);
                        assert(pre[i as int].subject@ == subject@);
                    }
                    assert forall|s: Seq<char>|
                        (old(self).is_pending(s) && s != subject@) implies #[trigger] self
                        .is_pending(s) by {
                        let w = choose|w: int|
                            0 <= w < pre.len() && (#[trigger] pre[w]).subject@ == s;
                        if w < i {
                            assert(post[w].subject@ == s);
                        } else {
                            assert(w != i);
                            assert(post[w - 1].subject@ == s);
                        }
                    }
                }
                return true;
            }
            i = i + 1;
        }
        proof {
            if old(self).is_pending(subject@) {
                let w = choose|w: int| 0 <= w < pre.len() && (#[trigger] pre[w]).subject@
                    == subject@;
                assert(false);
            }
        }
        false
    }

    /// Whether a waiter is pending for `subject`, without touching it.
    pub fn is_request_waiting(&self, subject: &str) -> (r: bool)
        requires
            self.wf(),
        ensures
            r == self.is_pending(subject@),
    {
        let k = subject.to_owned();
        let n = self.entries.len();
        let mut i: usize = 0;
        while i < n
            invariant
                n == self.entries@.len(),
                i <= n,
                k@ == subject@,
                forall|p: int| 0 <= p < i ==> (#[trigger] self.entries@[p]).subject@ != subject@,
            decreases n - i,
        {
            if self.entries[i].subject == k {
                return true;
            }
            i = i + 1;
        }
        proof {
            if self.is_pending(subject@) {
                let w = choose|w: int|
                    0 <= w < self.entries@.len() && (#[trigger] self.entries@[w]).subject@
                        == subject@;
                assert(false);
            }
        }
        false
    }
}

/// An element of a sequence survives the removal of another index, one slot
/// to the left when it came after it.
proof fn lemma_remove_keeps(s: Seq<WaiterEntry>, r: int, p: int)
    requires
        0 <= r < s.len(),
        0 <= p < s.len() - 1,
    ensures
        s.remove(r)[p] == (if p < r {
            s[p]
        } else {
            s[p + 1]
        }),
{
}

/// A waiter is consumed at most once: after a waiter for `subject` is
/// registered, the first fulfillment finds it and removes it, and a second
/// fulfillment of the same subject finds nothing — so the second publish on
/// that subject goes to the broker.
pub proof fn lemma_waiter_consumed_once(
    t0: WaiterTable,
    t1: WaiterTable,
    t2: WaiterTable,
    subject: Seq<char>,
    first: bool,
    second: bool,
)
    requires
        forall|s: Seq<char>| #[trigger] t1.is_pending(s) <==> (t0.is_pending(s) || s == subject),
        first == t1.is_pending(subject),
        forall|s: Seq<char>| #[trigger] t2.is_pending(s) <==> (t1.is_pending(s) && s != subject),
        second == t2.is_pending(subject),
    ensures
        first,
        !second,
        !t2.is_pending(subject),
{
}

} // verus!
