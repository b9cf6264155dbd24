//! A live controller and the listeners subscribed to it.
//!
//! A listener is named by a handle that the transport assigns to its
//! connection; writing to it is the transport's work. A broadcast therefore
//! runs in two steps: `broadcast_targets` says whom to write to, and
//! `drop_failed` removes the listeners whose write failed.
use vstd::prelude::*;

verus! {

/// Controller id, chosen by the device.
pub type ControllerId = u64;

/// Handle of a listening connection.
pub type ListenerId = u64;

/// A controller's held metadata.
pub struct Controller {
    /// The controller's id.
    id: ControllerId,
    /// Listening connections, in the order they attached.
    listeners: Vec<ListenerId>,
}

/// The listeners that stay after a broadcast in which the writes to `failed` failed.
pub open spec fn surviving(listeners: Seq<ListenerId>, failed: Seq<ListenerId>) -> Seq<ListenerId> {
    listeners.filter(|l: ListenerId| !failed.contains(l))
}

impl Controller {
    /// The controller's id, as contracts see it.
    pub closed spec fn spec_id(&self) -> ControllerId {
        self.id
    }

    /// The controller's id.
    pub fn id(&self) -> (r: ControllerId)
        ensures
            r == self.spec_id(),
    {
        self.id
    }

    /// The attached listeners, in attach order.
    pub closed spec fn listeners(&self) -> Seq<ListenerId> {
        self.listeners@
    }

    /// Creates a controller with no listener.
    pub fn new(id: ControllerId) -> (r: Controller)
        ensures
            r.spec_id() == id,
            r.listeners() == Seq::<ListenerId>::empty(),
    {
        Controller { id, listeners: Vec::new() }
    }

    /// Attaches a listener; a listener attached twice is held twice.
    pub fn new_listener(&mut self, listener: ListenerId)
        ensures
            final(self).spec_id() == old(self).spec_id(),
            final(self).listeners() == old(self).listeners().push(listener),
    {
        self.listeners.push(listener);
    }

    /// The listeners a broadcast writes to: every attached one, in attach order.
    pub fn broadcast_targets(&self) -> (r: Vec<ListenerId>)
        ensures
            r@ == self.listeners(),
    {
        self.listeners.clone()
    }

    /// Ends a broadcast: removes every listener whose write failed and keeps
    /// the others in their order.
    pub fn drop_failed(&mut self, failed: &Vec<ListenerId>)
        ensures
            final(self).spec_id() == old(self).spec_id(),
            final(self).listeners() == surviving(old(self).listeners(), failed@),
    {
        let mut kept: Vec<ListenerId> = Vec::new();
        let n = self.listeners.len();
        let mut i: usize = 0;
        while i < n
            invariant
                n == self.listeners@.len(),
                i <= n,
                kept@ == surviving(self.listeners@.subrange(0, i as int), failed@),
            decreases n - i,
        {
            let l = self.listeners[i];
            let mut hit = false;
            let mut j: usize = 0;
            while j < failed.len()
                invariant
                    j <= failed@.len(),
                    hit <==> failed@.subrange(0, j as int).contains(l),
                decreases failed@.len() - j,
            {
                if failed[j] == l {
                    hit = true;
                }
                proof {
                    let prev = failed@.subrange(0, j as int);
                    let next = failed@.subrange(0, j + 1);
                    assert(next =~= prev.push(failed@[j as int]));
                    if failed@[j as int] == l {
                        assert(next[j as int] == l);
                    }
                    if prev.contains(l) {
                        let k = choose|k: int| 0 <= k < prev.len() && prev[k] == l;
                        assert(next[k] == l);
                    }
                }
                j += 1;
            }
            assert(failed@.subrange(0, j as int) =~= failed@);
            assert(self.listeners@.subrange(0, i + 1) =~= self.listeners@.subrange(0, i as int).push(l));
            proof {
                reveal(Seq::filter);
                assert(self.listeners@.subrange(0, i + 1).drop_last() =~= self.listeners@.subrange(0, i as int));
            }
            if !hit {
                kept.push(l);
            }
            i += 1;
        }
        assert(self.listeners@.subrange(0, n as int) =~= self.listeners@);
        self.listeners = kept;
    }
}


/// After one broadcast to the listeners `ls`, in which the writes to `failed`
/// failed: no failed listener is left, and every other listener is left
/// exactly as often as it was attached, whatever failed beside it.
pub proof fn lemma_broadcast_prunes_only_failed(ls: Seq<ListenerId>, failed: Seq<ListenerId>)
    ensures
        forall|l: ListenerId| failed.contains(l) ==> !surviving(ls, failed).contains(l),
        forall|l: ListenerId|
            !failed.contains(l) ==> surviving(ls, failed).to_multiset().count(l)
                == ls.to_multiset().count(l),
    decreases ls.len(),
{
    broadcast use vstd::seq_lib::group_to_multiset_ensures;

    let pred = |x: ListenerId| !failed.contains(x);
    if ls.len() == 0 {
        reveal(Seq::filter);
        assert(surviving(ls, failed) =~= Seq::<ListenerId>::empty());
    } else {
        let init = ls.drop_last();
        let last = ls.last();
        lemma_broadcast_prunes_only_failed(init, failed);
        assert(ls =~= init.push(last));
        reveal(Seq::filter);
        assert(surviving(ls, failed) == if pred(last) {
            surviving(init, failed).push(last)
        } else {
            surviving(init, failed)
        });
        assert forall|l: ListenerId| failed.contains(l) implies !surviving(ls, failed).contains(
            l,
        ) by {
            if pred(last) {
                let s = surviving(init, failed);
                if s.push(last).contains(l) {
                    let k = choose|k: int| 0 <= k < s.push(last).len() && s.push(last)[k] == l;
                    if k < s.len() {
                        assert(s[k] == l);
                    }
                }
            }
        }
    }
}

} // verus!
