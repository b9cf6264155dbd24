//! The shared registry: live controllers, their heartbeat ages, and the
//! controllers waiting to be paired.
use std::collections::{HashMap, HashSet};
use vstd::prelude::*;
use vstd::std_specs::iter::IteratorSpec;
use crate::control::{Controller, ControllerId, ListenerId, surviving};

verus! {

broadcast use vstd::std_specs::hash::group_hash_axioms;

/// How many heartbeat ticks a controller survives without registering again.
pub const HEARTBEAT_LIMIT: usize = 50;

/// What the registry holds, as contracts see it.
pub struct RegistryView {
    /// Each live controller's listeners, in attach order.
    pub controllers: Map<ControllerId, Seq<ListenerId>>,
    /// Ticks since each live controller last registered.
    pub ages: Map<ControllerId, nat>,
    /// Controllers that asked to be paired and were not claimed since.
    pub pairing: Set<ControllerId>,
}

impl RegistryView {
    /// A controller with `id` and the listeners `ls` replaces any earlier one
    /// under that id, with age zero.
    pub open spec fn register(self, id: ControllerId, ls: Seq<ListenerId>) -> RegistryView {
        RegistryView {
            controllers: self.controllers.insert(id, ls),
            ages: self.ages.insert(id, 0),
            pairing: self.pairing,
        }
    }

    /// `l` is appended to the listeners of `id`, if `id` is live.
    pub open spec fn attach(self, id: ControllerId, l: ListenerId) -> RegistryView {
        if self.controllers.contains_key(id) {
            RegistryView {
                controllers: self.controllers.insert(id, self.controllers[id].push(l)),
                ..self
            }
        } else {
            self
        }
    }

    /// The listeners of `id` in `failed` are removed, if `id` is live.
    pub open spec fn drop_failed(self, id: ControllerId, failed: Seq<ListenerId>) -> RegistryView {
        if self.controllers.contains_key(id) {
            RegistryView {
                controllers: self.controllers.insert(id, surviving(self.controllers[id], failed)),
                ..self
            }
        } else {
            self
        }
    }

    /// The listeners of `id`; none where `id` is not live.
    pub open spec fn listeners_of(self, id: ControllerId) -> Seq<ListenerId> {
        if self.controllers.contains_key(id) {
            self.controllers[id]
        } else {
            Seq::empty()
        }
    }

    /// `id` is marked as waiting to be paired.
    pub open spec fn mark_pairing(self, id: ControllerId) -> RegistryView {
        RegistryView { pairing: self.pairing.insert(id), ..self }
    }

    /// `id` is no longer waiting to be paired.
    pub open spec fn claim_pairing(self, id: ControllerId) -> RegistryView {
        RegistryView { pairing: self.pairing.remove(id), ..self }
    }

    /// The listeners `ls` are attached to `id`, one after another.
    pub open spec fn attach_all(self, id: ControllerId, ls: Seq<ListenerId>) -> RegistryView
        decreases ls.len(),
    {
        if ls.len() == 0 {
            self
        } else {
            self.attach_all(id, ls.drop_last()).attach(id, ls.last())
        }
    }

    /// Whether the controller `id` outlives the next tick.
    pub open spec fn survives_tick(self, id: ControllerId) -> bool {
        self.ages.contains_key(id) && self.ages[id] + 1 < HEARTBEAT_LIMIT
    }

    /// One heartbeat tick: every age grows by one, and a controller whose age
    /// reaches the limit leaves both maps.
    pub open spec fn tick(self) -> RegistryView {
        RegistryView {
            controllers: Map::new(
                |k: ControllerId| self.controllers.contains_key(k) && self.survives_tick(k),
                |k: ControllerId| self.controllers[k],
            ),
            ages: Map::new(|k: ControllerId| self.survives_tick(k), |k: ControllerId| self.ages[k] + 1),
            pairing: self.pairing,
        }
    }

    /// `n` heartbeat ticks in a row.
    pub open spec fn ticks(self, n: nat) -> RegistryView
        decreases n,
    {
        if n == 0 {
            self
        } else {
            self.tick().ticks((n - 1) as nat)
        }
    }

    /// Every live controller has an age and every age a live controller.
    pub open spec fn consistent(self) -> bool {
        &&& self.controllers.dom() == self.ages.dom()
        &&& forall|k: ControllerId| #[trigger] self.ages.contains_key(k) ==> self.ages[k] < HEARTBEAT_LIMIT
    }
}

/// The registry shared by all connections.
pub struct SpjortState {
    /// All controllers that exist.
    controllers: HashMap<ControllerId, Controller>,
    /// How many ticks ago each controller registered.
    time_since_heartbeat: HashMap<ControllerId, usize>,
    /// Controller ids currently waiting to pair with a listener.
    pairing_controllers: HashSet<ControllerId>,
}

impl View for SpjortState {
    type V = RegistryView;

    closed spec fn view(&self) -> RegistryView {
        RegistryView {
            controllers: Map::new(
                |k: ControllerId| self.controllers@.contains_key(k),
                |k: ControllerId| self.controllers@[k].listeners(),
            ),
            ages: Map::new(
                |k: ControllerId| self.time_since_heartbeat@.contains_key(k),
                |k: ControllerId| self.time_since_heartbeat@[k] as nat,
            ),
            pairing: self.pairing_controllers@,
        }
    }
}

impl SpjortState {
    /// The maps agree on their keys, each controller sits under its own id,
    /// and every age is below the limit.
    pub closed spec fn wf(&self) -> bool {
        &&& self.controllers@.dom() == self.time_since_heartbeat@.dom()
        &&& forall|k: ControllerId| #[trigger]
            self.controllers@.contains_key(k) ==> self.controllers@[k].spec_id() == k
        &&& forall|k: ControllerId| #[trigger]
            self.time_since_heartbeat@.contains_key(k) ==> self.time_since_heartbeat@[k]
                < HEARTBEAT_LIMIT
    }

    /// A well-formed registry keeps an age for exactly its live controllers,
    /// each below the limit.
    pub proof fn lemma_wf_consistent(&self)
        requires
            self.wf(),
        ensures
            self@.consistent(),
    {
        assert(self@.controllers.dom() =~= self@.ages.dom());
    }

    /// An empty registry.
    pub fn new() -> (r: SpjortState)
        ensures
            r.wf(),
            r@.controllers == Map::<ControllerId, Seq<ListenerId>>::empty(),
            r@.ages == Map::<ControllerId, nat>::empty(),
            r@.pairing == Set::<ControllerId>::empty(),
    {
        let r = SpjortState {
            controllers: HashMap::new(),
            time_since_heartbeat: HashMap::new(),
            pairing_controllers: HashSet::new(),
        };
        assert(r@.controllers =~= Map::<ControllerId, Seq<ListenerId>>::empty());
        assert(r@.ages =~= Map::<ControllerId, nat>::empty());
        r
    }

    /// Publishes a controller under its id, replacing any earlier one (whose
    /// listeners are dropped with it), and sets its age to zero.
    pub fn connect(&mut self, controller: Controller)
        requires
            old(self).wf(),
        ensures
            final(self).wf(),
            final(self)@ == old(self)@.register(controller.spec_id(), controller.listeners()),
    {
        let id = controller.id();
        self.controllers.insert(id, controller);
        self.time_since_heartbeat.insert(id, 0);
        assert(self@.controllers =~= old(self)@.controllers.insert(id, controller.listeners()));
        assert(self@.ages =~= old(self)@.ages.insert(id, 0));
    }

    /// The ids waiting to be paired, copied out, each once.
    pub fn get_pairing_devices(&self) -> (r: Vec<ControllerId>)
        ensures
            r@.to_set() == self@.pairing,
            r@.no_duplicates(),
    {
        let mut out: Vec<ControllerId> = Vec::new();
        let ghost all = self.pairing_controllers.iter().remaining().unref();
        for k in it: self.pairing_controllers.iter()
            invariant
                it.seq().unref() == all,
                out@ == all.take(it.index() as int),
        {
            out.push(*k);
        }
        assert(out@ =~= all);
        out
    }

    /// Marks a controller as waiting to be paired; marking it twice is the same
    /// as once.
    pub fn set_pairing_id(&mut self, controller_id: ControllerId)
        requires
            old(self).wf(),
        ensures
            final(self).wf(),
            final(self)@ == old(self)@.mark_pairing(controller_id),
    {
        self.pairing_controllers.insert(controller_id);
    }

    /// Claims a waiting controller: removes it from the waiting set and says
    /// whether it was there.
    pub fn connect_controller(&mut self, id: ControllerId) -> (r: bool)
        requires
            old(self).wf(),
        ensures
            final(self).wf(),
            r == old(self)@.pairing.contains(id),
            final(self)@ == old(self)@.claim_pairing(id),
    {
        self.pairing_controllers.remove(&id)
    }

    /// Attaches a listener to the controller `id` and says whether that
    /// controller was live; where it was not, nothing changes.
    pub fn attach_listener(&mut self, id: ControllerId, listener: ListenerId) -> (r: bool)
        requires
            old(self).wf(),
        ensures
            final(self).wf(),
            r == old(self)@.controllers.contains_key(id),
            final(self)@ == old(self)@.attach(id, listener),
    {
        match self.controllers.remove(&id) {
            Some(mut controller) => {
                assert(controller == old(self).controllers@[id]);
                controller.new_listener(listener);
                self.controllers.insert(id, controller);
                assert(self@.controllers =~= old(self)@.controllers.insert(
                    id,
                    old(self)@.controllers[id].push(listener),
                ));
                true
            },
            None => {
                assert(self.controllers@ =~= old(self).controllers@);
                assert(self@ =~= old(self)@);
                false
            },
        }
    }

    /// The listeners a broadcast of the controller `id` writes to, in attach
    /// order; none where `id` is not live.
    pub fn broadcast_targets(&self, id: ControllerId) -> (r: Vec<ListenerId>)
        requires
            self.wf(),
        ensures
            r@ == self@.listeners_of(id),
    {
        match self.controllers.get(&id) {
            Some(controller) => controller.broadcast_targets(),
            None => Vec::new(),
        }
    }

    /// Ends a broadcast of the controller `id`: its listeners in `failed` are
    /// removed, the others kept in order.
    pub fn drop_failed(&mut self, id: ControllerId, failed: &Vec<ListenerId>)
        requires
            old(self).wf(),
        ensures
            final(self).wf(),
            final(self)@ == old(self)@.drop_failed(id, failed@),
    {
        match self.controllers.remove(&id) {
            Some(mut controller) => {
                assert(controller == old(self).controllers@[id]);
                controller.drop_failed(failed);
                self.controllers.insert(id, controller);
                assert(self@.controllers =~= old(self)@.controllers.insert(
                    id,
                    surviving(old(self)@.controllers[id], failed@),
                ));
            },
            None => {
                assert(self.controllers@ =~= old(self).controllers@);
                assert(self@ =~= old(self)@);
            },
        }
    }

    /// One heartbeat tick: every controller ages by one, and those whose age
    /// reaches `HEARTBEAT_LIMIT` are removed from the registry. Only a new
    /// registration resets an age; event frames, heartbeats among them, do not.
    pub fn heartbeat(&mut self)
        requires
            old(self).wf(),
        ensures
            final(self).wf(),
            final(self)@ == old(self)@.tick(),
    {
        let mut ids: Vec<ControllerId> = Vec::new();
        let ghost all = self.time_since_heartbeat.keys().remaining().unref();
        for k in it: self.time_since_heartbeat.keys()
            invariant
                it.seq().unref() == all,
                ids@ == all.take(it.index() as int),
        {
            ids.push(*k);
        }
        assert(ids@ =~= all);
        let ghost old_ages = self.time_since_heartbeat@;
        let ghost old_ctrl = self.controllers@;
        let n = ids.len();
        let mut i: usize = 0;
        while i < n
            invariant
                n == ids@.len(),
                i <= n,
                ids@.no_duplicates(),
                ids@.to_set() == old_ages.dom(),
                old_ages == old(self).time_since_heartbeat@,
                old_ctrl == old(self).controllers@,
                self.pairing_controllers@ == old(self).pairing_controllers@,
                old_ctrl.dom() == old_ages.dom(),
                forall|k: ControllerId| #[trigger]
                    old_ctrl.contains_key(k) ==> old_ctrl[k].spec_id() == k,
                forall|k: ControllerId| #[trigger]
                    old_ages.contains_key(k) ==> old_ages[k] < HEARTBEAT_LIMIT,
                forall|k: ControllerId|
                    #![trigger self.time_since_heartbeat@.contains_key(k)]
                    #![trigger self.controllers@.contains_key(k)]
                    {
                        if ids@.subrange(0, i as int).contains(k) {
                            let kept = old_ages.contains_key(k) && old_ages[k] + 1 < HEARTBEAT_LIMIT;
                            &&& self.time_since_heartbeat@.contains_key(k) == kept
                            &&& self.controllers@.contains_key(k) == kept
                            &&& kept ==> self.time_since_heartbeat@[k] == old_ages[k] + 1
                            &&& kept ==> self.controllers@[k] == old_ctrl[k]
                        } else {
                            &&& self.time_since_heartbeat@.contains_key(k) == old_ages.contains_key(k)
                            &&& self.controllers@.contains_key(k) == old_ctrl.contains_key(k)
                            &&& old_ages.contains_key(k) ==> self.time_since_heartbeat@[k] == old_ages[k]
                            &&& old_ctrl.contains_key(k) ==> self.controllers@[k] == old_ctrl[k]
                        }
                    },
            decreases n - i,
        {
            let id = ids[i];
            proof {
                assert(ids@.to_set().contains(id));
                assert(!ids@.subrange(0, i as int).contains(id)) by {
                    if ids@.subrange(0, i as int).contains(id) {
                        let prefix = ids@.subrange(0, i as int);
                        let j = choose|j: int| 0 <= j < prefix.len() && #[trigger] prefix[j] == id;
                        assert(ids@[j] == ids@[i as int]);
                    }
                }
                let prefix = ids@.subrange(0, i as int);
                let next = ids@.subrange(0, i + 1);
                assert(next =~= prefix.push(id));
                assert forall|k: ControllerId| next.contains(k) <==> (prefix.contains(k) || k == id) by {
                    if next.contains(k) {
                        let j = choose|j: int| 0 <= j < next.len() && #[trigger] next[j] == k;
                        if j < i {
                            assert(prefix[j] == k);
                        }
                    }
                    if prefix.contains(k) {
                        let j = choose|j: int| 0 <= j < prefix.len() && #[trigger] prefix[j] == k;
                        assert(next[j] == k);
                    }
                    if k == id {
                        assert(next[i as int] == k);
                    }
                }
            }
            match self.time_since_heartbeat.get(&id) {
                Some(age) => {
                    let age = *age;
                    if age + 1 >= HEARTBEAT_LIMIT {
                        self.controllers.remove(&id);
                        self.time_since_heartbeat.remove(&id);
                    } else {
                        self.time_since_heartbeat.insert(id, age + 1);
                    }
                },
                None => {},
            }
            i += 1;
        }
        proof {
            assert(ids@.subrange(0, n as int) =~= ids@);
            assert forall|k: ControllerId| ids@.contains(k) <==> old_ages.contains_key(k) by {
                assert(ids@.to_set().contains(k) <==> ids@.contains(k));
            }
            assert(self@.controllers =~= old(self)@.tick().controllers);
            assert(self@.ages =~= old(self)@.tick().ages);
            assert(self.controllers@.dom() =~= self.time_since_heartbeat@.dom());
        }
    }

    /// Ticks since the controller `id` registered, if it is live.
    pub fn heartbeat_age(&self, id: ControllerId) -> (r: Option<usize>)
        requires
            self.wf(),
        ensures
            r == (if self@.ages.contains_key(id) {
                Some(self@.ages[id] as usize)
            } else {
                None::<usize>
            }),
    {
        match self.time_since_heartbeat.get(&id) {
            Some(age) => Some(*age),
            None => None,
        }
    }

    /// Whether a controller is live under `id`.
    pub fn is_connected(&self, id: ControllerId) -> (r: bool)
        requires
            self.wf(),
        ensures
            r == self@.controllers.contains_key(id),
    {
        self.controllers.contains_key(&id)
    }
}

/// Registering a controller again drops the listeners attached since the
/// previous registration: the new entity starts with none of them.
pub proof fn lemma_reregistration_orphans_listeners(
    v: RegistryView,
    id: ControllerId,
    ls: Seq<ListenerId>,
)
    ensures
        v.register(id, Seq::empty()).attach_all(id, ls).controllers[id] == ls,
        v.register(id, Seq::empty()).attach_all(id, ls).register(id, Seq::empty()).controllers[id]
            == Seq::<ListenerId>::empty(),
        forall|l: ListenerId|
            ls.contains(l) ==> !v.register(id, Seq::empty()).attach_all(id, ls).register(
                id,
                Seq::empty(),
            ).listeners_of(id).contains(l),
{
    lemma_attach_all_appends(v.register(id, Seq::empty()), id, ls);
}

proof fn lemma_attach_all_appends(v: RegistryView, id: ControllerId, ls: Seq<ListenerId>)
    requires
        v.controllers.contains_key(id),
    ensures
        v.attach_all(id, ls).controllers.contains_key(id),
        v.attach_all(id, ls).controllers[id] == v.controllers[id] + ls,
    decreases ls.len(),
{
    if ls.len() > 0 {
        lemma_attach_all_appends(v, id, ls.drop_last());
        assert(v.controllers[id] + ls =~= (v.controllers[id] + ls.drop_last()).push(ls.last()));
    }
}

/// A controller that does not register again is gone from both the
/// controllers and the ages once `HEARTBEAT_LIMIT` ticks have passed, and
/// it stays gone.
pub proof fn lemma_silent_controller_evicted(v: RegistryView, id: ControllerId, n: nat)
    requires
        n >= HEARTBEAT_LIMIT,
    ensures
        !v.ticks(n).controllers.contains_key(id),
        !v.ticks(n).ages.contains_key(id),
{
    lemma_ticks_evict(v, id, n);
}

proof fn lemma_ticks_evict(v: RegistryView, id: ControllerId, n: nat)
    requires
        n >= 1,
        !v.ages.contains_key(id) || v.ages[id] + n >= HEARTBEAT_LIMIT,
    ensures
        !v.ticks(n).controllers.contains_key(id),
        !v.ticks(n).ages.contains_key(id),
    decreases n,
{
    let t = v.tick();
    assert(v.ticks(n) == t.ticks((n - 1) as nat));
    if n > 1 {
        if t.ages.contains_key(id) {
            assert(t.ages[id] == v.ages[id] + 1);
        }
        lemma_ticks_evict(t, id, (n - 1) as nat);
    } else {
        assert(t.ticks(0) == t);
        assert(!t.ages.contains_key(id) && !t.controllers.contains_key(id));
    }
}

/// Registering resets the age to zero: for fewer than `HEARTBEAT_LIMIT`
/// ticks after a registration the controller stays, with its listeners, and
/// its age counts those ticks.
pub proof fn lemma_registration_postpones_eviction(
    v: RegistryView,
    id: ControllerId,
    ls: Seq<ListenerId>,
    n: nat,
)
    requires
        n < HEARTBEAT_LIMIT,
    ensures
        v.register(id, ls).ticks(n).controllers.contains_key(id),
        v.register(id, ls).ticks(n).controllers[id] == ls,
        v.register(id, ls).ticks(n).ages.contains_key(id),
        v.register(id, ls).ticks(n).ages[id] == n,
{
    lemma_ticks_keep(v.register(id, ls), id, n);
}

proof fn lemma_ticks_keep(v: RegistryView, id: ControllerId, n: nat)
    requires
        v.controllers.contains_key(id),
        v.ages.contains_key(id),
        v.ages[id] + n < HEARTBEAT_LIMIT,
    ensures
        v.ticks(n).controllers.contains_key(id),
        v.ticks(n).controllers[id] == v.controllers[id],
        v.ticks(n).ages.contains_key(id),
        v.ticks(n).ages[id] == v.ages[id] + n,
    decreases n,
{
    if n > 0 {
        lemma_ticks_keep(v.tick(), id, (n - 1) as nat);
    }
}

/// A controller marked for pairing is listed, and can be claimed exactly
/// once: the first claim finds it and removes it, a second one finds nothing.
pub proof fn lemma_pairing_claimed_once(v: RegistryView, id: ControllerId)
    ensures
        v.mark_pairing(id).pairing.contains(id),
        !v.mark_pairing(id).claim_pairing(id).pairing.contains(id),
        v.mark_pairing(id).claim_pairing(id).claim_pairing(id) == v.mark_pairing(id).claim_pairing(
            id,
        ),
{
    assert(v.mark_pairing(id).claim_pairing(id).claim_pairing(id).pairing =~= v.mark_pairing(
        id,
    ).claim_pairing(id).pairing);
}

} // verus!
