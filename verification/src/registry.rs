//! The connection registry and the broadcast fan-out over it.

use std::collections::HashMap;
use tokio::sync::mpsc::UnboundedSender;
use vstd::prelude::*;
use vstd::std_specs::hash::spec_hash_map_iter;
use vstd::std_specs::iter::IteratorSpec;

verus! {

/// The sending half of a connection's outbound queue; what is in the queue
/// is not visible from here.
#[verifier::external_type_specification]
#[verifier::external_body]
#[verifier::reject_recursive_types(T)]
pub struct ExUnboundedSender<T>(UnboundedSender<T>);

/// One registered connection: the queue that its write flow drains.
pub struct Client {
    pub sender: UnboundedSender<String>,
}

/// What became of one frame offered to one connection.
#[derive(Debug, Clone, Copy, PartialEq, Eq, Structural)]
pub struct Delivery {
    /// The connection the frame was offered to.
    pub id: u128,
    /// Whether its queue took the frame; a queue whose reader is gone does
    /// not.
    pub accepted: bool,
}

/// The connections of a report, in its order.
pub open spec fn recipients(report: Seq<Delivery>) -> Seq<u128> {
    report.map_values(|d: Delivery| d.id)
}

/// Every connection in `registered` was offered the frame exactly once, and
/// nobody else was.
pub open spec fn reaches_each_once(report: Seq<Delivery>, registered: Set<u128>) -> bool {
    &&& recipients(report).no_duplicates()
    &&& recipients(report).to_set() == registered
}

/// The connections that are live, each under its identifier.
pub struct Registry {
    clients: HashMap<u128, Client>,
}

impl View for Registry {
    type V = Map<u128, Client>;

    closed spec fn view(&self) -> Map<u128, Client> {
        self.clients@
    }
}

/// Calls `UnboundedSender::send`, which never waits. The contract claims
/// nothing of the result: it is `false` exactly when the receiving half was
/// closed or dropped at the time of the call, which the caller cannot know.
#[verifier::external_body]
pub(crate) fn offer(sender: &UnboundedSender<String>, frame: String) -> (accepted: bool) {
    sender.send(frame).is_ok()
}

impl Registry {
    /// A registry without connections.
    pub fn new() -> (registry: Registry)
        ensures
            registry@ == Map::<u128, Client>::empty(),
    {
        Registry { clients: HashMap::new() }
    }

    /// How many connections are registered.
    pub fn len(&self) -> (n: usize)
        ensures
            n == self@.len(),
            self@.dom().finite(),
    {
        self.clients.len()
    }

    /// Whether `id` is registered.
    pub fn contains(&self, id: u128) -> (found: bool)
        ensures
            found == self@.contains_key(id),
    {
        self.clients.contains_key(&id)
    }

    /// Registers `client` under `id`, whatever was there.
    pub fn register(&mut self, id: u128, client: Client)
        ensures
            final(self)@ == old(self)@.insert(id, client),
    {
        self.clients.insert(id, client);
    }

    /// Removes `id` if it is registered and says whether it was.
    pub fn unregister(&mut self, id: u128) -> (was_registered: bool)
        ensures
            final(self)@ == old(self)@.remove(id),
            was_registered == old(self)@.contains_key(id),
    {
        self.clients.remove(&id).is_some()
    }

    /// Offers `frame` to the queue of `id`; `None` where `id` is not
    /// registered.
    pub fn send_to(&self, id: u128, frame: String) -> (delivery: Option<Delivery>)
        ensures
            delivery is Some == self@.contains_key(id),
            delivery matches Some(d) ==> d.id == id,
    {
        match self.clients.get(&id) {
            Some(client) => Some(Delivery { id, accepted: offer(&client.sender, frame) }),
            None => None,
        }
    }
}

/// The keys of a walk over the map, in the walk's order, name every key
/// once.
proof fn lemma_walk_names_each_once(m: HashMap<u128, Client>, ids: Seq<u128>)
    requires
        spec_hash_map_iter(&m).remaining().no_duplicates(),
        ids.len() == spec_hash_map_iter(&m).remaining().len(),
        forall|j: int|
            0 <= j < ids.len() ==> ids[j] == *(#[trigger] spec_hash_map_iter(&m).remaining()[j]).0,
    ensures
        ids.no_duplicates(),
        ids.to_set() == m@.dom(),
{
    broadcast use vstd::std_specs::hash::group_hash_axioms;

    let pairs = spec_hash_map_iter(&m).remaining();
    assert forall|i: int, j: int| 0 <= i < ids.len() && 0 <= j < ids.len() && i != j implies ids[i]
        != ids[j] by {
        if ids[i] == ids[j] {
            assert(m@.contains_key(*pairs[i].0) && m@[*pairs[i].0] == *pairs[i].1);
            assert(m@.contains_key(*pairs[j].0) && m@[*pairs[j].0] == *pairs[j].1);
            assert(pairs[i] == pairs[j]);
        }
    }
    assert forall|id: u128| ids.to_set().contains(id) <==> m@.dom().contains(id) by {
        if ids.to_set().contains(id) {
            let j = choose|j: int| 0 <= j < ids.len() && ids[j] == id;
            assert(m@.contains_key(*pairs[j].0));
        }
        if m@.dom().contains(id) {
            assert(m@.contains_key(id));
            assert(pairs.contains((&id, &m@[id])));
            let j = choose|j: int| 0 <= j < pairs.len() && pairs[j] == (&id, &m@[id]);
            assert(ids[j] == id);
        }
    }
    assert(ids.to_set() =~= m@.dom());
}

impl Registry {
    /// The identifiers of all connections that are registered at this
    /// instant, each once, in no particular order.
    pub fn snapshot_for_broadcast(&self) -> (ids: Vec<u128>)
        ensures
            ids@.no_duplicates(),
            ids@.to_set() == self@.dom(),
    {
        let mut ids: Vec<u128> = Vec::new();
        let ghost pairs = spec_hash_map_iter(&self.clients).remaining();
        for entry in it: self.clients.iter()
            invariant
                it.seq() == pairs,
                ids@.len() == it.index(),
                forall|j: int| 0 <= j < ids@.len() ==> ids@[j] == *(#[trigger] pairs[j]).0,
        {
            let (id, _) = entry;
            ids.push(*id);
        }
        proof {
            lemma_walk_names_each_once(self.clients, ids@);
        }
        ids
    }
}

/// Offers `message` to the queue of every connection of a snapshot of the
/// registry, each exactly once, and reports what each queue did with it. A
/// queue that refuses does not keep the others from being served.
pub fn broadcast_to_all(clients: &Registry, message: String) -> (report: Vec<Delivery>)
    ensures
        reaches_each_once(report@, clients@.dom()),
{
    let ids = clients.snapshot_for_broadcast();
    let mut report: Vec<Delivery> = Vec::new();
    let mut i: usize = 0;
    while i < ids.len()
        invariant
            i <= ids.len(),
            ids@.to_set() == clients@.dom(),
            report@.len() == i,
            forall|j: int| 0 <= j < i ==> (#[trigger] report@[j]).id == ids@[j],
        decreases ids.len() - i,
    {
        assert(ids@.to_set().contains(ids@[i as int]));
        match clients.send_to(ids[i], message.clone()) {
            Some(delivery) => report.push(delivery),
            None => {},
        }
        i = i + 1;
    }
    assert(recipients(report@) =~= ids@);
    report
}

/// A change to the registry.
pub enum RegistryChange {
    Register { id: u128, client: Client },
    Unregister { id: u128 },
}

/// The registry after a run of changes, the first change first.
pub open spec fn after(changes: Seq<RegistryChange>, start: Map<u128, Client>) -> Map<u128, Client>
    decreases changes.len(),
{
    if changes.len() == 0 {
        start
    } else {
        let before = after(changes.drop_last(), start);
        match changes.last() {
            RegistryChange::Register { id, client } => before.insert(id, client),
            RegistryChange::Unregister { id } => before.remove(id),
        }
    }
}

/// No change of the run unregisters `id`.
pub open spec fn never_unregisters(changes: Seq<RegistryChange>, id: u128) -> bool {
    forall|i: int|
        0 <= i < changes.len() ==> #[trigger] changes[i] != (RegistryChange::Unregister { id })
}

/// No change of the run registers `id`.
pub open spec fn never_registers(changes: Seq<RegistryChange>, id: u128) -> bool {
    forall|i: int| 0 <= i < changes.len() ==> !(#[trigger] changes[i] matches RegistryChange::Register {
        id: other,
        ..
    } && other == id)
}

/// A connection that was registered stays registered through every run of
/// changes that does not unregister it.
pub proof fn law_registered_until_unregistered(
    start: Map<u128, Client>,
    id: u128,
    client: Client,
    later: Seq<RegistryChange>,
)
    requires
        never_unregisters(later, id),
    ensures
        after(later, start.insert(id, client)).contains_key(id),
    decreases later.len(),
{
    if later.len() > 0 {
        assert(later.last() == later[later.len() - 1]);
        assert forall|i: int| 0 <= i < later.drop_last().len() implies #[trigger] later.drop_last()[i]
            != (RegistryChange::Unregister { id }) by {
            assert(later.drop_last()[i] == later[i]);
        }
        law_registered_until_unregistered(start, id, client, later.drop_last());
    }
}

/// A connection that was unregistered stays out through every run of
/// changes that does not register it again.
pub proof fn law_unregistered_until_registered(
    start: Map<u128, Client>,
    id: u128,
    later: Seq<RegistryChange>,
)
    requires
        never_registers(later, id),
    ensures
        !after(later, start.remove(id)).contains_key(id),
    decreases later.len(),
{
    if later.len() > 0 {
        assert(later.last() == later[later.len() - 1]);
        assert forall|i: int| 0 <= i < later.drop_last().len() implies !(
        #[trigger] later.drop_last()[i] matches RegistryChange::Register { id: other, .. } && other
            == id) by {
            assert(later.drop_last()[i] == later[i]);
        }
        law_unregistered_until_registered(start, id, later.drop_last());
    }
}

/// Every connection that is registered when a broadcast takes its snapshot
/// is offered the frame exactly once: once registered, whatever else was
/// registered or unregistered in between, a connection has one entry in the
/// report and no second one.
pub proof fn law_broadcast_reaches_registered_once(
    start: Map<u128, Client>,
    id: u128,
    client: Client,
    later: Seq<RegistryChange>,
    report: Seq<Delivery>,
)
    requires
        never_unregisters(later, id),
        reaches_each_once(report, after(later, start.insert(id, client)).dom()),
    ensures
        exists|i: int| 0 <= i < report.len() && #[trigger] report[i].id == id,
        forall|i: int, j: int|
            0 <= i < report.len() && 0 <= j < report.len() && #[trigger] report[i].id == id
                && #[trigger] report[j].id == id ==> i == j,
{
    law_registered_until_unregistered(start, id, client, later);
    let ids = recipients(report);
    assert(ids.to_set().contains(id));
    let k = choose|k: int| 0 <= k < ids.len() && ids[k] == id;
    assert(report[k].id == id);
    assert forall|i: int, j: int|
        0 <= i < report.len() && 0 <= j < report.len() && #[trigger] report[i].id == id
            && #[trigger] report[j].id == id implies i == j by {
        assert(ids[i] == ids[j]);
    }
}

/// A connection that is not registered when a broadcast takes its snapshot
/// is offered nothing: once unregistered, and not registered again, it has
/// no entry in the report.
pub proof fn law_broadcast_skips_unregistered(
    start: Map<u128, Client>,
    id: u128,
    later: Seq<RegistryChange>,
    report: Seq<Delivery>,
)
    requires
        never_registers(later, id),
        reaches_each_once(report, after(later, start.remove(id)).dom()),
    ensures
        forall|i: int| 0 <= i < report.len() ==> (#[trigger] report[i]).id != id,
{
    law_unregistered_until_registered(start, id, later);
    let ids = recipients(report);
    assert forall|i: int| 0 <= i < report.len() implies (#[trigger] report[i]).id != id by {
        if report[i].id == id {
            assert(ids[i] == id);
            assert(ids.to_set().contains(id));
        }
    }
}

} // verus!
