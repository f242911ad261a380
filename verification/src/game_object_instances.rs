//! The table of presented GameObject instances: which instances survive a
//! world refresh, how visible objects update or join it, and when the scene
//! revision moves.
//!
//! The caller reads the world: for each instance whether its object is still
//! the same live GameObject, and for each visible object its identity key
//! (an integer the caller derives from the world identity), display and
//! whether its placement resolved.

use vstd::prelude::*;

use crate::game_object::TransportReadiness;
use crate::search::{first_from, lemma_first_from, lemma_first_from_unique};

verus! {

/// What the table keeps of one instance.
#[derive(Clone, Copy, Debug, PartialEq, Eq, Structural)]
pub struct InstanceFacts {
    pub identity: u64,
    pub display_id: u32,
    pub placement_ok: bool,
}

/// The scene revision after one change: a wrapping counter.
pub open spec fn next_revision(revision: u64) -> u64 {
    if revision == u64::MAX {
        0
    } else {
        (revision + 1) as u64
    }
}

/// The scene revision after `changes` changes.
pub open spec fn revision_after(revision: u64, changes: nat) -> u64
    decreases changes,
{
    if changes == 0 {
        revision
    } else {
        next_revision(revision_after(revision, (changes - 1) as nat))
    }
}

/// The instances whose objects are still alive, in order (`alive` runs
/// parallel to `instances`).
pub open spec fn kept(instances: Seq<InstanceFacts>, alive: Seq<bool>) -> Seq<InstanceFacts>
    decreases instances.len(),
{
    if instances.len() == 0 || alive.len() != instances.len() {
        Seq::empty()
    } else {
        let rest = kept(instances.drop_last(), alive.drop_last());
        if alive.last() {
            rest.push(instances.last())
        } else {
            rest
        }
    }
}

pub open spec fn same_identity(identity: u64) -> spec_fn(InstanceFacts) -> bool {
    |i: InstanceFacts| i.identity == identity
}

/// Index of the instance of `identity`, or the number of instances.
pub open spec fn instance_index(table: Seq<InstanceFacts>, identity: u64) -> int {
    first_from(table, 0, same_identity(identity))
}

/// One visible object: an existing instance takes its facts, counting a
/// change of display and a change of placement resolution; a new object is
/// appended, which is one change.
pub open spec fn visit(table: Seq<InstanceFacts>, object: InstanceFacts) -> (Seq<InstanceFacts>, nat) {
    let k = instance_index(table, object.identity);
    if k < table.len() {
        (
            table.update(k, object),
            ((if table[k].display_id != object.display_id {
                1int
            } else {
                0int
            }) + (if table[k].placement_ok != object.placement_ok {
                1int
            } else {
                0int
            })) as nat,
        )
    } else {
        (table.push(object), 1)
    }
}

/// The visible objects in turn: the table after them and the changes counted.
pub open spec fn visit_all(table: Seq<InstanceFacts>, visible: Seq<InstanceFacts>) -> (
    Seq<InstanceFacts>,
    nat,
)
    decreases visible.len(),
{
    if visible.len() == 0 {
        (table, 0)
    } else {
        let (before, changes) = visit_all(table, visible.drop_last());
        let (after, more) = visit(before, visible.last());
        (after, changes + more)
    }
}

/// A refresh: dropping instances whose object is gone is one change when any
/// is dropped; then every visible object is visited.
pub open spec fn refreshed(
    instances: Seq<InstanceFacts>,
    alive: Seq<bool>,
    visible: Seq<InstanceFacts>,
) -> (Seq<InstanceFacts>, nat) {
    let survivors = kept(instances, alive);
    let (table, changes) = visit_all(survivors, visible);
    (
        table,
        changes + if survivors.len() != instances.len() {
            1nat
        } else {
            0nat
        },
    )
}

pub proof fn lemma_revision_after_add(revision: u64, a: nat, b: nat)
    ensures
        revision_after(revision_after(revision, a), b) == revision_after(revision, a + b),
    decreases b,
{
    if b > 0 {
        lemma_revision_after_add(revision, a, (b - 1) as nat);
    }
}

fn bump(revision: u64) -> (next: u64)
    ensures
        next == next_revision(revision),
{
    if revision == u64::MAX {
        0
    } else {
        revision + 1
    }
}

/// The presented instances and the scene revision.
pub struct InstanceTable {
    instances: Vec<InstanceFacts>,
    revision: u64,
}

impl InstanceTable {
    pub closed spec fn facts(&self) -> Seq<InstanceFacts> {
        self.instances@
    }

    pub closed spec fn scene_revision(&self) -> u64 {
        self.revision
    }

    pub fn new() -> (table: Self)
        ensures
            table.facts() == Seq::<InstanceFacts>::empty(),
            table.scene_revision() == 0,
    {
        InstanceTable { instances: Vec::new(), revision: 0 }
    }

    pub fn instances(&self) -> (instances: &[InstanceFacts])
        ensures
            instances@ == self.facts(),
    {
        self.instances.as_slice()
    }

    pub fn revision(&self) -> (revision: u64)
        ensures
            revision == self.scene_revision(),
    {
        self.revision
    }

    /// The index of the instance of `identity`.
    pub fn index_of(&self, identity: u64) -> (index: Option<usize>)
        ensures
            index == if instance_index(self.facts(), identity) < self.facts().len() {
                Some(instance_index(self.facts(), identity) as usize)
            } else {
                None::<usize>
            },
    {
        let k = find_instance(self.instances.as_slice(), identity);
        if k < self.instances.len() {
            Some(k)
        } else {
            None
        }
    }

    /// Refreshes the table against the world: `alive[i]` says whether the
    /// object of instance `i` is still the same live GameObject, `visible`
    /// lists the visible objects in the world's order. Returns whether the
    /// scene revision moved, which releases unused resources.
    ///
    /// A resource request that fails while an object is visited ends the
    /// refresh before that object; the table is then the refresh over the
    /// objects visited before it.
    pub fn refresh(&mut self, alive: &[bool], visible: &[InstanceFacts]) -> (changed: bool)
        requires
            alive@.len() == old(self).facts().len(),
        ensures
            ({
                let (table, changes) = refreshed(old(self).facts(), alive@, visible@);
                &&& final(self).facts() == table
                &&& final(self).scene_revision() == revision_after(
                    old(self).scene_revision(),
                    changes,
                )
            }),
            changed == (final(self).scene_revision() != old(self).scene_revision()),
    {
        let ghost start = self.instances@;
        let ghost r0 = self.revision;
        let n = self.instances.len();
        let mut survivors: Vec<InstanceFacts> = Vec::new();
        let mut i: usize = 0;
        while i < n
            invariant
                n == start.len(),
                alive@.len() == n,
                self.instances@ == start,
                0 <= i <= n,
                survivors@ == kept(start.take(i as int), alive@.take(i as int)),
            decreases n - i,
        {
            proof {
                assert(start.take(i as int + 1).drop_last() =~= start.take(i as int));
                assert(alive@.take(i as int + 1).drop_last() =~= alive@.take(i as int));
            }
            if alive[i] {
                survivors.push(self.instances[i]);
            }
            i += 1;
        }
        proof {
            assert(start.take(n as int) =~= start);
            assert(alive@.take(n as int) =~= alive@);
        }
        let ghost dropped: nat = if survivors@.len() != start.len() {
            1
        } else {
            0
        };
        let previous = self.revision;
        if survivors.len() != n {
            self.revision = bump(self.revision);
        }
        assert(self.revision == revision_after(r0, dropped)) by {
            reveal_with_fuel(revision_after, 2);
        }
        self.instances = survivors;
        let ghost base = self.instances@;
        let ghost mut counted: nat = 0;
        let mut j: usize = 0;
        while j < visible.len()
            invariant
                0 <= j <= visible@.len(),
                base == kept(start, alive@),
                visit_all(base, visible@.take(j as int)) == (self.instances@, counted),
                self.revision == revision_after(r0, dropped + counted),
            decreases visible@.len() - j,
        {
            proof {
                assert(visible@.take(j as int + 1).drop_last() =~= visible@.take(j as int));
            }
            let object = visible[j];
            let ghost table = self.instances@;
            let k = find_instance(self.instances.as_slice(), object.identity);
            if k < self.instances.len() {
                let current = self.instances[k];
                let ghost more: nat = ((if current.display_id != object.display_id {
                    1int
                } else {
                    0int
                }) + (if current.placement_ok != object.placement_ok {
                    1int
                } else {
                    0int
                })) as nat;
                let ghost r_before = self.revision;
                if current.display_id != object.display_id {
                    self.revision = bump(self.revision);
                }
                if current.placement_ok != object.placement_ok {
                    self.revision = bump(self.revision);
                }
                proof {
                    assert(self.revision == revision_after(r_before, more)) by {
                        reveal_with_fuel(revision_after, 3);
                    }
                    lemma_revision_after_add(r0, dropped + counted, more);
                    counted = counted + more;
                }
                self.instances.set(k, object);
            } else {
                self.instances.push(object);
                self.revision = bump(self.revision);
                proof {
                    counted = counted + 1;
                }
            }
            j += 1;
        }
        proof {
            assert(visible@.take(j as int) =~= visible@);
        }
        self.revision != previous
    }

    /// Retires every instance: the revision moves when there were any.
    pub fn disconnect(&mut self)
        ensures
            final(self).facts() == Seq::<InstanceFacts>::empty(),
            final(self).scene_revision() == if old(self).facts().len() > 0 {
                next_revision(old(self).scene_revision())
            } else {
                old(self).scene_revision()
            },
    {
        if self.instances.len() > 0 {
            self.revision = bump(self.revision);
        }
        self.instances = Vec::new();
    }
}

/// Finds the instance of `identity`, or the number of instances.
fn find_instance(instances: &[InstanceFacts], identity: u64) -> (index: usize)
    ensures
        index as int == instance_index(instances@, identity),
        index <= instances@.len(),
{
    let ghost p = same_identity(identity);
    let mut i: usize = 0;
    while i < instances.len()
        invariant
            p == same_identity(identity),
            0 <= i <= instances@.len(),
            forall|j: int| 0 <= j < i ==> !p(#[trigger] instances@[j]),
        decreases instances@.len() - i,
    {
        if instances[i].identity == identity {
            proof {
                lemma_first_from_unique(instances@, 0, i as int, p);
            }
            return i;
        }
        i += 1;
    }
    proof {
        lemma_first_from_unique(instances@, 0, i as int, p);
    }
    i
}

/// No identity has two instances.
pub open spec fn distinct_identities(table: Seq<InstanceFacts>) -> bool {
    forall|i: int, j: int|
        0 <= i < j < table.len() ==> (#[trigger] table[i]).identity != (#[trigger] table[j]).identity
}

/// An identity absent from the instances is absent from the survivors.
proof fn lemma_kept_avoids(instances: Seq<InstanceFacts>, alive: Seq<bool>, identity: u64)
    requires
        forall|i: int| 0 <= i < instances.len() ==> (#[trigger] instances[i]).identity != identity,
    ensures
        forall|m: int|
            0 <= m < kept(instances, alive).len() ==> (#[trigger] kept(instances, alive)[m]).identity
                != identity,
    decreases instances.len(),
{
    if instances.len() > 0 && alive.len() == instances.len() {
        let front = instances.drop_last();
        assert forall|i: int| 0 <= i < front.len() implies (#[trigger] front[i]).identity != identity by {
            assert(front[i] == instances[i]);
        }
        lemma_kept_avoids(front, alive.drop_last(), identity);
        let rest = kept(front, alive.drop_last());
        let all = kept(instances, alive);
        assert(all == if alive.last() {
            rest.push(instances.last())
        } else {
            rest
        });
        assert forall|m: int| 0 <= m < all.len() implies (#[trigger] all[m]).identity != identity by {
            if m < rest.len() {
                assert(all[m] == rest[m]);
            } else {
                assert(all[m] == instances[instances.len() - 1]);
            }
        }
    }
}

proof fn lemma_kept_distinct(instances: Seq<InstanceFacts>, alive: Seq<bool>)
    requires
        distinct_identities(instances),
    ensures
        distinct_identities(kept(instances, alive)),
    decreases instances.len(),
{
    if instances.len() > 0 && alive.len() == instances.len() {
        let front = instances.drop_last();
        let last = instances[instances.len() - 1];
        assert forall|i: int, j: int| 0 <= i < j < front.len() implies (#[trigger] front[i]).identity
            != (#[trigger] front[j]).identity by {
            assert(front[i] == instances[i]);
            assert(front[j] == instances[j]);
        }
        lemma_kept_distinct(front, alive.drop_last());
        assert forall|i: int| 0 <= i < front.len() implies (#[trigger] front[i]).identity
            != last.identity by {
            assert(front[i] == instances[i]);
        }
        lemma_kept_avoids(front, alive.drop_last(), last.identity);
        let rest = kept(front, alive.drop_last());
        let all = kept(instances, alive);
        assert(all == if alive.last() {
            rest.push(last)
        } else {
            rest
        });
        assert forall|i: int, j: int| 0 <= i < j < all.len() implies (#[trigger] all[i]).identity
            != (#[trigger] all[j]).identity by {
            assert(all[i] == rest[i]);
            if j < rest.len() {
                assert(all[j] == rest[j]);
            } else {
                assert(all[j] == last);
            }
        }
    }
}

proof fn lemma_visit_all_distinct(table: Seq<InstanceFacts>, visible: Seq<InstanceFacts>)
    requires
        distinct_identities(table),
    ensures
        distinct_identities(visit_all(table, visible).0),
    decreases visible.len(),
{
    if visible.len() > 0 {
        lemma_visit_all_distinct(table, visible.drop_last());
        let before = visit_all(table, visible.drop_last()).0;
        let object = visible.last();
        let p = same_identity(object.identity);
        lemma_first_from(before, 0, p);
        let k = instance_index(before, object.identity);
        let after = visit(before, object).0;
        if k < before.len() {
            assert(after == before.update(k, object));
            assert forall|i: int, j: int| 0 <= i < j < after.len() implies (#[trigger] after[i]).identity
                != (#[trigger] after[j]).identity by {
                assert(after[i].identity == before[i].identity);
                assert(after[j].identity == before[j].identity);
            }
        } else {
            assert(after == before.push(object));
            assert forall|i: int, j: int| 0 <= i < j < after.len() implies (#[trigger] after[i]).identity
                != (#[trigger] after[j]).identity by {
                if j == before.len() {
                    assert(!p(before[i]));
                }
            }
        }
    }
}

/// A refresh never gives one identity two instances: survivors keep theirs
/// and a visible object joins the table only when its identity is absent.
pub proof fn law_refresh_keeps_one_instance_per_identity(
    instances: Seq<InstanceFacts>,
    alive: Seq<bool>,
    visible: Seq<InstanceFacts>,
)
    requires
        distinct_identities(instances),
    ensures
        distinct_identities(refreshed(instances, alive, visible).0),
{
    lemma_kept_distinct(instances, alive);
    lemma_visit_all_distinct(kept(instances, alive), visible);
}

/// How a finished CPU generation ends.
#[derive(Clone, Copy, Debug, PartialEq, Eq, Structural)]
pub enum PendingFinish {
    /// Its resource is published to the instances that request it.
    Publish,
    /// It was withdrawn: its outcome, even a failure, is only logged.
    Discard,
    /// Its task failed while it could still publish: the error is returned.
    Fail,
}

/// The end of a generation that may (`eligible`) or may no longer publish,
/// whose task finished (`task_ok`) or failed.
pub open spec fn finish_outcome(eligible: bool, task_ok: bool) -> PendingFinish {
    if !eligible {
        PendingFinish::Discard
    } else if task_ok {
        PendingFinish::Publish
    } else {
        PendingFinish::Fail
    }
}

/// Every object lifetime the GameObject presentation owns for one world: the
/// instance table, the resident resources (counted), the world and transport
/// identities (caller keys), the loading-card transport readiness, and the
/// CPU generation in flight with whether it may still publish.
pub struct GameObjectLifetimes {
    pub instances: InstanceTable,
    pub readiness: TransportReadiness,
    pub resident_resources: usize,
    pub world_identity: Option<u64>,
    pub transport_guid: Option<u64>,
    pub transport_identity: Option<u64>,
    pub pending: Option<bool>,
}

impl GameObjectLifetimes {
    /// `self` is `before` with every lifetime retired: no instance, resource
    /// or transport, ready, the revision moved when there were instances, and
    /// a generation in flight withdrawn from publication.
    pub open spec fn retired_from(&self, before: &Self) -> bool {
        &&& self.instances.facts() == Seq::<InstanceFacts>::empty()
        &&& self.instances.scene_revision() == if before.instances.facts().len() > 0 {
            next_revision(before.instances.scene_revision())
        } else {
            before.instances.scene_revision()
        }
        &&& self.resident_resources == 0
        &&& self.readiness.ready
        &&& self.readiness.last is None
        &&& self.transport_guid is None
        &&& self.transport_identity is None
        &&& self.pending == match before.pending {
            Some(_) => Some(false),
            None => None::<bool>,
        }
    }

    pub fn new() -> (lifetimes: Self)
        ensures
            lifetimes.instances.facts() == Seq::<InstanceFacts>::empty(),
            lifetimes.instances.scene_revision() == 0,
            lifetimes.resident_resources == 0,
            lifetimes.readiness.ready,
            lifetimes.readiness.last is None,
            lifetimes.world_identity is None,
            lifetimes.transport_guid is None,
            lifetimes.transport_identity is None,
            lifetimes.pending is None,
    {
        GameObjectLifetimes {
            instances: InstanceTable::new(),
            readiness: TransportReadiness::new(),
            resident_resources: 0,
            world_identity: None,
            transport_guid: None,
            transport_identity: None,
            pending: None,
        }
    }

    /// Retires every object lifetime and prevents old-world publication.
    pub fn disconnect(&mut self)
        ensures
            final(self).retired_from(old(self)),
            final(self).world_identity is None,
    {
        self.instances.disconnect();
        self.readiness.disconnect();
        self.resident_resources = 0;
        self.world_identity = None;
        self.transport_guid = None;
        self.transport_identity = None;
        if self.pending.is_some() {
            self.pending = Some(false);
        }
    }

    /// Admits the world whose local player has `identity`: a different world
    /// retires every lifetime of the previous one first. Returns whether it
    /// did.
    pub fn admit_world(&mut self, identity: Option<u64>) -> (retired: bool)
        ensures
            retired == (old(self).world_identity != identity),
            final(self).world_identity == identity,
            retired ==> final(self).retired_from(old(self)),
            !retired ==> final(self).instances.facts() == old(self).instances.facts()
                && final(self).instances.scene_revision() == old(self).instances.scene_revision()
                && final(self).resident_resources == old(self).resident_resources
                && final(self).readiness == old(self).readiness && final(self).transport_guid
                == old(self).transport_guid && final(self).transport_identity == old(
                self,
            ).transport_identity && final(self).pending == old(self).pending,
    {
        if self.world_identity != identity {
            self.disconnect();
            self.world_identity = identity;
            true
        } else {
            false
        }
    }

    /// A CPU generation was submitted: it may publish.
    pub fn generation_submitted(&mut self)
        requires
            old(self).pending is None,
        ensures
            final(self).pending == Some(true),
    {
        self.pending = Some(true);
    }

    /// The generation in flight finished (`task_ok`) or its task failed.
    pub fn finish_pending(&mut self, task_ok: bool) -> (finish: PendingFinish)
        requires
            old(self).pending is Some,
        ensures
            finish == finish_outcome(old(self).pending->0, task_ok),
            final(self).pending is None,
    {
        let eligible = match self.pending {
            Some(eligible) => eligible,
            None => false,
        };
        self.pending = None;
        if !eligible {
            PendingFinish::Discard
        } else if task_ok {
            PendingFinish::Publish
        } else {
            PendingFinish::Fail
        }
    }
}

/// A generation in flight when the presentation disconnects is never
/// published, whatever its task returns.
pub proof fn law_generation_withdrawn_at_disconnect(
    after: GameObjectLifetimes,
    before: GameObjectLifetimes,
    task_ok: bool,
)
    requires
        after.retired_from(&before),
        before.pending is Some,
    ensures
        after.pending is Some,
        finish_outcome(after.pending->0, task_ok) == PendingFinish::Discard,
{
}

} // verus!
