//! Hidden loading-card residency: character maps are queued once for
//! prewarming, and cards are cached per map and display extent.

use vstd::prelude::*;

use std::collections::VecDeque;

use crate::search::{first_from, lemma_first_from_unique};
use crate::text::{eq_ignore_ascii_case, str_eq_ignore_ascii_case};

verus! {

pub open spec fn card_matches<V>(e: (u32, u32, u32, V), map_id: u32, extent: (u32, u32)) -> bool {
    e.0 == map_id && e.1 == extent.0 && e.2 == extent.1
}

pub open spec fn card_index<V>(cache: Seq<(u32, u32, u32, V)>, map_id: u32, extent: (u32, u32)) -> int {
    first_from(cache, 0, |e: (u32, u32, u32, V)| card_matches(e, map_id, extent))
}

pub open spec fn is_cached<V>(cache: Seq<(u32, u32, u32, V)>, map_id: u32, extent: (u32, u32)) -> bool {
    card_index(cache, map_id, extent) < cache.len()
}

/// Queues, in order, each map that is neither cached nor already queued.
pub open spec fn queued_after<V>(
    queue: Seq<u32>,
    cache: Seq<(u32, u32, u32, V)>,
    maps: Seq<u32>,
    extent: (u32, u32),
) -> Seq<u32>
    decreases maps.len(),
{
    if maps.len() == 0 {
        queue
    } else {
        let before = queued_after(queue, cache, maps.drop_last(), extent);
        let m = maps.last();
        if !is_cached(cache, m, extent) && !before.contains(m) {
            before.push(m)
        } else {
            before
        }
    }
}

/// Each map appears at most once.
pub open spec fn no_duplicates(queue: Seq<u32>) -> bool {
    forall|i: int, j: int| 0 <= i < j < queue.len() ==> queue[i] != queue[j]
}

/// Loading cards and their prewarm queue; `V` is the renderer-resident card.
pub struct LoadingScreenPrewarm<V> {
    cache: Vec<(u32, u32, u32, V)>,
    queue: VecDeque<u32>,
}

impl<V> LoadingScreenPrewarm<V> {
    pub closed spec fn cache(&self) -> Seq<(u32, u32, u32, V)> {
        self.cache@
    }

    pub closed spec fn queue(&self) -> Seq<u32> {
        self.queue@
    }

    pub fn new() -> (prewarm: Self)
        ensures
            prewarm.cache() == Seq::<(u32, u32, u32, V)>::empty(),
            prewarm.queue() == Seq::<u32>::empty(),
    {
        LoadingScreenPrewarm { cache: Vec::new(), queue: VecDeque::new() }
    }

    fn find(&self, map_id: u32, extent: (u32, u32)) -> (index: usize)
        ensures
            index as int == card_index(self.cache(), map_id, extent),
            index <= self.cache().len(),
    {
        let ghost p = |e: (u32, u32, u32, V)| card_matches(e, map_id, extent);
        let mut i: usize = 0;
        while i < self.cache.len() && !(self.cache[i].0 == map_id && self.cache[i].1 == extent.0
            && self.cache[i].2 == extent.1)
            invariant
                0 <= i <= self.cache@.len(),
                p == (|e: (u32, u32, u32, V)| card_matches(e, map_id, extent)),
                forall|j: int| 0 <= j < i ==> !p(#[trigger] self.cache@[j]),
            decreases self.cache@.len() - i,
        {
            i += 1;
        }
        proof {
            lemma_first_from_unique(self.cache@, 0, i as int, p);
        }
        i
    }

    /// Whether a card for this map and extent is resident.
    pub fn contains(&self, map_id: u32, extent: (u32, u32)) -> (cached: bool)
        ensures
            cached == is_cached(self.cache(), map_id, extent),
    {
        self.find(map_id, extent) < self.cache.len()
    }

    /// The resident card for this map and extent.
    pub fn get(&self, map_id: u32, extent: (u32, u32)) -> (card: Option<&V>)
        ensures
            ({
                let k = card_index(self.cache(), map_id, extent);
                if k < self.cache().len() {
                    card == Some(&self.cache()[k].3)
                } else {
                    card is None
                }
            }),
    {
        let k = self.find(map_id, extent);
        if k < self.cache.len() {
            Some(&self.cache[k].3)
        } else {
            None
        }
    }

    /// Retains a prepared card.
    pub fn insert(&mut self, map_id: u32, extent: (u32, u32), card: V)
        ensures
            final(self).queue() == old(self).queue(),
            final(self).cache() == old(self).cache().push((map_id, extent.0, extent.1, card)),
    {
        self.cache.push((map_id, extent.0, extent.1, card));
    }

    fn queue_contains(&self, map_id: u32) -> (queued: bool)
        ensures
            queued == self.queue().contains(map_id),
    {
        let mut i: usize = 0;
        while i < self.queue.len()
            invariant
                0 <= i <= self.queue@.len(),
                forall|j: int| 0 <= j < i ==> self.queue@[j] != map_id,
            decreases self.queue@.len() - i,
        {
            if self.queue[i] == map_id {
                return true;
            }
            i += 1;
        }
        false
    }

    /// Queues each distinct character map for hidden loading-card residency.
    pub fn queue_prewarms(&mut self, map_ids: &[u32], extent: (u32, u32))
        requires
            no_duplicates(old(self).queue()),
        ensures
            final(self).cache() == old(self).cache(),
            final(self).queue() == queued_after(old(self).queue(), old(self).cache(), map_ids@, extent),
            no_duplicates(final(self).queue()),
    {
        let ghost q0 = self.queue@;
        let mut i: usize = 0;
        while i < map_ids.len()
            invariant
                0 <= i <= map_ids@.len(),
                self.cache@ == old(self).cache@,
                q0 == old(self).queue@,
                self.queue@ == queued_after(q0, self.cache@, map_ids@.take(i as int), extent),
                no_duplicates(self.queue@),
            decreases map_ids@.len() - i,
        {
            assert(map_ids@.take(i as int + 1).drop_last() =~= map_ids@.take(i as int));
            assert(map_ids@.take(i as int + 1).last() == map_ids@[i as int]);
            let m = map_ids[i];
            if !self.contains(m, extent) && !self.queue_contains(m) {
                let ghost before = self.queue@;
                self.queue.push_back(m);
                assert forall|a: int, b: int| 0 <= a < b < self.queue@.len() implies self.queue@[a]
                    != self.queue@[b] by {
                    if b == before.len() {
                        assert(before[a] == self.queue@[a]);
                    }
                }
            }
            i += 1;
        }
        assert(map_ids@.take(map_ids@.len() as int) =~= map_ids@);
    }

    /// Takes the next queued map that has no resident card at this extent;
    /// cached maps ahead of it leave the queue.
    pub fn next_prewarm(&mut self, extent: (u32, u32)) -> (map_id: Option<u32>)
        requires
            no_duplicates(old(self).queue()),
        ensures
            final(self).cache() == old(self).cache(),
            no_duplicates(final(self).queue()),
            ({
                let q = old(self).queue();
                let k = first_from(q, 0, |m: u32| !is_cached(old(self).cache(), m, extent));
                if k < q.len() {
                    map_id == Some(q[k]) && final(self).queue() == q.skip(k + 1)
                } else {
                    map_id is None && final(self).queue() == Seq::<u32>::empty()
                }
            }),
    {
        let ghost q = self.queue@;
        let ghost p = |m: u32| !is_cached(self.cache@, m, extent);
        let ghost mut taken: int = 0;
        while self.queue.len() > 0
            invariant
                self.cache@ == old(self).cache@,
                q == old(self).queue@,
                no_duplicates(q),
                p == (|m: u32| !is_cached(old(self).cache@, m, extent)),
                0 <= taken <= q.len(),
                self.queue@ == q.skip(taken),
                forall|j: int| 0 <= j < taken ==> !p(#[trigger] q[j]),
            decreases self.queue@.len(),
        {
            let m = match self.queue.pop_front() {
                Some(m) => m,
                None => {
                    return None;
                },
            };
            assert(q[taken] == m);
            proof {
                taken = taken + 1;
            }
            assert(self.queue@ =~= q.skip(taken));
            if !self.contains(m, extent) {
                proof {
                    lemma_first_from_unique(q, 0, taken - 1, p);
                    assert forall|a: int, b: int| 0 <= a < b < self.queue@.len() implies self.queue@[a]
                        != self.queue@[b] by {
                        assert(self.queue@[a] == q[a + taken]);
                        assert(self.queue@[b] == q[b + taken]);
                    }
                }
                return Some(m);
            }
        }
        proof {
            lemma_first_from_unique(q, 0, taken, p);
        }
        None
    }

    /// A disconnect forgets every card and queued map.
    pub fn clear(&mut self)
        ensures
            final(self).cache() == Seq::<(u32, u32, u32, V)>::empty(),
            final(self).queue() == Seq::<u32>::empty(),
    {
        self.cache = Vec::new();
        self.queue = VecDeque::new();
    }
}

/// Cards are prewarmed only behind an established, presented character
/// selection scene, with no loading card up and no world active.
pub fn prewarm_allowed(
    loading_active: bool,
    world_active: bool,
    current_screen: &str,
    presented_screen: Option<&str>,
) -> (allowed: bool)
    ensures
        allowed == (!loading_active && !world_active && eq_ignore_ascii_case(
            current_screen@,
            "charselect"@,
        ) && match presented_screen {
            Some(p) => eq_ignore_ascii_case(p@, "charselect"@),
            None => false,
        }),
{
    if loading_active || world_active || !str_eq_ignore_ascii_case(current_screen, "charselect") {
        return false;
    }
    match presented_screen {
        Some(p) => str_eq_ignore_ascii_case(p, "charselect"),
        None => false,
    }
}

/// Queuing a map that is already queued or cached changes nothing: every
/// map is prepared at most once per extent.
pub proof fn law_queue_skips_known_maps<V>(
    queue: Seq<u32>,
    cache: Seq<(u32, u32, u32, V)>,
    m: u32,
    extent: (u32, u32),
)
    requires
        queue.contains(m) || is_cached(cache, m, extent),
    ensures
        queued_after(queue, cache, seq![m], extent) == queue,
{
    assert(seq![m].drop_last() =~= Seq::<u32>::empty());
    assert(queued_after(queue, cache, seq![m].drop_last(), extent) == queue);
}

} // verus!
