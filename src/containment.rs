//! Containment: which entity holds which, as a forest of edges whose depth
//! grows by one at each level inward, up to a fixed cap.
use vstd::prelude::*;

verus! {

/// Deepest nesting allowed (a bag in a bag in a bag ...).
pub const MAX_CONTAINMENT_DEPTH: u8 = 8;

/// `container_id` holds `contained_id`, `depth` levels below the top.
#[derive(Clone, Copy, Debug, PartialEq, Eq, Structural)]
pub struct Containment {
    pub id: u64,
    pub container_id: u64,
    pub contained_id: u64,
    pub depth: u8,
    pub slot_index: Option<u8>,
}

#[derive(Clone, Copy, Debug, PartialEq, Eq, Structural)]
pub enum ContainmentError {
    /// An entity cannot hold itself.
    SelfNesting,
    /// The entity is already held by some container.
    AlreadyContained,
    /// The entity would end up inside itself, through what it holds.
    WouldCycle,
    /// The nesting would pass the depth cap.
    TooDeep,
    /// Nothing holds the entity.
    NotContained,
    /// The entity still holds things; empty it first.
    HoldsContents,
}

/// Some edge holds `x`.
pub open spec fn is_held(edges: Seq<Containment>, x: u64) -> bool {
    exists|i: int| 0 <= i < edges.len() && (#[trigger] edges[i]).contained_id == x
}

/// Some edge has `x` as its container.
pub open spec fn holds_any(edges: Seq<Containment>, x: u64) -> bool {
    exists|i: int| 0 <= i < edges.len() && (#[trigger] edges[i]).container_id == x
}

/// The edge that holds `x` (unique in a well-formed forest).
pub open spec fn holder_edge(edges: Seq<Containment>, x: u64) -> int {
    choose|i: int| 0 <= i < edges.len() && (#[trigger] edges[i]).contained_id == x
}

/// How deep `x` sits: 0 when nothing holds it.
pub open spec fn depth_of(edges: Seq<Containment>, x: u64) -> int {
    if is_held(edges, x) {
        edges[holder_edge(edges, x)].depth as int
    } else {
        0
    }
}

/// `anc` is reached from `x` by following holders at most `fuel` times.
pub open spec fn inside(edges: Seq<Containment>, x: u64, anc: u64, fuel: nat) -> bool
    decreases fuel,
{
    if fuel == 0 || !is_held(edges, x) {
        false
    } else {
        let up = edges[holder_edge(edges, x)].container_id;
        up == anc || inside(edges, up, anc, (fuel - 1) as nat)
    }
}

/// Each entity has at most one holder; depths start at 1 under a top-level
/// container, grow by exactly one inward, and stay within the cap.
pub open spec fn forest_wf(edges: Seq<Containment>) -> bool {
    &&& forall|i: int, j: int|
        0 <= i < edges.len() && 0 <= j < edges.len() && i != j ==> (#[trigger] edges[i]).contained_id
            != (#[trigger] edges[j]).contained_id
    &&& forall|i: int|
        0 <= i < edges.len() ==> 1 <= (#[trigger] edges[i]).depth <= MAX_CONTAINMENT_DEPTH
            && edges[i].depth == depth_of(edges, edges[i].container_id) + 1
}

/// In a well-formed forest whatever holds `x`, directly or not, sits
/// strictly shallower than `x`; so no entity is ever inside itself.
pub proof fn lemma_inside_is_shallower(edges: Seq<Containment>, x: u64, anc: u64, fuel: nat)
    requires
        forest_wf(edges),
        inside(edges, x, anc, fuel),
    ensures
        depth_of(edges, anc) < depth_of(edges, x),
        x != anc,
    decreases fuel,
{
    let i = holder_edge(edges, x);
    let up = edges[i].container_id;
    assert(edges[i].depth == depth_of(edges, up) + 1);
    if up != anc {
        lemma_inside_is_shallower(edges, up, anc, (fuel - 1) as nat);
    }
}

/// An entity that some other entity sits inside holds something.
proof fn lemma_inside_holds(edges: Seq<Containment>, x: u64, anc: u64, fuel: nat)
    requires
        inside(edges, x, anc, fuel),
    ensures
        holds_any(edges, anc),
    decreases fuel,
{
    let i = holder_edge(edges, x);
    let up = edges[i].container_id;
    if up != anc {
        lemma_inside_holds(edges, up, anc, (fuel - 1) as nat);
    }
}

pub struct ContainmentForest {
    pub edges: Vec<Containment>,
    pub next_id: u64,
}

impl ContainmentForest {
    pub open spec fn wf(&self) -> bool {
        forest_wf(self.edges@)
    }

    pub fn new() -> (r: ContainmentForest)
        ensures
            r.wf(),
            r.edges@.len() == 0,
            r.next_id == 1,
    {
        ContainmentForest { edges: Vec::new(), next_id: 1 }
    }

    /// The index of the edge that holds `x`, if any.
    pub fn holder_of(&self, x: u64) -> (r: Option<usize>)
        requires
            self.wf(),
        ensures
            r is None <==> !is_held(self.edges@, x),
            r is Some ==> r->0 == holder_edge(self.edges@, x) && r->0 < self.edges@.len(),
    {
        let mut i: usize = 0;
        while i < self.edges.len()
            invariant
                self.wf(),
                0 <= i <= self.edges@.len(),
                forall|j: int| 0 <= j < i ==> (#[trigger] self.edges@[j]).contained_id != x,
            decreases self.edges.len() - i,
        {
            if self.edges[i].contained_id == x {
                assert(self.edges@[i as int].contained_id == x);
                let ghost k = holder_edge(self.edges@, x);
                assert(self.edges@[k].contained_id == x);
                assert(k == i);
                return Some(i);
            }
            i = i + 1;
        }
        None
    }

    /// The depth at which `x` sits; 0 for an entity that nothing holds.
    pub fn depth(&self, x: u64) -> (r: u8)
        requires
            self.wf(),
        ensures
            r == depth_of(self.edges@, x),
    {
        match self.holder_of(x) {
            Some(i) => self.edges[i].depth,
            None => 0,
        }
    }

    /// Whether `anc` holds `x`, directly or through other containers.
    pub fn is_inside(&self, x: u64, anc: u64) -> (r: bool)
        requires
            self.wf(),
        ensures
            r == inside(self.edges@, x, anc, MAX_CONTAINMENT_DEPTH as nat),
    {
        let mut cur = x;
        let mut fuel: u8 = MAX_CONTAINMENT_DEPTH;
        while fuel > 0
            invariant
                self.wf(),
                inside(self.edges@, x, anc, MAX_CONTAINMENT_DEPTH as nat) == inside(self.edges@, cur, anc, fuel as nat),
            decreases fuel,
        {
            match self.holder_of(cur) {
                None => {
                    return false;
                },
                Some(i) => {
                    let up = self.edges[i].container_id;
                    if up == anc {
                        return true;
                    }
                    cur = up;
                },
            }
            fuel = fuel - 1;
        }
        false
    }

    /// Puts `item` into `container` at the next depth. Refused when the item
    /// is the container, is already held, holds the container (directly or
    /// transitively), holds anything else (its contents' depths would no
    /// longer match), or would sit deeper than the cap.
    pub fn nest(&mut self, container: u64, item: u64, slot_index: Option<u8>) -> (r: Result<u64, ContainmentError>)
        requires
            old(self).wf(),
            old(self).next_id < u64::MAX,
        ensures
            final(self).wf(),
            item == container ==> r == Err::<u64, ContainmentError>(ContainmentError::SelfNesting),
            item != container && !is_held(old(self).edges@, item) && inside(
                old(self).edges@,
                container,
                item,
                MAX_CONTAINMENT_DEPTH as nat,
            ) ==> r == Err::<u64, ContainmentError>(ContainmentError::WouldCycle),
            r is Ok <==> (item != container && !is_held(old(self).edges@, item)
                && !holds_any(old(self).edges@, item)
                && depth_of(old(self).edges@, container) < MAX_CONTAINMENT_DEPTH),
            r is Err ==> *final(self) == *old(self),
            r is Ok ==> r->Ok_0 == old(self).next_id && final(self).next_id == old(self).next_id + 1
                && final(self).edges@ == old(self).edges@.push(
                Containment {
                    id: r->Ok_0,
                    container_id: container,
                    contained_id: item,
                    depth: (depth_of(old(self).edges@, container) + 1) as u8,
                    slot_index,
                },
            ),
    {
        if item == container {
            return Err(ContainmentError::SelfNesting);
        }
        if self.holder_of(item).is_some() {
            return Err(ContainmentError::AlreadyContained);
        }
        if self.is_inside(container, item) {
            proof {
                lemma_inside_holds(self.edges@, container, item, MAX_CONTAINMENT_DEPTH as nat);
            }
            return Err(ContainmentError::WouldCycle);
        }
        let mut i: usize = 0;
        while i < self.edges.len()
            invariant
                *self == *old(self),
                self.wf(),
                item != container,
                !is_held(self.edges@, item),
                !inside(self.edges@, container, item, MAX_CONTAINMENT_DEPTH as nat),
                0 <= i <= self.edges@.len(),
                forall|j: int| 0 <= j < i ==> (#[trigger] self.edges@[j]).container_id != item,
            decreases self.edges.len() - i,
        {
            if self.edges[i].container_id == item {
                return Err(ContainmentError::HoldsContents);
            }
            i = i + 1;
        }
        let d = self.depth(container);
        if d >= MAX_CONTAINMENT_DEPTH {
            return Err(ContainmentError::TooDeep);
        }
        let id = self.next_id;
        let edge = Containment { id, container_id: container, contained_id: item, depth: d + 1, slot_index };
        let ghost before = self.edges@;
        self.edges.push(edge);
        self.next_id = id + 1;
        proof {
            let after = self.edges@;
            assert(after.last() == edge);
            assert forall|x: u64| x != item implies is_held(after, x) == is_held(before, x)
                && (is_held(before, x) ==> after[holder_edge(after, x)] == before[holder_edge(before, x)]) by {
                if is_held(before, x) {
                    let k = holder_edge(before, x);
                    assert(after[k] == before[k]);
                    let k2 = holder_edge(after, x);
                    assert(k2 != before.len());
                }
                if is_held(after, x) {
                    let k2 = holder_edge(after, x);
                    assert(before[k2] == after[k2]);
                }
            }
            assert(is_held(after, item)) by {
                assert(after[before.len() as int].contained_id == item);
            }
            assert forall|i: int| 0 <= i < after.len() implies 1 <= (#[trigger] after[i]).depth <= MAX_CONTAINMENT_DEPTH
                && after[i].depth == depth_of(after, after[i].container_id) + 1 by {
                if i < before.len() {
                    assert(after[i] == before[i]);
                    assert(before[i].container_id != item);
                }
            }
        }
        Ok(id)
    }

    /// Takes `item` out of its container, returning the edge that held it.
    /// Refused when nothing holds it, or when it still holds things (their
    /// depths would no longer match).
    pub fn release(&mut self, item: u64) -> (r: Result<Containment, ContainmentError>)
        requires
            old(self).wf(),
        ensures
            final(self).wf(),
            !is_held(old(self).edges@, item) ==> r == Err::<Containment, ContainmentError>(ContainmentError::NotContained),
            r is Ok <==> is_held(old(self).edges@, item) && !holds_any(old(self).edges@, item),
            r is Err ==> *final(self) == *old(self),
            r is Ok ==> r->Ok_0 == old(self).edges@[holder_edge(old(self).edges@, item)]
                && final(self).edges@ == old(self).edges@.remove(holder_edge(old(self).edges@, item))
                && final(self).next_id == old(self).next_id,
    {
        let k = match self.holder_of(item) {
            Some(k) => k,
            None => {
                return Err(ContainmentError::NotContained);
            },
        };
        let mut i: usize = 0;
        while i < self.edges.len()
            invariant
                *self == *old(self),
                self.wf(),
                is_held(self.edges@, item),
                k == holder_edge(self.edges@, item),
                k < self.edges@.len(),
                0 <= i <= self.edges@.len(),
                forall|j: int| 0 <= j < i ==> (#[trigger] self.edges@[j]).container_id != item,
            decreases self.edges.len() - i,
        {
            if self.edges[i].container_id == item {
                return Err(ContainmentError::HoldsContents);
            }
            i = i + 1;
        }
        let ghost before = self.edges@;
        let edge = self.edges.remove(k);
        proof {
            let after = self.edges@;
            let ki = k as int;
            assert forall|x: u64| x != item implies is_held(after, x) == is_held(before, x)
                && (is_held(before, x) ==> after[holder_edge(after, x)] == before[holder_edge(before, x)]) by {
                if is_held(before, x) {
                    let h = holder_edge(before, x);
                    assert(h != ki);
                    if h < ki {
                        assert(after[h] == before[h]);
                    } else {
                        assert(after[h - 1] == before[h]);
                    }
                    let h2 = holder_edge(after, x);
                    if h2 < ki {
                        assert(after[h2] == before[h2]);
                    } else {
                        assert(after[h2] == before[h2 + 1]);
                    }
                }
                if is_held(after, x) {
                    let h2 = holder_edge(after, x);
                    if h2 < ki {
                        assert(after[h2] == before[h2]);
                    } else {
                        assert(after[h2] == before[h2 + 1]);
                    }
                }
            }
            assert forall|a: int, b: int|
                0 <= a < after.len() && 0 <= b < after.len() && a != b implies (#[trigger] after[a]).contained_id
                    != (#[trigger] after[b]).contained_id by {
                let a0 = if a < ki { a } else { a + 1 };
                let b0 = if b < ki { b } else { b + 1 };
                assert(after[a] == before[a0]);
                assert(after[b] == before[b0]);
            }
            assert forall|a: int| 0 <= a < after.len() implies 1 <= (#[trigger] after[a]).depth <= MAX_CONTAINMENT_DEPTH
                && after[a].depth == depth_of(after, after[a].container_id) + 1 by {
                let a0 = if a < ki { a } else { a + 1 };
                assert(after[a] == before[a0]);
                assert(before[a0].container_id != item);
            }
        }
        Ok(edge)
    }
}

} // verus!
