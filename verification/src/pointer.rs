//! Pointer-hit bubbling: a hit on an entity is delivered to it and then to its ancestors,
//! until one of them stops propagation.
use vstd::prelude::*;

use crate::ecs::EntityId;

verus! {

/// One entity on the path from the hit target up to the root.
#[derive(Debug, Clone, Copy, PartialEq, Eq, Structural)]
pub struct PointerPathNode {
    pub entity: EntityId,
    /// The entity carries `StopUiPointerPropagation`.
    pub stops_propagation: bool,
}

/// One delivery of a bubbling pointer event.
#[derive(Debug, Clone, Copy, PartialEq, Eq, Structural)]
pub struct BubbleStep {
    /// The entity receiving the event at this step.
    pub current_target: EntityId,
    /// The event stops here.
    pub consumed: bool,
}

/// The deliveries of an event hitting `path[0]`, with `path` running up to the root: each
/// entity in turn, ending with (and marked consumed at) the first that stops propagation.
pub open spec fn bubble_steps(path: Seq<PointerPathNode>) -> Seq<BubbleStep>
    decreases path.len(),
{
    if path.len() == 0 {
        Seq::empty()
    } else if path[0].stops_propagation {
        seq![BubbleStep { current_target: path[0].entity, consumed: true }]
    } else {
        seq![BubbleStep { current_target: path[0].entity, consumed: false }] + bubble_steps(path.drop_first())
    }
}

/// Plan the deliveries of a pointer hit along `path` (hit target first, then its
/// ancestors, nearest first).
pub fn plan_pointer_bubbling(path: &Vec<PointerPathNode>) -> (steps: Vec<BubbleStep>)
    ensures
        steps@ == bubble_steps(path@),
{
    let mut steps: Vec<BubbleStep> = Vec::new();
    let mut i: usize = 0;
    assert(path@.subrange(0, path@.len() as int) =~= path@);
    assert(steps@ + bubble_steps(path@) =~= bubble_steps(path@));
    while i < path.len()
        invariant
            i <= path.len(),
            steps@ + bubble_steps(path@.subrange(i as int, path@.len() as int)) == bubble_steps(path@),
            forall|k: int| 0 <= k < i ==> !(#[trigger] path@[k]).stops_propagation,
        decreases path.len() - i,
    {
        let node = path[i];
        let ghost rest = path@.subrange(i as int, path@.len() as int);
        assert(rest[0] == node);
        assert(rest.drop_first() =~= path@.subrange(i as int + 1, path@.len() as int));
        if node.stops_propagation {
            steps.push(BubbleStep { current_target: node.entity, consumed: true });
            proof {
                assert(steps@ =~= bubble_steps(path@));
            }
            return steps;
        }
        let ghost before = steps@;
        steps.push(BubbleStep { current_target: node.entity, consumed: false });
        proof {
            assert(steps@ + bubble_steps(rest.drop_first()) =~= before + bubble_steps(rest));
        }
        i = i + 1;
    }
    proof {
        assert(path@.subrange(path@.len() as int, path@.len() as int) =~= Seq::<PointerPathNode>::empty());
        assert(steps@ + Seq::<BubbleStep>::empty() =~= steps@);
    }
    steps
}

/// Bubbling visits the path in order from the target, never goes past the first entity
/// that stops propagation, and only that last delivery is marked consumed.
pub proof fn lemma_bubbling_stops_at_first_consumer(path: Seq<PointerPathNode>)
    ensures
        bubble_steps(path).len() <= path.len(),
        forall|k: int| 0 <= k < bubble_steps(path).len() ==> (#[trigger] bubble_steps(path)[k]).current_target == path[k].entity,
        forall|k: int|
            0 <= k < bubble_steps(path).len() ==> ((#[trigger] bubble_steps(path)[k]).consumed <==> path[k].stops_propagation),
        forall|k: int| 0 <= k < bubble_steps(path).len() - 1 ==> !(#[trigger] path[k]).stops_propagation,
    decreases path.len(),
{
    if path.len() > 0 && !path[0].stops_propagation {
        let tail = path.drop_first();
        lemma_bubbling_stops_at_first_consumer(tail);
        let head = seq![BubbleStep { current_target: path[0].entity, consumed: false }];
        assert forall|k: int| 1 <= k < bubble_steps(path).len() implies bubble_steps(path)[k] == bubble_steps(tail)[k - 1]
            && path[k] == tail[k - 1] by {
            assert((head + bubble_steps(tail))[k] == bubble_steps(tail)[k - 1]);
        }
        assert(bubble_steps(path)[0] == head[0]);
    }
}

} // verus!
