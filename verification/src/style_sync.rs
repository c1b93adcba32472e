//! Per-frame style bookkeeping: pseudo-state markers, incremental invalidation and the
//! target/current color plan that drives transitions.
use vstd::prelude::*;

use crate::ecs::EntityId;
use crate::style::{ComputedStyle, CurrentColorStyle, ResolvedStyle, StyleSheet, TargetColorStyle, UiInteractionEvent};

verus! {

/// A UI action addressed to an entity.
#[derive(Debug, Clone, PartialEq, Eq)]
pub struct TypedUiEvent<T> {
    pub entity: EntityId,
    pub action: T,
}

/// Pseudo-state markers of one entity and whether its style must be recomputed.
#[derive(Debug, Clone, Copy, PartialEq, Eq)]
pub struct InteractionMarkers {
    pub entity: EntityId,
    pub hovered: bool,
    pub pressed: bool,
    pub style_dirty: bool,
}

/// One interaction event applied to an entity's markers: entering/leaving sets/clears
/// `Hovered`, pressing/releasing sets/clears `Pressed`; a marker that changes marks the
/// style dirty, and each event touches only its own marker.
pub open spec fn apply_interaction(markers: InteractionMarkers, event: UiInteractionEvent) -> InteractionMarkers {
    match event {
        UiInteractionEvent::PointerEntered => if !markers.hovered {
            InteractionMarkers { hovered: true, style_dirty: true, ..markers }
        } else {
            markers
        },
        UiInteractionEvent::PointerLeft => if markers.hovered {
            InteractionMarkers { hovered: false, style_dirty: true, ..markers }
        } else {
            markers
        },
        UiInteractionEvent::PointerPressed => if !markers.pressed {
            InteractionMarkers { pressed: true, style_dirty: true, ..markers }
        } else {
            markers
        },
        UiInteractionEvent::PointerReleased => if markers.pressed {
            InteractionMarkers { pressed: false, style_dirty: true, ..markers }
        } else {
            markers
        },
    }
}

/// The markers after the events addressed to their entity, in order.
pub open spec fn markers_after(
    markers: InteractionMarkers,
    events: Seq<TypedUiEvent<UiInteractionEvent>>,
) -> InteractionMarkers
    decreases events.len(),
{
    if events.len() == 0 {
        markers
    } else {
        let before = markers_after(markers, events.drop_last());
        if events.last().entity == markers.entity {
            apply_interaction(before, events.last().action)
        } else {
            before
        }
    }
}

/// Whether no entity appears twice.
pub open spec fn distinct_entities(markers: Seq<InteractionMarkers>) -> bool {
    forall|i: int, j: int|
        0 <= i < markers.len() && 0 <= j < markers.len() && i != j ==> #[trigger] markers[i].entity
            != #[trigger] markers[j].entity
}

proof fn lemma_markers_after_keeps_entity(markers: InteractionMarkers, events: Seq<TypedUiEvent<UiInteractionEvent>>)
    ensures
        markers_after(markers, events).entity == markers.entity,
    decreases events.len(),
{
    if events.len() > 0 {
        lemma_markers_after_keeps_entity(markers, events.drop_last());
    }
}

fn apply_interaction_event(markers: &mut InteractionMarkers, event: UiInteractionEvent)
    ensures
        *final(markers) == apply_interaction(*old(markers), event),
{
    match event {
        UiInteractionEvent::PointerEntered => {
            if !markers.hovered {
                markers.hovered = true;
                markers.style_dirty = true;
            }
        },
        UiInteractionEvent::PointerLeft => {
            if markers.hovered {
                markers.hovered = false;
                markers.style_dirty = true;
            }
        },
        UiInteractionEvent::PointerPressed => {
            if !markers.pressed {
                markers.pressed = true;
                markers.style_dirty = true;
            }
        },
        UiInteractionEvent::PointerReleased => {
            if markers.pressed {
                markers.pressed = false;
                markers.style_dirty = true;
            }
        },
    }
}

/// Consume interaction events in order and synchronize the `Hovered` / `Pressed` markers of
/// the entities they address; events for entities that are not listed are skipped.
pub fn sync_ui_interaction_markers(
    markers: &mut Vec<InteractionMarkers>,
    events: &Vec<TypedUiEvent<UiInteractionEvent>>,
)
    requires
        distinct_entities(old(markers)@),
    ensures
        final(markers)@.len() == old(markers)@.len(),
        forall|i: int|
            0 <= i < old(markers)@.len() ==> #[trigger] final(markers)@[i] == markers_after(old(markers)@[i], events@),
{
    let ghost initial = markers@;
    let mut e: usize = 0;
    while e < events.len()
        invariant
            e <= events.len(),
            markers@.len() == initial.len(),
            distinct_entities(initial),
            forall|i: int|
                0 <= i < initial.len() ==> #[trigger] markers@[i] == markers_after(
                    initial[i],
                    events@.subrange(0, e as int),
                ),
        decreases events.len() - e,
    {
        let event = &events[e];
        let ghost prefix = events@.subrange(0, e as int);
        let ghost next_prefix = events@.subrange(0, e + 1);
        proof {
            assert(next_prefix.drop_last() =~= prefix);
            assert(next_prefix.last() == events@[e as int]);
        }
        let mut i: usize = 0;
        let mut found: Option<usize> = None;
        while i < markers.len()
            invariant
                i <= markers.len(),
                markers@.len() == initial.len(),
                match found {
                    Some(f) => f < markers.len() && markers@[f as int].entity == event.entity,
                    None => forall|k: int| 0 <= k < i ==> (#[trigger] markers@[k]).entity != event.entity,
                },
            decreases markers.len() - i,
        {
            if found.is_none() && markers[i].entity == event.entity {
                found = Some(i);
            }
            i = i + 1;
        }
        match found {
            Some(f) => {
                let mut updated = markers[f];
                apply_interaction_event(&mut updated, event.action);
                markers.set(f, updated);
            },
            None => {},
        }
        proof {
            assert forall|k: int| 0 <= k < initial.len() implies #[trigger] markers@[k] == markers_after(
                initial[k],
                next_prefix,
            ) by {
                lemma_markers_after_keeps_entity(initial[k], prefix);
                match found {
                    Some(f) => {
                        lemma_markers_after_keeps_entity(initial[f as int], prefix);
                        if k != f {
                            assert(initial[k].entity != initial[f as int].entity);
                        }
                    },
                    None => {},
                }
            }
        }
        e = e + 1;
    }
    proof {
        assert(events@.subrange(0, events.len() as int) =~= events@);
    }
}

/// Leaving an entity clears `Hovered` but keeps `Pressed`.
pub proof fn lemma_pointer_left_keeps_pressed(markers: InteractionMarkers)
    ensures
        !apply_interaction(markers, UiInteractionEvent::PointerLeft).hovered,
        apply_interaction(markers, UiInteractionEvent::PointerLeft).pressed == markers.pressed,
{
}

/// Entering and then leaving restores the hover state of an entity that was not hovered.
pub proof fn lemma_enter_then_leave_restores_hover(markers: InteractionMarkers)
    requires
        !markers.hovered,
    ensures
        apply_interaction(
            apply_interaction(markers, UiInteractionEvent::PointerEntered),
            UiInteractionEvent::PointerLeft,
        ).hovered == markers.hovered,
        apply_interaction(
            apply_interaction(markers, UiInteractionEvent::PointerEntered),
            UiInteractionEvent::PointerLeft,
        ).pressed == markers.pressed,
{
}

/// An event that changes no marker does not mark the style dirty.
pub proof fn lemma_unchanged_markers_stay_clean(markers: InteractionMarkers, event: UiInteractionEvent)
    requires
        !markers.style_dirty,
        apply_interaction(markers, event).hovered == markers.hovered,
        apply_interaction(markers, event).pressed == markers.pressed,
    ensures
        !apply_interaction(markers, event).style_dirty,
{
}


/// What incremental invalidation reads of one entity.
#[derive(Debug, Clone, Copy, PartialEq, Eq)]
pub struct StyleDirtyInput {
    pub entity: EntityId,
    /// Position of the parent entity in the same list (parents are listed before children).
    pub parent: Option<usize>,
    /// A class, inline style or pseudo-state component changed since the last run.
    pub style_changed: bool,
    /// The entity carries a class or inline style component.
    pub has_style_components: bool,
    /// The entity carries a cached `ComputedStyle`.
    pub has_computed: bool,
    /// The entity is already marked `StyleDirty`.
    pub is_dirty: bool,
}

/// Parents come before their children in the list.
pub open spec fn parents_first(nodes: Seq<StyleDirtyInput>) -> bool {
    forall|i: int| 0 <= i < nodes.len() ==> ((#[trigger] nodes[i]).parent matches Some(p) ==> p < i)
}

/// Entities invalidated directly: by their own changes, or by a stylesheet change
/// (everything when type or descendant selectors exist, else every styled entity).
pub open spec fn directly_dirty(node: StyleDirtyInput, sheet_changed: bool, broad: bool) -> bool {
    node.style_changed || (sheet_changed && (broad || node.has_style_components || node.has_computed))
}

/// Whether some ancestor of `nodes[i]` is directly invalidated.
pub open spec fn ancestor_dirty(nodes: Seq<StyleDirtyInput>, i: int, sheet_changed: bool, broad: bool) -> bool
    decreases i,
{
    if 0 <= i < nodes.len() {
        match nodes[i].parent {
            Some(p) => if 0 <= p < i {
                directly_dirty(nodes[p as int], sheet_changed, broad) || ancestor_dirty(nodes, p as int, sheet_changed, broad)
            } else {
                false
            },
            None => false,
        }
    } else {
        false
    }
}

/// Whether `nodes[i]` must be marked `StyleDirty`: directly invalidated, below an
/// invalidated ancestor when descendant selectors exist, or holding a stale cache
/// (a computed style without any style component) when no type or descendant selectors exist.
pub open spec fn needs_restyle(
    nodes: Seq<StyleDirtyInput>,
    i: int,
    sheet_changed: bool,
    has_type: bool,
    has_descendant: bool,
) -> bool {
    let node = nodes[i];
    let broad = has_type || has_descendant;
    ||| directly_dirty(node, sheet_changed, broad)
    ||| has_descendant && ancestor_dirty(nodes, i, sheet_changed, broad)
    ||| !broad && node.has_computed && !node.is_dirty && !node.has_style_components
}

/// Incremental invalidation: decide which entities need style recomputation.
pub fn mark_style_dirty(nodes: &Vec<StyleDirtyInput>, sheet: Option<&StyleSheet>, sheet_changed: bool) -> (marks: Vec<bool>)
    requires
        parents_first(nodes@),
    ensures
        marks@.len() == nodes@.len(),
        forall|i: int|
            0 <= i < nodes@.len() ==> #[trigger] marks@[i] == needs_restyle(
                nodes@,
                i,
                sheet_changed,
                sheet matches Some(s) && exists|r: int|
                    0 <= r < s.rules.len() && crate::style::selector_has_type(#[trigger] s.rules@[r].selector),
                sheet matches Some(s) && exists|r: int|
                    0 <= r < s.rules.len() && crate::style::selector_has_descendant(
                        #[trigger] s.rules@[r].selector,
                    ),
            ),
{
    let (has_type, has_descendant) = match sheet {
        Some(sheet) => (sheet.has_type_selectors(), sheet.has_descendant_selectors()),
        None => (false, false),
    };
    let broad = has_type || has_descendant;
    let mut direct: Vec<bool> = Vec::new();
    let mut inherited: Vec<bool> = Vec::new();
    let mut marks: Vec<bool> = Vec::new();
    let mut i: usize = 0;
    while i < nodes.len()
        invariant
            i <= nodes.len(),
            parents_first(nodes@),
            broad == (has_type || has_descendant),
            direct@.len() == i,
            inherited@.len() == i,
            marks@.len() == i,
            forall|k: int| 0 <= k < i ==> #[trigger] direct@[k] == directly_dirty(nodes@[k], sheet_changed, broad),
            forall|k: int| 0 <= k < i ==> #[trigger] inherited@[k] == ancestor_dirty(nodes@, k, sheet_changed, broad),
            forall|k: int|
                0 <= k < i ==> #[trigger] marks@[k] == needs_restyle(nodes@, k, sheet_changed, has_type, has_descendant),
        decreases nodes.len() - i,
    {
        let node = &nodes[i];
        let is_direct = node.style_changed || (sheet_changed && (broad || node.has_style_components
            || node.has_computed));
        let from_ancestor = match node.parent {
            Some(p) => {
                if p < i {
                    direct[p] || inherited[p]
                } else {
                    false
                }
            },
            None => false,
        };
        let stale = !broad && node.has_computed && !node.is_dirty && !node.has_style_components;
        direct.push(is_direct);
        inherited.push(from_ancestor);
        marks.push(is_direct || (has_descendant && from_ancestor) || stale);
        i = i + 1;
    }
    marks
}

/// Every entity below a changed entity is restyled when the sheet has descendant selectors.
pub proof fn lemma_descendants_of_changed_are_restyled(
    nodes: Seq<StyleDirtyInput>,
    child: int,
    sheet_changed: bool,
    has_type: bool,
)
    requires
        0 <= child < nodes.len(),
        parents_first(nodes),
        nodes[child].parent matches Some(p) && nodes[p as int].style_changed,
    ensures
        needs_restyle(nodes, child, sheet_changed, has_type, true),
{
}

/// An event addressed to an entity decides its marker: entering and leaving set and clear
/// `Hovered`, pressing and releasing set and clear `Pressed`, the other marker is kept,
/// and the style becomes dirty exactly when a marker changed (it never becomes clean).
/// Events addressed to other entities change nothing.
pub proof fn lemma_last_event_decides_marker(markers: InteractionMarkers, events: Seq<TypedUiEvent<UiInteractionEvent>>)
    requires
        events.len() > 0,
    ensures
        ({
            let before = markers_after(markers, events.drop_last());
            let after = markers_after(markers, events);
            &&& after.entity == markers.entity
            &&& events.last().entity != markers.entity ==> after == before
            &&& events.last().entity == markers.entity ==> {
                &&& match events.last().action {
                    UiInteractionEvent::PointerEntered => after.hovered && after.pressed == before.pressed,
                    UiInteractionEvent::PointerLeft => !after.hovered && after.pressed == before.pressed,
                    UiInteractionEvent::PointerPressed => after.pressed && after.hovered == before.hovered,
                    UiInteractionEvent::PointerReleased => !after.pressed && after.hovered == before.hovered,
                }
                &&& after.style_dirty == (before.style_dirty || after.hovered != before.hovered || after.pressed
                    != before.pressed)
            }
        }),
{
    lemma_markers_after_keeps_entity(markers, events.drop_last());
}

proof fn lemma_path_ancestor_dirty(nodes: Seq<StyleDirtyInput>, path: Seq<usize>, sheet_changed: bool, broad: bool)
    requires
        parents_first(nodes),
        path.len() >= 2,
        forall|t: int| 0 <= t < path.len() ==> #[trigger] path[t] < nodes.len(),
        forall|t: int| 0 <= t < path.len() - 1 ==> nodes[#[trigger] path[t + 1] as int].parent == Some(path[t]),
        nodes[path[0] as int].style_changed,
    ensures
        ancestor_dirty(nodes, path.last() as int, sheet_changed, broad),
    decreases path.len(),
{
    let i = path.last() as int;
    let p = path[path.len() - 2];
    let t = path.len() - 2;
    assert(path[t] < nodes.len());
    assert(path[t + 1] < nodes.len());
    assert(nodes[path[t + 1] as int].parent == Some(path[t]));
    assert(path[t + 1] as int == i);
    assert(nodes[i].parent == Some(p));
    assert(nodes[i].parent matches Some(q) ==> q < i);
    assert(p < i);
    if path.len() == 2 {
        assert(p == path[0]);
        assert(directly_dirty(nodes[p as int], sheet_changed, broad));
    } else {
        let shorter = path.drop_last();
        assert forall|u: int| 0 <= u < shorter.len() implies #[trigger] shorter[u] < nodes.len() by {
            assert(shorter[u] == path[u]);
        }
        assert forall|u: int| 0 <= u < shorter.len() - 1 implies nodes[#[trigger] shorter[u + 1] as int].parent
            == Some(shorter[u]) by {
            assert(shorter[u + 1] == path[u + 1]);
            assert(shorter[u] == path[u]);
        }
        lemma_path_ancestor_dirty(nodes, shorter, sheet_changed, broad);
        assert(shorter.last() == p);
    }
    assert(ancestor_dirty(nodes, i, sheet_changed, broad));
}

/// With descendant selectors, every entity anywhere below a changed entity is restyled:
/// `path` runs down from the changed entity, each entry the parent of the next.
pub proof fn lemma_all_descendants_of_changed_are_restyled(
    nodes: Seq<StyleDirtyInput>,
    path: Seq<usize>,
    sheet_changed: bool,
    has_type: bool,
)
    requires
        parents_first(nodes),
        path.len() >= 2,
        forall|t: int| 0 <= t < path.len() ==> #[trigger] path[t] < nodes.len(),
        forall|t: int| 0 <= t < path.len() - 1 ==> nodes[#[trigger] path[t + 1] as int].parent == Some(path[t]),
        nodes[path[0] as int].style_changed,
    ensures
        needs_restyle(nodes, path.last() as int, sheet_changed, has_type, true),
{
    lemma_path_ancestor_dirty(nodes, path, sheet_changed, true);
}

/// How a color transition is driven after a restyle.
#[derive(Debug, Clone, Copy, PartialEq, Eq)]
pub enum TweenPlan {
    /// Start (or restart) the style-managed tween from `start` to `end`.
    Start { start: CurrentColorStyle, end: CurrentColorStyle },
    /// Remove the style-managed tween, if any.
    Clear,
}

/// The component updates for one restyled entity.
#[derive(Debug, Clone, PartialEq)]
pub struct StyleTargetPlan {
    /// New cached style (`None`: remove the cache).
    pub computed: Option<ComputedStyle>,
    /// New target colors (`None`: remove them).
    pub target: Option<TargetColorStyle>,
    /// New current colors (`None`: remove them).
    pub current: Option<CurrentColorStyle>,
    pub tween: TweenPlan,
}

pub open spec fn as_current(colors: TargetColorStyle) -> CurrentColorStyle {
    CurrentColorStyle { bg: colors.bg, text: colors.text, border: colors.border }
}

/// Plan the cache, target and current colors of a restyled entity.
///
/// With a transition the target becomes the resolved colors; an instant transition
/// (`instant_transition`: its duration is at most `f32::EPSILON`) snaps the current colors to
/// the target, otherwise a tween runs from the current colors (or the target when there are
/// none) whenever they differ. Without a transition, or without any style, the animation
/// state is removed.
pub fn plan_style_targets(
    resolved: Option<ResolvedStyle>,
    current: Option<CurrentColorStyle>,
    instant_transition: bool,
) -> (plan: StyleTargetPlan)
    ensures
        match resolved {
            None => plan.computed is None && plan.target is None && plan.current is None && plan.tween
                == TweenPlan::Clear,
            Some(style) => {
                let target = TargetColorStyle {
                    bg: style.colors.bg,
                    text: style.colors.text,
                    border: style.colors.border,
                };
                &&& plan.computed matches Some(c) && c@ == style@
                &&& match style.transition {
                    None => plan.target is None && plan.current is None && plan.tween == TweenPlan::Clear,
                    Some(_) => {
                        let start = match current {
                            Some(c) => c,
                            None => as_current(target),
                        };
                        &&& plan.target == Some(target)
                        &&& if instant_transition {
                            plan.current == Some(as_current(target)) && plan.tween == TweenPlan::Clear
                        } else {
                            &&& plan.current == Some(start)
                            &&& plan.tween == if start != as_current(target) {
                                TweenPlan::Start { start, end: as_current(target) }
                            } else {
                                TweenPlan::Clear
                            }
                        }
                    },
                }
            },
        },
{
    match resolved {
        None => StyleTargetPlan { computed: None, target: None, current: None, tween: TweenPlan::Clear },
        Some(style) => {
            let target = TargetColorStyle {
                bg: style.colors.bg,
                text: style.colors.text,
                border: style.colors.border,
            };
            let transition = style.transition;
            let computed = ComputedStyle {
                layout: style.layout,
                colors: style.colors,
                text: style.text,
                font_family: style.font_family,
                box_shadow: style.box_shadow,
                transition: style.transition,
            };
            match transition {
                None => StyleTargetPlan {
                    computed: Some(computed),
                    target: None,
                    current: None,
                    tween: TweenPlan::Clear,
                },
                Some(_) => {
                    let end = CurrentColorStyle { bg: target.bg, text: target.text, border: target.border };
                    if instant_transition {
                        StyleTargetPlan {
                            computed: Some(computed),
                            target: Some(target),
                            current: Some(end),
                            tween: TweenPlan::Clear,
                        }
                    } else {
                        let start = match current {
                            Some(c) => c,
                            None => end,
                        };
                        let tween = if start != end {
                            TweenPlan::Start { start, end }
                        } else {
                            TweenPlan::Clear
                        };
                        StyleTargetPlan {
                            computed: Some(computed),
                            target: Some(target),
                            current: Some(start),
                            tween,
                        }
                    }
                },
            }
        },
    }
}

} // verus!
