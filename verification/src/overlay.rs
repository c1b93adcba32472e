//! Overlay layer rules: the overlay root, reparenting of floating entities, combo/dialog
//! actions and tooltips.
use vstd::prelude::*;

use crate::ecs::{
    EntityId, HasTooltip, OverlayConfig, OverlayPlacement, OverlayStack, OverlayState, UiComboBox,
    UiComboBoxChanged, UiTooltip, clamped_index,
};

verus! {

/// Internal overlay actions emitted by built-in floating UI projectors.
#[derive(Debug, Clone, Copy, PartialEq, Eq)]
pub enum OverlayUiAction {
    DismissDialog,
    ToggleCombo,
    SelectComboItem { index: usize },
    DismissDropdown,
}

/// Whether an overlay root must be spawned: there is none yet, and a regular root exists.
pub fn needs_overlay_root(has_overlay_root: bool, has_regular_root: bool) -> (spawn: bool)
    ensures
        spawn == (!has_overlay_root && has_regular_root),
{
    !has_overlay_root && has_regular_root
}

/// A built-in overlay entity (dialog or dropdown) and its current parent.
#[derive(Debug, Clone, Copy, PartialEq, Eq, Structural)]
pub struct ParentedEntity {
    pub entity: EntityId,
    pub parent: Option<EntityId>,
}

/// The entities, in order, that are not yet children of `overlay_root`.
pub open spec fn unparented(entities: Seq<ParentedEntity>, overlay_root: EntityId) -> Seq<EntityId>
    decreases entities.len(),
{
    if entities.len() == 0 {
        Seq::empty()
    } else {
        let earlier = unparented(entities.drop_last(), overlay_root);
        if entities.last().parent == Some(overlay_root) {
            earlier
        } else {
            earlier.push(entities.last().entity)
        }
    }
}

/// The built-in overlay entities that must be moved under the overlay root.
pub fn overlay_entities_to_reparent(entities: &Vec<ParentedEntity>, overlay_root: EntityId) -> (moved: Vec<EntityId>)
    ensures
        moved@ == unparented(entities@, overlay_root),
{
    let mut moved: Vec<EntityId> = Vec::new();
    let mut i: usize = 0;
    while i < entities.len()
        invariant
            i <= entities.len(),
            moved@ == unparented(entities@.subrange(0, i as int), overlay_root),
        decreases entities.len() - i,
    {
        proof {
            assert(entities@.subrange(0, i + 1).drop_last() =~= entities@.subrange(0, i as int));
        }
        if entities[i].parent != Some(overlay_root) {
            moved.push(entities[i].entity);
        }
        i = i + 1;
    }
    proof {
        assert(entities@.subrange(0, entities.len() as int) =~= entities@);
    }
    moved
}

/// Every entity after reparenting: moved ones now have the overlay root as parent.
pub open spec fn after_reparent(entities: Seq<ParentedEntity>, overlay_root: EntityId) -> Seq<ParentedEntity> {
    entities.map_values(|e: ParentedEntity| ParentedEntity { entity: e.entity, parent: Some(overlay_root) })
}

/// Reparenting is idempotent: once done, a second pass moves nothing.
pub proof fn lemma_reparent_idempotent(entities: Seq<ParentedEntity>, overlay_root: EntityId)
    ensures
        unparented(after_reparent(entities, overlay_root), overlay_root) == Seq::<EntityId>::empty(),
    decreases entities.len(),
{
    if entities.len() > 0 {
        assert(after_reparent(entities, overlay_root).drop_last() =~= after_reparent(
            entities.drop_last(),
            overlay_root,
        ));
        lemma_reparent_idempotent(entities.drop_last(), overlay_root);
    }
}

/// What the overlay action handler reads about the entity an action addresses.
#[derive(Debug, Clone, PartialEq, Eq)]
pub struct OverlayActionTarget {
    /// The entity is alive.
    pub exists: bool,
    /// The entity carries `UiDialog`.
    pub is_dialog: bool,
    /// The entity carries `UiDropdownMenu`.
    pub is_dropdown: bool,
    /// The entity's own combo box, if it is one.
    pub combo: Option<UiComboBox>,
    /// The anchor the entity follows (`AnchoredTo`), if any.
    pub anchored_to: Option<EntityId>,
    /// The combo box of that anchor, if it has one.
    pub anchor_combo: Option<UiComboBox>,
    /// Dropdown entities currently anchored to the entity.
    pub open_dropdowns: Vec<EntityId>,
}

/// A change to the ECS world decided by the overlay action handler.
#[derive(Debug, Clone, PartialEq, Eq)]
pub enum OverlayCommand {
    /// Despawn the entity and all its descendants.
    DespawnTree(EntityId),
    /// Despawn a dropdown tree and mark the combo it is anchored to as closed.
    CloseDropdown(EntityId),
    SetComboOpen { combo: EntityId, open: bool },
    SetComboSelected { combo: EntityId, selected: usize },
    /// Spawn a dropdown under the overlay root, anchored to `anchor`.
    SpawnDropdown { anchor: EntityId },
    /// Push a combo change event to the UI event queue.
    EmitComboChanged(UiComboBoxChanged),
}

/// Closing each dropdown, in order.
pub open spec fn close_all(dropdowns: Seq<EntityId>) -> Seq<OverlayCommand> {
    dropdowns.map_values(|d: EntityId| OverlayCommand::CloseDropdown(d))
}

/// The commands for a combo selection: store the clamped selection and announce it (when
/// the combo has options), then close the dropdown that was clicked.
pub open spec fn select_commands(
    dropdown: EntityId,
    anchor: EntityId,
    anchor_combo: Option<UiComboBox>,
    index: nat,
    commands: Seq<OverlayCommand>,
) -> bool {
    match anchor_combo {
        Some(combo) if combo.options.len() > 0 => {
            let selected = clamped_index(combo.options@.len(), index)->0;
            &&& commands.len() == 3
            &&& commands[0] == OverlayCommand::SetComboSelected { combo: anchor, selected: selected as usize }
            &&& commands[1] matches OverlayCommand::EmitComboChanged(changed) && changed.combo == anchor
                && changed.selected == selected && changed.value@ == combo.options@[selected as int].value@
            &&& commands[2] == OverlayCommand::CloseDropdown(dropdown)
        },
        _ => commands == seq![OverlayCommand::CloseDropdown(dropdown)],
    }
}

/// The commands that handle one overlay action addressed to `entity`.
pub open spec fn overlay_commands(
    entity: EntityId,
    action: OverlayUiAction,
    target: OverlayActionTarget,
    commands: Seq<OverlayCommand>,
) -> bool {
    if !target.exists {
        commands.len() == 0
    } else {
        match action {
            OverlayUiAction::DismissDialog => commands == if target.is_dialog {
                seq![OverlayCommand::DespawnTree(entity)]
            } else {
                Seq::empty()
            },
            OverlayUiAction::ToggleCombo => match target.combo {
                None => commands.len() == 0,
                Some(combo) => commands == close_all(target.open_dropdowns@) + if combo.is_open {
                    seq![OverlayCommand::SetComboOpen { combo: entity, open: false }]
                } else {
                    seq![
                        OverlayCommand::SpawnDropdown { anchor: entity },
                        OverlayCommand::SetComboOpen { combo: entity, open: true },
                    ]
                },
            },
            OverlayUiAction::SelectComboItem { index } => match target.anchored_to {
                None => commands.len() == 0,
                Some(anchor) => select_commands(entity, anchor, target.anchor_combo, index as nat, commands),
            },
            OverlayUiAction::DismissDropdown => commands == if target.is_dropdown {
                seq![OverlayCommand::CloseDropdown(entity)]
            } else {
                Seq::empty()
            },
        }
    }
}

/// Decide how one built-in overlay action changes the world.
pub fn plan_overlay_action(entity: EntityId, action: OverlayUiAction, target: &OverlayActionTarget) -> (commands: Vec<
    OverlayCommand,
>)
    ensures
        overlay_commands(entity, action, *target, commands@),
{
    let mut commands: Vec<OverlayCommand> = Vec::new();
    if !target.exists {
        return commands;
    }
    match action {
        OverlayUiAction::DismissDialog => {
            if target.is_dialog {
                commands.push(OverlayCommand::DespawnTree(entity));
            }
        },
        OverlayUiAction::ToggleCombo => {
            match &target.combo {
                None => {},
                Some(combo) => {
                    let mut i: usize = 0;
                    while i < target.open_dropdowns.len()
                        invariant
                            i <= target.open_dropdowns.len(),
                            commands@ == close_all(target.open_dropdowns@.subrange(0, i as int)),
                        decreases target.open_dropdowns.len() - i,
                    {
                        commands.push(OverlayCommand::CloseDropdown(target.open_dropdowns[i]));
                        proof {
                            assert(close_all(target.open_dropdowns@.subrange(0, i + 1)) =~= close_all(
                                target.open_dropdowns@.subrange(0, i as int),
                            ).push(OverlayCommand::CloseDropdown(target.open_dropdowns@[i as int])));
                        }
                        i = i + 1;
                    }
                    proof {
                        assert(target.open_dropdowns@.subrange(0, target.open_dropdowns.len() as int)
                            =~= target.open_dropdowns@);
                    }
                    let ghost closing = commands@;
                    if combo.is_open {
                        commands.push(OverlayCommand::SetComboOpen { combo: entity, open: false });
                        proof {
                            assert(commands@ =~= closing + seq![OverlayCommand::SetComboOpen { combo: entity, open: false }]);
                        }
                    } else {
                        commands.push(OverlayCommand::SpawnDropdown { anchor: entity });
                        commands.push(OverlayCommand::SetComboOpen { combo: entity, open: true });
                        proof {
                            assert(commands@ =~= closing + seq![
                                OverlayCommand::SpawnDropdown { anchor: entity },
                                OverlayCommand::SetComboOpen { combo: entity, open: true },
                            ]);
                        }
                    }
                },
            }
        },
        OverlayUiAction::SelectComboItem { index } => {
            match target.anchored_to {
                None => {},
                Some(anchor) => {
                    match &target.anchor_combo {
                        Some(combo) => {
                            if combo.options.len() > 0 {
                                let last = combo.options.len() - 1;
                                let selected = if index < last {
                                    index
                                } else {
                                    last
                                };
                                commands.push(OverlayCommand::SetComboSelected { combo: anchor, selected });
                                commands.push(
                                    OverlayCommand::EmitComboChanged(
                                        UiComboBoxChanged {
                                            combo: anchor,
                                            selected,
                                            value: combo.options[selected].value.clone(),
                                        },
                                    ),
                                );
                            }
                        },
                        None => {},
                    }
                    commands.push(OverlayCommand::CloseDropdown(entity));
                },
            }
        },
        OverlayUiAction::DismissDropdown => {
            if target.is_dropdown {
                commands.push(OverlayCommand::CloseDropdown(entity));
            }
        },
    }
    commands
}

/// Toggling a closed combo twice spawns a dropdown and then closes it again: the combo ends
/// closed with the dropdown it opened being closed.
pub proof fn lemma_toggle_combo_twice(
    entity: EntityId,
    closed: OverlayActionTarget,
    first: Seq<OverlayCommand>,
    reopened: OverlayActionTarget,
    second: Seq<OverlayCommand>,
    dropdown: EntityId,
)
    requires
        closed.exists,
        closed.combo matches Some(c) && !c.is_open,
        closed.open_dropdowns@.len() == 0,
        overlay_commands(entity, OverlayUiAction::ToggleCombo, closed, first),
        reopened.exists,
        reopened.combo matches Some(c) && c.is_open,
        reopened.open_dropdowns@ == seq![dropdown],
        overlay_commands(entity, OverlayUiAction::ToggleCombo, reopened, second),
    ensures
        first == seq![
            OverlayCommand::SpawnDropdown { anchor: entity },
            OverlayCommand::SetComboOpen { combo: entity, open: true },
        ],
        second == seq![
            OverlayCommand::CloseDropdown(dropdown),
            OverlayCommand::SetComboOpen { combo: entity, open: false },
        ],
{
    assert(close_all(closed.open_dropdowns@) =~= Seq::<OverlayCommand>::empty());
    assert(first =~= seq![
        OverlayCommand::SpawnDropdown { anchor: entity },
        OverlayCommand::SetComboOpen { combo: entity, open: true },
    ]);
    assert(close_all(reopened.open_dropdowns@) =~= seq![OverlayCommand::CloseDropdown(dropdown)]);
    assert(second =~= seq![
        OverlayCommand::CloseDropdown(dropdown),
        OverlayCommand::SetComboOpen { combo: entity, open: false },
    ]);
}

/// A combo selection never stores an index outside the options and always closes the
/// dropdown that was used.
pub proof fn lemma_selection_in_range(
    dropdown: EntityId,
    anchor: EntityId,
    combo: UiComboBox,
    index: nat,
    commands: Seq<OverlayCommand>,
)
    requires
        select_commands(dropdown, anchor, Some(combo), index, commands),
    ensures
        commands.last() == OverlayCommand::CloseDropdown(dropdown),
        forall|k: int|
            0 <= k < commands.len() ==> (#[trigger] commands[k] matches OverlayCommand::SetComboSelected {
                selected,
                ..
            } ==> selected < combo.options@.len()),
{
}

/// The overlay entities spawned for freshly hovered entities that carry a tooltip.
#[derive(Debug, Clone, PartialEq, Eq)]
pub struct TooltipSpawn {
    pub tooltip: UiTooltip,
    pub config: OverlayConfig,
    pub state: OverlayState,
}

/// The tooltip overlay spawned for a hovered `anchor`: above it, flipping when needed.
pub open spec fn tooltip_spawn_for(anchor: EntityId, text: Seq<char>, spawn: TooltipSpawn) -> bool {
    &&& spawn.tooltip.anchor == anchor
    &&& spawn.tooltip.text@ == text
    &&& spawn.config == OverlayConfig {
        placement: OverlayPlacement::Top,
        anchor: Some(anchor),
        auto_flip: true,
    }
    &&& spawn.state == OverlayState { is_modal: false, anchor: Some(anchor) }
}

/// Tooltips to spawn for entities that just became hovered and carry [`HasTooltip`]
/// (none when there is no overlay root to hold them).
pub fn plan_tooltip_spawns(has_overlay_root: bool, just_hovered: &Vec<(EntityId, HasTooltip)>) -> (spawns: Vec<TooltipSpawn>)
    ensures
        !has_overlay_root ==> spawns@.len() == 0,
        has_overlay_root ==> spawns@.len() == just_hovered@.len(),
        has_overlay_root ==> forall|i: int|
            0 <= i < just_hovered@.len() ==> tooltip_spawn_for(
                just_hovered@[i].0,
                just_hovered@[i].1.text@,
                #[trigger] spawns@[i],
            ),
{
    let mut spawns: Vec<TooltipSpawn> = Vec::new();
    if !has_overlay_root {
        return spawns;
    }
    let mut i: usize = 0;
    while i < just_hovered.len()
        invariant
            i <= just_hovered.len(),
            spawns@.len() == i,
            forall|k: int|
                0 <= k < i ==> tooltip_spawn_for(just_hovered@[k].0, just_hovered@[k].1.text@, #[trigger] spawns@[k]),
        decreases just_hovered.len() - i,
    {
        let anchor = just_hovered[i].0;
        let text = just_hovered[i].1.text.clone();
        spawns.push(
            TooltipSpawn {
                tooltip: UiTooltip { text, anchor },
                config: OverlayConfig { placement: OverlayPlacement::Top, anchor: Some(anchor), auto_flip: true },
                state: OverlayState { is_modal: false, anchor: Some(anchor) },
            },
        );
        i = i + 1;
    }
    spawns
}

/// Whether `entity` is listed.
pub open spec fn listed(entities: Seq<EntityId>, entity: EntityId) -> bool {
    exists|i: int| 0 <= i < entities.len() && entities[i] == entity
}

fn contains_entity(entities: &Vec<EntityId>, entity: EntityId) -> (res: bool)
    ensures
        res == listed(entities@, entity),
{
    let mut i: usize = 0;
    while i < entities.len()
        invariant
            i <= entities.len(),
            forall|k: int| 0 <= k < i ==> entities@[k] != entity,
        decreases entities.len() - i,
    {
        if entities[i] == entity {
            return true;
        }
        i = i + 1;
    }
    false
}

/// The tooltips, in order, whose anchor is no longer hovered.
pub open spec fn stale_tooltips(unhovered: Seq<EntityId>, tooltips: Seq<(EntityId, UiTooltip)>) -> Seq<EntityId>
    decreases tooltips.len(),
{
    if tooltips.len() == 0 {
        Seq::empty()
    } else {
        let earlier = stale_tooltips(unhovered, tooltips.drop_last());
        if listed(unhovered, tooltips.last().1.anchor) {
            earlier.push(tooltips.last().0)
        } else {
            earlier
        }
    }
}

/// What is planned for despawn is exactly the tooltip overlays whose anchor is no longer
/// hovered, in the order the tooltips are given: the returned positions pick, one per
/// planned entity and in increasing order, the tooltip that entity is the overlay of, and
/// every tooltip whose anchor is unhovered is picked.
pub proof fn lemma_stale_tooltips_are_unhovered_overlays(
    unhovered: Seq<EntityId>,
    tooltips: Seq<(EntityId, UiTooltip)>,
) -> (picked: Seq<int>)
    ensures
        picked.len() == stale_tooltips(unhovered, tooltips).len(),
        picked.len() <= tooltips.len(),
        forall|k: int|
            0 <= k < picked.len() ==> {
                &&& 0 <= #[trigger] picked[k] < tooltips.len()
                &&& tooltips[picked[k]].0 == stale_tooltips(unhovered, tooltips)[k]
                &&& listed(unhovered, tooltips[picked[k]].1.anchor)
            },
        forall|k1: int, k2: int| 0 <= k1 < k2 < picked.len() ==> picked[k1] < picked[k2],
        forall|i: int|
            0 <= i < tooltips.len() && listed(unhovered, #[trigger] tooltips[i].1.anchor)
                ==> picked.contains(i),
    decreases tooltips.len(),
{
    if tooltips.len() == 0 {
        Seq::empty()
    } else {
        let init = tooltips.drop_last();
        let n = tooltips.len() - 1;
        let earlier = lemma_stale_tooltips_are_unhovered_overlays(unhovered, init);
        assert forall|j: int| 0 <= j < init.len() implies #[trigger] init[j] == tooltips[j] by {}
        if listed(unhovered, tooltips.last().1.anchor) {
            let picked = earlier.push(n);
            assert forall|k: int| 0 <= k < picked.len() implies {
                &&& 0 <= #[trigger] picked[k] < tooltips.len()
                &&& tooltips[picked[k]].0 == stale_tooltips(unhovered, tooltips)[k]
                &&& listed(unhovered, tooltips[picked[k]].1.anchor)
            } by {
                if k < earlier.len() {
                    assert(picked[k] == earlier[k]);
                    assert(init[earlier[k]] == tooltips[earlier[k]]);
                }
            }
            assert forall|i: int|
                0 <= i < tooltips.len() && listed(unhovered, #[trigger] tooltips[i].1.anchor)
                implies picked.contains(i) by {
                if i < n {
                    assert(init[i] == tooltips[i]);
                    assert(earlier.contains(i));
                    let k = choose|k: int| 0 <= k < earlier.len() && earlier[k] == i;
                    assert(picked[k] == i);
                } else {
                    assert(picked[earlier.len() as int] == i);
                }
            }
            picked
        } else {
            assert forall|k: int| 0 <= k < earlier.len() implies {
                &&& 0 <= #[trigger] earlier[k] < tooltips.len()
                &&& tooltips[earlier[k]].0 == stale_tooltips(unhovered, tooltips)[k]
                &&& listed(unhovered, tooltips[earlier[k]].1.anchor)
            } by {
                assert(init[earlier[k]] == tooltips[earlier[k]]);
            }
            assert forall|i: int|
                0 <= i < tooltips.len() && listed(unhovered, #[trigger] tooltips[i].1.anchor)
                implies earlier.contains(i) by {
                if i < n {
                    assert(init[i] == tooltips[i]);
                }
            }
            earlier
        }
    }
}

/// Tooltip entities to despawn because their anchor lost the hover marker.
pub fn plan_tooltip_despawns(unhovered: &Vec<EntityId>, tooltips: &Vec<(EntityId, UiTooltip)>) -> (despawn: Vec<EntityId>)
    ensures
        despawn@ == stale_tooltips(unhovered@, tooltips@),
{
    let mut despawn: Vec<EntityId> = Vec::new();
    let mut i: usize = 0;
    while i < tooltips.len()
        invariant
            i <= tooltips.len(),
            despawn@ == stale_tooltips(unhovered@, tooltips@.subrange(0, i as int)),
        decreases tooltips.len() - i,
    {
        proof {
            assert(tooltips@.subrange(0, i + 1).drop_last() =~= tooltips@.subrange(0, i as int));
        }
        if contains_entity(unhovered, tooltips[i].1.anchor) {
            despawn.push(tooltips[i].0);
        }
        i = i + 1;
    }
    proof {
        assert(tooltips@.subrange(0, tooltips.len() as int) =~= tooltips@);
    }
    despawn
}

/// The stack entries whose overlay is still alive, in stack order.
pub open spec fn kept_overlays(stack: Seq<EntityId>, live: Seq<EntityId>) -> Seq<EntityId>
    decreases stack.len(),
{
    if stack.len() == 0 {
        Seq::empty()
    } else {
        let rest = kept_overlays(stack.drop_last(), live);
        if live.contains(stack.last()) {
            rest.push(stack.last())
        } else {
            rest
        }
    }
}

/// The live overlays that are not on the stack yet, in the order given, each once.
pub open spec fn new_overlays(stack: Seq<EntityId>, live: Seq<EntityId>) -> Seq<EntityId>
    decreases live.len(),
{
    if live.len() == 0 {
        Seq::empty()
    } else {
        let rest = new_overlays(stack, live.drop_last());
        if stack.contains(live.last()) || rest.contains(live.last()) {
            rest
        } else {
            rest.push(live.last())
        }
    }
}

/// The stack after a lifecycle sync: stale entries are pruned, surviving entries keep
/// their order, and new overlays go on top.
pub open spec fn synced_stack(stack: Seq<EntityId>, live: Seq<EntityId>) -> Seq<EntityId> {
    kept_overlays(stack, live) + new_overlays(stack, live)
}

proof fn lemma_push_contains(s: Seq<EntityId>, v: EntityId, x: EntityId)
    ensures
        s.push(v).contains(x) <==> (s.contains(x) || x == v),
        s.no_duplicates() && !s.contains(v) ==> s.push(v).no_duplicates(),
{
    let t = s.push(v);
    if s.contains(x) {
        let i = choose|i: int| 0 <= i < s.len() && s[i] == x;
        assert(t[i] == x);
    }
    if x == v {
        assert(t[s.len() as int] == x);
    }
    if t.contains(x) {
        let i = choose|i: int| 0 <= i < t.len() && t[i] == x;
        if i < s.len() {
            assert(s[i] == x);
        }
    }
    if s.no_duplicates() && !s.contains(v) {
        assert forall|i: int, j: int| 0 <= i < t.len() && 0 <= j < t.len() && i != j implies t[i] != t[j] by {
            if i < s.len() && j == s.len() {
                assert(s.contains(s[i]));
            } else if j < s.len() && i == s.len() {
                assert(s.contains(s[j]));
            }
        }
    }
}

proof fn lemma_kept_overlays(stack: Seq<EntityId>, live: Seq<EntityId>)
    ensures
        forall|x: EntityId| #[trigger] kept_overlays(stack, live).contains(x) <==> (stack.contains(x) && live.contains(x)),
        stack.no_duplicates() ==> kept_overlays(stack, live).no_duplicates(),
    decreases stack.len(),
{
    if stack.len() > 0 {
        let prefix = stack.drop_last();
        let last = stack.last();
        let rest = kept_overlays(prefix, live);
        lemma_kept_overlays(prefix, live);
        assert(stack =~= prefix.push(last));
        assert forall|x: EntityId| #[trigger] kept_overlays(stack, live).contains(x) <==> (stack.contains(x)
            && live.contains(x)) by {
            lemma_push_contains(prefix, last, x);
            lemma_push_contains(rest, last, x);
        }
        if stack.no_duplicates() {
            assert(prefix.no_duplicates());
            lemma_push_contains(prefix, last, last);
            assert(!prefix.contains(last)) by {
                if prefix.contains(last) {
                    let i = choose|i: int| 0 <= i < prefix.len() && prefix[i] == last;
                    assert(stack[i] == stack[stack.len() - 1]);
                }
            }
            assert(!rest.contains(last));
            lemma_push_contains(rest, last, last);
        }
    }
}

proof fn lemma_new_overlays(stack: Seq<EntityId>, live: Seq<EntityId>)
    ensures
        forall|x: EntityId| #[trigger] new_overlays(stack, live).contains(x) <==> (live.contains(x) && !stack.contains(x)),
        new_overlays(stack, live).no_duplicates(),
    decreases live.len(),
{
    if live.len() > 0 {
        let prefix = live.drop_last();
        let last = live.last();
        let rest = new_overlays(stack, prefix);
        lemma_new_overlays(stack, prefix);
        assert(live =~= prefix.push(last));
        assert forall|x: EntityId| #[trigger] new_overlays(stack, live).contains(x) <==> (live.contains(x)
            && !stack.contains(x)) by {
            lemma_push_contains(prefix, last, x);
            lemma_push_contains(rest, last, x);
        }
        lemma_push_contains(rest, last, last);
    }
}

/// After a sync the stack holds exactly the live overlays, each once (when it held no
/// entry twice before).
pub proof fn lemma_synced_stack_matches_live(stack: Seq<EntityId>, live: Seq<EntityId>)
    requires
        stack.no_duplicates(),
    ensures
        forall|x: EntityId| #[trigger] synced_stack(stack, live).contains(x) <==> live.contains(x),
        synced_stack(stack, live).no_duplicates(),
{
    lemma_kept_overlays(stack, live);
    lemma_new_overlays(stack, live);
    let kept = kept_overlays(stack, live);
    let added = new_overlays(stack, live);
    let all = kept + added;
    assert forall|x: EntityId| #[trigger] all.contains(x) <==> live.contains(x) by {
        if kept.contains(x) {
            let i = choose|i: int| 0 <= i < kept.len() && kept[i] == x;
            assert(all[i] == x);
        }
        if added.contains(x) {
            let i = choose|i: int| 0 <= i < added.len() && added[i] == x;
            assert(all[kept.len() + i] == x);
        }
        if all.contains(x) {
            let i = choose|i: int| 0 <= i < all.len() && all[i] == x;
            if i < kept.len() {
                assert(kept[i] == x);
            } else {
                assert(added[i - kept.len()] == x);
            }
        }
    }
    assert forall|i: int, j: int| 0 <= i < all.len() && 0 <= j < all.len() && i != j implies all[i] != all[j] by {
        if i < kept.len() && j >= kept.len() {
            assert(kept.contains(all[i]));
            assert(added.contains(all[j]));
        } else if j < kept.len() && i >= kept.len() {
            assert(kept.contains(all[j]));
            assert(added.contains(all[i]));
        } else if i >= kept.len() {
            assert(all[i] == added[i - kept.len()]);
            assert(all[j] == added[j - kept.len()]);
        }
    }
}

/// Prune overlays that no longer exist from the stack and put new ones on top.
pub fn sync_overlay_stack(stack: &mut OverlayStack, live: &Vec<EntityId>)
    ensures
        final(stack).active_overlays@ == synced_stack(old(stack).active_overlays@, live@),
{
    let old_stack = stack.active_overlays.clone();
    let mut kept: Vec<EntityId> = Vec::new();
    let mut i: usize = 0;
    while i < old_stack.len()
        invariant
            i <= old_stack.len(),
            old_stack@ == old(stack).active_overlays@,
            kept@ == kept_overlays(old_stack@.subrange(0, i as int), live@),
        decreases old_stack.len() - i,
    {
        proof {
            assert(old_stack@.subrange(0, i + 1).drop_last() =~= old_stack@.subrange(0, i as int));
        }
        if contains_entity(live, old_stack[i]) {
            kept.push(old_stack[i]);
        }
        i = i + 1;
    }
    proof {
        assert(old_stack@.subrange(0, old_stack.len() as int) =~= old_stack@);
    }
    let mut added: Vec<EntityId> = Vec::new();
    let mut j: usize = 0;
    while j < live.len()
        invariant
            j <= live.len(),
            old_stack@ == old(stack).active_overlays@,
            added@ == new_overlays(old_stack@, live@.subrange(0, j as int)),
        decreases live.len() - j,
    {
        proof {
            assert(live@.subrange(0, j + 1).drop_last() =~= live@.subrange(0, j as int));
        }
        let entity = live[j];
        if !contains_entity(&old_stack, entity) && !contains_entity(&added, entity) {
            added.push(entity);
        }
        j = j + 1;
    }
    proof {
        assert(live@.subrange(0, live.len() as int) =~= live@);
    }
    kept.append(&mut added);
    stack.active_overlays = kept;
}

/// The overlay an outside click closes: the top-most one, unless the click landed in its
/// content or on its trigger. Only one layer closes per click.
pub open spec fn outside_click_target(stack: Seq<EntityId>, inside_content: bool, inside_trigger: bool) -> Option<
    EntityId,
> {
    if stack.len() == 0 || inside_content || inside_trigger {
        None
    } else {
        Some(stack.last())
    }
}

/// Decide which overlay a left click closes, given whether it hit the top overlay's content
/// rectangle or its trigger rectangle.
pub fn plan_outside_click(stack: &OverlayStack, inside_content: bool, inside_trigger: bool) -> (closed: Option<
    EntityId,
>)
    ensures
        closed == outside_click_target(stack.active_overlays@, inside_content, inside_trigger),
{
    let n = stack.active_overlays.len();
    if n == 0 || inside_content || inside_trigger {
        None
    } else {
        Some(stack.active_overlays[n - 1])
    }
}

/// Default placement and behaviour of a built-in overlay: dialogs are centred modals;
/// dropdowns follow their combo box (below it, flipping when needed, unless the combo says
/// otherwise); other entities get none.
pub open spec fn overlay_defaults_spec(
    is_dialog: bool,
    is_dropdown: bool,
    anchor: Option<EntityId>,
    anchor_combo: Option<UiComboBox>,
) -> Option<(OverlayConfig, OverlayState)> {
    if is_dialog {
        Some(
            (
                OverlayConfig { placement: OverlayPlacement::Center, anchor: None, auto_flip: false },
                OverlayState { is_modal: true, anchor: None },
            ),
        )
    } else if is_dropdown {
        let (placement, auto_flip) = match anchor_combo {
            Some(combo) => (combo.dropdown_placement, combo.auto_flip_placement),
            None => (OverlayPlacement::BottomStart, true),
        };
        Some(
            (
                OverlayConfig { placement, anchor, auto_flip },
                OverlayState { is_modal: false, anchor },
            ),
        )
    } else {
        None
    }
}

/// The overlay configuration and state a built-in overlay receives when it has none.
pub fn overlay_defaults(
    is_dialog: bool,
    is_dropdown: bool,
    anchor: Option<EntityId>,
    anchor_combo: Option<&UiComboBox>,
) -> (defaults: Option<(OverlayConfig, OverlayState)>)
    ensures
        defaults == overlay_defaults_spec(
            is_dialog,
            is_dropdown,
            anchor,
            match anchor_combo {
                Some(c) => Some(*c),
                None => None,
            },
        ),
{
    if is_dialog {
        Some(
            (
                OverlayConfig { placement: OverlayPlacement::Center, anchor: None, auto_flip: false },
                OverlayState { is_modal: true, anchor: None },
            ),
        )
    } else if is_dropdown {
        let (placement, auto_flip) = match anchor_combo {
            Some(combo) => (combo.dropdown_placement, combo.auto_flip_placement),
            None => (OverlayPlacement::BottomStart, true),
        };
        Some(
            (
                OverlayConfig { placement, anchor, auto_flip },
                OverlayState { is_modal: false, anchor },
            ),
        )
    } else {
        None
    }
}

} // verus!
