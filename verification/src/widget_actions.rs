//! State changes of built-in widgets in response to their UI actions.
use vstd::prelude::*;

use crate::ecs::{
    EntityId, UiCheckbox, UiCheckboxChanged, UiRadioGroup, UiRadioGroupChanged, UiSwitch,
    UiSwitchChanged, UiTabBar, UiTabChanged, UiTextInput, UiTextInputChanged, UiTreeNode,
    UiTreeNodeToggled,
};
use crate::style::F64Bits;

verus! {

/// Internal action enum for non-overlay widget interactions.
///
/// These actions are emitted by built-in widget projectors and applied by
/// [`apply_widget_action`] each frame.
#[derive(Debug, Clone, PartialEq)]
pub enum WidgetUiAction {
    /// Select a specific item in a radio group.
    SelectRadioItem { group: EntityId, index: usize },
    /// Switch the active tab in a tab bar.
    SelectTab { bar: EntityId, index: usize },
    /// Expand or collapse a tree node.
    ToggleTreeNode { node: EntityId },
    /// Toggle a checkbox.
    ToggleCheckbox { checkbox: EntityId },
    /// Adjust slider value using step increments (the step is applied by the host, which
    /// owns the floating-point slider state; `delta` holds the bits of the `f64` step count).
    StepSlider { slider: EntityId, delta: F64Bits },
    /// Toggle a switch.
    ToggleSwitch { switch: EntityId },
    /// Update text input contents.
    SetTextInput { input: EntityId, value: String },
}

/// The widget component found on the entity an action addresses.
#[derive(Debug, Clone, PartialEq, Eq)]
pub enum WidgetComponent {
    RadioGroup(UiRadioGroup),
    TabBar(UiTabBar),
    TreeNode(UiTreeNode),
    Checkbox(UiCheckbox),
    Switch(UiSwitch),
    TextInput(UiTextInput),
    /// The entity carries no component the action applies to.
    Missing,
}

/// The high-level event re-emitted after a widget changed.
#[derive(Debug, Clone, PartialEq, Eq)]
pub enum WidgetChanged {
    RadioGroup(UiRadioGroupChanged),
    TabBar(UiTabChanged),
    TreeNode(UiTreeNodeToggled),
    Checkbox(UiCheckboxChanged),
    Switch(UiSwitchChanged),
    TextInput(UiTextInputChanged),
}

/// How an action changes the component it addresses, and the event it announces.
pub open spec fn widget_action_effect(
    action: WidgetUiAction,
    before: WidgetComponent,
    after: WidgetComponent,
    changed: Option<WidgetChanged>,
) -> bool {
    match (action, before) {
        (WidgetUiAction::SelectRadioItem { group, index }, WidgetComponent::RadioGroup(radio)) => {
            &&& after == WidgetComponent::RadioGroup(UiRadioGroup { selected: index, ..radio })
            &&& changed == Some(WidgetChanged::RadioGroup(UiRadioGroupChanged { group, selected: index }))
        },
        (WidgetUiAction::SelectTab { bar, index }, WidgetComponent::TabBar(tabs)) => {
            &&& after == WidgetComponent::TabBar(UiTabBar { active: index, ..tabs })
            &&& changed == Some(WidgetChanged::TabBar(UiTabChanged { bar, active: index }))
        },
        (WidgetUiAction::ToggleTreeNode { node }, WidgetComponent::TreeNode(tree)) => {
            &&& after == WidgetComponent::TreeNode(UiTreeNode { is_expanded: !tree.is_expanded, ..tree })
            &&& changed == Some(
                WidgetChanged::TreeNode(UiTreeNodeToggled { node, is_expanded: !tree.is_expanded }),
            )
        },
        (WidgetUiAction::ToggleCheckbox { checkbox }, WidgetComponent::Checkbox(state)) => {
            &&& after == WidgetComponent::Checkbox(UiCheckbox { checked: !state.checked, ..state })
            &&& changed == Some(
                WidgetChanged::Checkbox(UiCheckboxChanged { checkbox, checked: !state.checked }),
            )
        },
        (WidgetUiAction::ToggleSwitch { switch }, WidgetComponent::Switch(state)) => {
            &&& after == WidgetComponent::Switch(UiSwitch { on: !state.on, ..state })
            &&& changed == Some(WidgetChanged::Switch(UiSwitchChanged { switch, on: !state.on }))
        },
        (WidgetUiAction::SetTextInput { input, value }, WidgetComponent::TextInput(state)) => {
            &&& after matches WidgetComponent::TextInput(next) && next.value@ == value@ && next.placeholder
                == state.placeholder
            &&& changed matches Some(WidgetChanged::TextInput(ev)) && ev.input == input && ev.value@ == value@
        },
        _ => after == before && changed is None,
    }
}

/// Apply one widget action to the component it addresses and return the change to announce.
///
/// An action whose target carries no matching component changes nothing.
pub fn apply_widget_action(action: WidgetUiAction, component: &mut WidgetComponent) -> (changed: Option<WidgetChanged>)
    ensures
        widget_action_effect(action, *old(component), *final(component), changed),
{
    match action {
        WidgetUiAction::SelectRadioItem { group, index } => {
            if let WidgetComponent::RadioGroup(radio) = component {
                radio.selected = index;
                return Some(WidgetChanged::RadioGroup(UiRadioGroupChanged { group, selected: index }));
            }
            None
        },
        WidgetUiAction::SelectTab { bar, index } => {
            if let WidgetComponent::TabBar(tabs) = component {
                tabs.active = index;
                return Some(WidgetChanged::TabBar(UiTabChanged { bar, active: index }));
            }
            None
        },
        WidgetUiAction::ToggleTreeNode { node } => {
            if let WidgetComponent::TreeNode(tree) = component {
                let is_expanded = !tree.is_expanded;
                tree.is_expanded = is_expanded;
                return Some(WidgetChanged::TreeNode(UiTreeNodeToggled { node, is_expanded }));
            }
            None
        },
        WidgetUiAction::ToggleCheckbox { checkbox } => {
            if let WidgetComponent::Checkbox(state) = component {
                let checked = !state.checked;
                state.checked = checked;
                return Some(WidgetChanged::Checkbox(UiCheckboxChanged { checkbox, checked }));
            }
            None
        },
        WidgetUiAction::StepSlider { .. } => None,
        WidgetUiAction::ToggleSwitch { switch } => {
            if let WidgetComponent::Switch(state) = component {
                let on = !state.on;
                state.on = on;
                return Some(WidgetChanged::Switch(UiSwitchChanged { switch, on }));
            }
            None
        },
        WidgetUiAction::SetTextInput { input, value } => {
            if let WidgetComponent::TextInput(state) = component {
                state.value = value.clone();
                return Some(WidgetChanged::TextInput(UiTextInputChanged { input, value }));
            }
            None
        },
    }
}

/// Selecting a tab makes it the active one: the tab labels stay, and the announced
/// event names the bar and the tab that is now active.
pub proof fn lemma_select_tab_activates(
    bar: EntityId,
    index: usize,
    before: WidgetComponent,
    after: WidgetComponent,
    changed: Option<WidgetChanged>,
)
    requires
        before is TabBar,
        widget_action_effect(WidgetUiAction::SelectTab { bar, index }, before, after, changed),
    ensures
        after matches WidgetComponent::TabBar(next) && next.active == index
            && next.tabs == before->TabBar_0.tabs,
        changed matches Some(WidgetChanged::TabBar(ev)) && ev.bar == bar && ev.active == index,
        after->TabBar_0.active == changed->0->TabBar_0.active,
{
}

/// Selecting a radio item makes it the selected one: the options stay, and the announced
/// event names the group and the option that is now selected.
pub proof fn lemma_select_radio_item_selects(
    group: EntityId,
    index: usize,
    before: WidgetComponent,
    after: WidgetComponent,
    changed: Option<WidgetChanged>,
)
    requires
        before is RadioGroup,
        widget_action_effect(WidgetUiAction::SelectRadioItem { group, index }, before, after, changed),
    ensures
        after matches WidgetComponent::RadioGroup(next) && next.selected == index
            && next.options == before->RadioGroup_0.options,
        changed matches Some(WidgetChanged::RadioGroup(ev)) && ev.group == group && ev.selected == index,
{
}

/// Toggling a checkbox flips its check mark, keeps its label, and announces the new state.
pub proof fn lemma_toggle_checkbox_flips(
    checkbox: EntityId,
    before: WidgetComponent,
    after: WidgetComponent,
    changed: Option<WidgetChanged>,
)
    requires
        before is Checkbox,
        widget_action_effect(WidgetUiAction::ToggleCheckbox { checkbox }, before, after, changed),
    ensures
        after matches WidgetComponent::Checkbox(next) && next.checked != before->Checkbox_0.checked
            && next.label == before->Checkbox_0.label,
        changed matches Some(WidgetChanged::Checkbox(ev)) && ev.checkbox == checkbox
            && ev.checked == after->Checkbox_0.checked,
{
}

/// Toggling a switch flips it, keeps its label, and announces the new state.
pub proof fn lemma_toggle_switch_flips(
    switch: EntityId,
    before: WidgetComponent,
    after: WidgetComponent,
    changed: Option<WidgetChanged>,
)
    requires
        before is Switch,
        widget_action_effect(WidgetUiAction::ToggleSwitch { switch }, before, after, changed),
    ensures
        after matches WidgetComponent::Switch(next) && next.on != before->Switch_0.on
            && next.label == before->Switch_0.label,
        changed matches Some(WidgetChanged::Switch(ev)) && ev.switch == switch && ev.on == after->Switch_0.on,
{
}

/// Toggling a tree node expands a collapsed node and collapses an expanded one, keeps its
/// label, and announces the new state.
pub proof fn lemma_toggle_tree_node_flips(
    node: EntityId,
    before: WidgetComponent,
    after: WidgetComponent,
    changed: Option<WidgetChanged>,
)
    requires
        before is TreeNode,
        widget_action_effect(WidgetUiAction::ToggleTreeNode { node }, before, after, changed),
    ensures
        after matches WidgetComponent::TreeNode(next) && next.is_expanded != before->TreeNode_0.is_expanded
            && next.label == before->TreeNode_0.label,
        changed matches Some(WidgetChanged::TreeNode(ev)) && ev.node == node
            && ev.is_expanded == after->TreeNode_0.is_expanded,
{
}

/// Setting a text input stores the new text, keeps the placeholder, and announces the text.
pub proof fn lemma_set_text_input_stores(
    input: EntityId,
    value: String,
    before: WidgetComponent,
    after: WidgetComponent,
    changed: Option<WidgetChanged>,
)
    requires
        before is TextInput,
        widget_action_effect(WidgetUiAction::SetTextInput { input, value }, before, after, changed),
    ensures
        after matches WidgetComponent::TextInput(next) && next.value@ == value@
            && next.placeholder == before->TextInput_0.placeholder,
        changed matches Some(WidgetChanged::TextInput(ev)) && ev.input == input
            && ev.value@ == after->TextInput_0.value@,
{
}

/// An action addressed to an entity without a widget component, or a slider step (which
/// the host applies), leaves the component as it was and announces nothing.
pub proof fn lemma_unmatched_action_changes_nothing(
    action: WidgetUiAction,
    before: WidgetComponent,
    after: WidgetComponent,
    changed: Option<WidgetChanged>,
)
    requires
        before is Missing || action is StepSlider,
        widget_action_effect(action, before, after, changed),
    ensures
        after == before,
        changed is None,
{
}

/// Toggling a checkbox twice restores it, and each toggle announces the new state.
pub proof fn lemma_checkbox_toggle_twice(
    checkbox: EntityId,
    c0: WidgetComponent,
    c1: WidgetComponent,
    c2: WidgetComponent,
    e1: Option<WidgetChanged>,
    e2: Option<WidgetChanged>,
)
    requires
        c0 is Checkbox,
        widget_action_effect(WidgetUiAction::ToggleCheckbox { checkbox }, c0, c1, e1),
        widget_action_effect(WidgetUiAction::ToggleCheckbox { checkbox }, c1, c2, e2),
    ensures
        c2 == c0,
        e1 matches Some(WidgetChanged::Checkbox(ev)) && ev.checked == c1->Checkbox_0.checked,
{
}

/// Toggling a switch twice restores it.
pub proof fn lemma_switch_toggle_twice(
    switch: EntityId,
    c0: WidgetComponent,
    c1: WidgetComponent,
    c2: WidgetComponent,
    e1: Option<WidgetChanged>,
    e2: Option<WidgetChanged>,
)
    requires
        c0 is Switch,
        widget_action_effect(WidgetUiAction::ToggleSwitch { switch }, c0, c1, e1),
        widget_action_effect(WidgetUiAction::ToggleSwitch { switch }, c1, c2, e2),
    ensures
        c2 == c0,
{
}

/// Expanding and collapsing a tree node twice restores it.
pub proof fn lemma_tree_toggle_twice(
    node: EntityId,
    c0: WidgetComponent,
    c1: WidgetComponent,
    c2: WidgetComponent,
    e1: Option<WidgetChanged>,
    e2: Option<WidgetChanged>,
)
    requires
        c0 is TreeNode,
        widget_action_effect(WidgetUiAction::ToggleTreeNode { node }, c0, c1, e1),
        widget_action_effect(WidgetUiAction::ToggleTreeNode { node }, c1, c2, e2),
    ensures
        c2 == c0,
{
}

/// Selecting a radio item twice with the same index is the same as selecting it once.
pub proof fn lemma_radio_select_idempotent(
    group: EntityId,
    index: usize,
    c0: WidgetComponent,
    c1: WidgetComponent,
    c2: WidgetComponent,
    e1: Option<WidgetChanged>,
    e2: Option<WidgetChanged>,
)
    requires
        c0 is RadioGroup,
        widget_action_effect(WidgetUiAction::SelectRadioItem { group, index }, c0, c1, e1),
        widget_action_effect(WidgetUiAction::SelectRadioItem { group, index }, c1, c2, e2),
    ensures
        c2 == c1,
        e2 == e1,
        c1->RadioGroup_0.selected == index,
{
}

} // verus!
