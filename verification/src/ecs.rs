use vstd::prelude::*;

verus! {

/// Stable identity of an ECS entity (the bit pattern of the entity handle).
#[derive(Debug, Clone, Copy, PartialEq, Eq, Hash, Structural)]
pub struct EntityId(pub u64);

/// Copies a string slice into an owned string with the same characters.
pub fn owned(text: &str) -> (res: String)
    ensures
        res@ == text@,
{
    text.to_owned()
}

/// Copies a list of strings, keeping every character of every entry.
pub fn clone_strings(values: &Vec<String>) -> (res: Vec<String>)
    ensures
        res@ == values@,
{
    let mut res: Vec<String> = Vec::new();
    let mut i: usize = 0;
    while i < values.len()
        invariant
            i <= values.len(),
            res@ == values@.subrange(0, i as int),
        decreases values.len() - i,
    {
        res.push(values[i].clone());
        i = i + 1;
    }
    assert(res@ =~= values@);
    res
}

/// Marker component for UI tree roots.
#[derive(Debug, Clone, Copy, Default, PartialEq, Eq, Hash)]
pub struct UiRoot;

/// Marker component for the global overlay/portal root.
///
/// Overlay entities (dialogs, dropdowns, tooltips, etc.) should be attached as
/// descendants of this node so they are not clipped by regular layout parents.
#[derive(Debug, Clone, Copy, Default, PartialEq, Eq, Hash)]
pub struct UiOverlayRoot;

/// Built-in vertical container marker.
#[derive(Debug, Clone, Copy, Default, PartialEq, Eq)]
pub struct UiFlexColumn;

/// Built-in horizontal container marker.
#[derive(Debug, Clone, Copy, Default, PartialEq, Eq)]
pub struct UiFlexRow;

/// Built-in text label component.
#[derive(Debug, Clone, PartialEq, Eq)]
pub struct UiLabel {
    pub text: String,
}

impl UiLabel {
    #[must_use]
    pub fn new(text: &str) -> (label: Self)
        ensures
            label.text@ == text@,
    {
        Self { text: owned(text) }
    }
}

/// Translation key marker for localized text projection.
#[derive(Debug, Clone, PartialEq, Eq)]
pub struct LocalizeText {
    pub key: String,
}

impl LocalizeText {
    #[must_use]
    pub fn new(key: &str) -> (localized: Self)
        ensures
            localized.key@ == key@,
    {
        Self { key: owned(key) }
    }
}

/// Built-in button component.
#[derive(Debug, Clone, PartialEq, Eq)]
pub struct UiButton {
    pub label: String,
}

impl UiButton {
    #[must_use]
    pub fn new(label: &str) -> (button: Self)
        ensures
            button.label@ == label@,
    {
        Self { label: owned(label) }
    }
}

/// Modal dialog entity projected in the overlay layer.
#[derive(Debug, Clone, PartialEq, Eq)]
pub struct UiDialog {
    pub title: String,
    pub body: String,
    pub dismiss_label: String,
    pub title_key: Option<String>,
    pub body_key: Option<String>,
    pub dismiss_key: Option<String>,
}

impl UiDialog {
    #[must_use]
    pub fn new(title: &str, body: &str) -> (dialog: Self)
        ensures
            dialog.title@ == title@,
            dialog.body@ == body@,
            dialog.dismiss_label@ == "Close"@,
            dialog.title_key is None,
            dialog.body_key is None,
            dialog.dismiss_key is None,
    {
        Self {
            title: owned(title),
            body: owned(body),
            dismiss_label: owned("Close"),
            title_key: None,
            body_key: None,
            dismiss_key: None,
        }
    }

    #[must_use]
    pub fn with_localized_keys(self, title_key: &str, body_key: &str, dismiss_key: &str) -> (dialog: Self)
        ensures
            dialog.title == self.title,
            dialog.body == self.body,
            dialog.dismiss_label == self.dismiss_label,
            dialog.title_key matches Some(k) && k@ == title_key@,
            dialog.body_key matches Some(k) && k@ == body_key@,
            dialog.dismiss_key matches Some(k) && k@ == dismiss_key@,
    {
        let mut dialog = self;
        dialog.title_key = Some(owned(title_key));
        dialog.body_key = Some(owned(body_key));
        dialog.dismiss_key = Some(owned(dismiss_key));
        dialog
    }
}

/// Universal placement hints for floating overlays.
#[derive(Debug, Clone, Copy, PartialEq, Eq, Structural)]
pub enum OverlayPlacement {
    /// Centered inside the viewport.
    Center,
    /// Anchored above the anchor/window edge.
    Top,
    /// Anchored below the anchor/window edge.
    Bottom,
    /// Anchored to the left of the anchor/window edge.
    Left,
    /// Anchored to the right of the anchor/window edge.
    Right,
    /// Anchored to top edge, aligned to logical start.
    TopStart,
    /// Anchored to top edge, aligned to logical end.
    TopEnd,
    /// Anchored to bottom edge, aligned to logical start.
    BottomStart,
    /// Anchored to bottom edge, aligned to logical end.
    BottomEnd,
    /// Anchored to left edge, aligned to logical start.
    LeftStart,
    /// Anchored to right edge, aligned to logical start.
    RightStart,
}

impl Default for OverlayPlacement {
    fn default() -> (placement: Self)
        ensures
            placement == OverlayPlacement::Center,
    {
        OverlayPlacement::Center
    }
}

/// Placement and collision behavior for an overlay entity.
#[derive(Debug, Clone, Copy, PartialEq, Eq)]
pub struct OverlayConfig {
    /// Preferred placement for this overlay.
    pub placement: OverlayPlacement,
    /// Anchor entity for placement. `None` anchors to the window.
    pub anchor: Option<EntityId>,
    /// Enables automatic placement flipping when the preferred side overflows.
    pub auto_flip: bool,
}

impl Default for OverlayConfig {
    fn default() -> (config: Self)
        ensures
            config.placement == OverlayPlacement::Center,
            config.anchor is None,
            !config.auto_flip,
    {
        Self { placement: OverlayPlacement::Center, anchor: None, auto_flip: false }
    }
}

/// Centralized z-ordered overlay stack.
///
/// The last entry is the top-most overlay (highest z-index).
#[derive(Debug, Clone, Default, PartialEq, Eq)]
pub struct OverlayStack {
    pub active_overlays: Vec<EntityId>,
}

/// Behavioral state for an overlay instance.
#[derive(Debug, Clone, Copy, Default, PartialEq, Eq)]
pub struct OverlayState {
    /// `true` for modal layers (dialogs/sheets) that block interactions under them.
    pub is_modal: bool,
    /// Optional trigger/anchor entity that opened this overlay.
    pub anchor: Option<EntityId>,
}

/// Marker for overlays that should close on outside click.
#[derive(Debug, Clone, Copy, Default, PartialEq, Eq)]
pub struct AutoDismiss;

/// Single combo option entry.
#[derive(Debug, Clone, PartialEq, Eq)]
pub struct UiComboOption {
    pub value: String,
    pub label: String,
    pub label_key: Option<String>,
}

impl UiComboOption {
    #[must_use]
    pub fn new(value: &str, label: &str) -> (option: Self)
        ensures
            option.value@ == value@,
            option.label@ == label@,
            option.label_key is None,
    {
        Self { value: owned(value), label: owned(label), label_key: None }
    }

    #[must_use]
    pub fn with_label_key(self, key: &str) -> (option: Self)
        ensures
            option.value == self.value,
            option.label == self.label,
            option.label_key matches Some(k) && k@ == key@,
    {
        let mut option = self;
        option.label_key = Some(owned(key));
        option
    }
}

/// Combo-box anchor control.
#[derive(Debug, Clone, PartialEq, Eq)]
pub struct UiComboBox {
    pub options: Vec<UiComboOption>,
    pub selected: usize,
    pub is_open: bool,
    pub placeholder: String,
    pub placeholder_key: Option<String>,
    pub dropdown_placement: OverlayPlacement,
    pub auto_flip_placement: bool,
}

/// The option index a combo box shows: its selection clamped into the options,
/// or nothing when there are no options.
pub open spec fn clamped_index(len: nat, selected: nat) -> Option<nat> {
    if len == 0 {
        None
    } else if selected < len {
        Some(selected)
    } else {
        Some((len - 1) as nat)
    }
}

impl UiComboBox {
    #[must_use]
    pub fn new(options: Vec<UiComboOption>) -> (combo: Self)
        ensures
            combo.options == options,
            combo.selected == 0,
            !combo.is_open,
            combo.placeholder@ == "Select"@,
            combo.placeholder_key is None,
            combo.dropdown_placement == OverlayPlacement::BottomStart,
            combo.auto_flip_placement,
    {
        Self {
            options,
            selected: 0,
            is_open: false,
            placeholder: owned("Select"),
            placeholder_key: None,
            dropdown_placement: OverlayPlacement::BottomStart,
            auto_flip_placement: true,
        }
    }

    #[must_use]
    pub fn with_placeholder(self, placeholder: &str) -> (combo: Self)
        ensures
            combo == (Self { placeholder: combo.placeholder, ..self }),
            combo.placeholder@ == placeholder@,
    {
        let mut combo = self;
        combo.placeholder = owned(placeholder);
        combo
    }

    #[must_use]
    pub fn with_placeholder_key(self, key: &str) -> (combo: Self)
        ensures
            combo == (Self { placeholder_key: combo.placeholder_key, ..self }),
            combo.placeholder_key matches Some(k) && k@ == key@,
    {
        let mut combo = self;
        combo.placeholder_key = Some(owned(key));
        combo
    }

    #[must_use]
    pub fn with_dropdown_placement(self, placement: OverlayPlacement) -> (combo: Self)
        ensures
            combo == (Self { dropdown_placement: placement, ..self }),
    {
        let mut combo = self;
        combo.dropdown_placement = placement;
        combo
    }

    #[must_use]
    pub fn with_overlay_placement(self, placement: OverlayPlacement) -> (combo: Self)
        ensures
            combo == (Self { dropdown_placement: placement, ..self }),
    {
        self.with_dropdown_placement(placement)
    }

    #[must_use]
    pub fn with_auto_flip_placement(self, auto_flip: bool) -> (combo: Self)
        ensures
            combo == (Self { auto_flip_placement: auto_flip, ..self }),
    {
        let mut combo = self;
        combo.auto_flip_placement = auto_flip;
        combo
    }

    #[must_use]
    pub fn with_overlay_auto_flip(self, auto_flip: bool) -> (combo: Self)
        ensures
            combo == (Self { auto_flip_placement: auto_flip, ..self }),
    {
        self.with_auto_flip_placement(auto_flip)
    }

    #[must_use]
    pub fn clamped_selected(&self) -> (index: Option<usize>)
        ensures
            index matches Some(i) ==> clamped_index(self.options@.len(), self.selected as nat) == Some(i as nat),
            index is None <==> clamped_index(self.options@.len(), self.selected as nat) is None,
    {
        if self.options.len() == 0 {
            None
        } else if self.selected < self.options.len() - 1 {
            Some(self.selected)
        } else {
            Some(self.options.len() - 1)
        }
    }
}

/// Floating dropdown list entity rendered in the overlay layer.
#[derive(Debug, Clone, Copy, Default, PartialEq, Eq)]
pub struct UiDropdownMenu;

/// Marker telling an overlay widget which anchor entity it follows.
#[derive(Debug, Clone, Copy, PartialEq, Eq)]
pub struct AnchoredTo(pub EntityId);

/// Emitted when a [`UiComboBox`] selection changes.
#[derive(Debug, Clone, PartialEq, Eq)]
pub struct UiComboBoxChanged {
    pub combo: EntityId,
    pub selected: usize,
    pub value: String,
}

/// Radio button group component with multiple exclusive options.
#[derive(Debug, Clone, PartialEq, Eq)]
pub struct UiRadioGroup {
    /// Labels for each radio option.
    pub options: Vec<String>,
    /// Index of the currently selected option.
    pub selected: usize,
}

impl UiRadioGroup {
    #[must_use]
    pub fn new(options: Vec<String>) -> (group: Self)
        ensures
            group.options == options,
            group.selected == 0,
    {
        Self { options, selected: 0 }
    }

    #[must_use]
    pub fn with_selected(self, index: usize) -> (group: Self)
        ensures
            group == (Self { selected: index, ..self }),
    {
        let mut group = self;
        group.selected = index;
        group
    }
}

/// Emitted when the selection in a [`UiRadioGroup`] changes.
#[derive(Debug, Clone, PartialEq, Eq)]
pub struct UiRadioGroupChanged {
    pub group: EntityId,
    pub selected: usize,
}

/// Tab bar component that shows labeled tabs and manages active content.
///
/// Place tab content entities as ECS children; the active tab index
/// controls which child is displayed.
#[derive(Debug, Clone, PartialEq, Eq)]
pub struct UiTabBar {
    /// Labels shown on each tab header.
    pub tabs: Vec<String>,
    /// Index of the currently active tab.
    pub active: usize,
}

impl UiTabBar {
    #[must_use]
    pub fn new(tabs: Vec<String>) -> (bar: Self)
        ensures
            bar.tabs == tabs,
            bar.active == 0,
    {
        Self { tabs, active: 0 }
    }

    #[must_use]
    pub fn with_active(self, index: usize) -> (bar: Self)
        ensures
            bar == (Self { active: index, ..self }),
    {
        let mut bar = self;
        bar.active = index;
        bar
    }
}

/// Emitted when the active tab changes in a [`UiTabBar`].
#[derive(Debug, Clone, PartialEq, Eq)]
pub struct UiTabChanged {
    pub bar: EntityId,
    pub active: usize,
}

/// A node in a tree view hierarchy.
///
/// Tree nodes are connected through ECS parent/child relationships.
/// A node with `UiTreeNode` children shows an expand/collapse toggle.
#[derive(Debug, Clone, PartialEq, Eq)]
pub struct UiTreeNode {
    /// Display label for this node.
    pub label: String,
    /// Whether children are currently visible.
    pub is_expanded: bool,
}

impl UiTreeNode {
    #[must_use]
    pub fn new(label: &str) -> (node: Self)
        ensures
            node.label@ == label@,
            !node.is_expanded,
    {
        Self { label: owned(label), is_expanded: false }
    }

    #[must_use]
    pub fn expanded(self) -> (node: Self)
        ensures
            node == (Self { is_expanded: true, ..self }),
    {
        let mut node = self;
        node.is_expanded = true;
        node
    }
}

/// Emitted when a tree node is expanded or collapsed.
#[derive(Debug, Clone, PartialEq, Eq)]
pub struct UiTreeNodeToggled {
    pub node: EntityId,
    pub is_expanded: bool,
}

/// A simple data table with column headers and rows.
#[derive(Debug, Clone, PartialEq, Eq)]
pub struct UiTable {
    /// Column header labels.
    pub columns: Vec<String>,
    /// Table data rows (each row is a list of cell strings).
    pub rows: Vec<Vec<String>>,
}

impl UiTable {
    #[must_use]
    pub fn new(columns: Vec<String>) -> (table: Self)
        ensures
            table.columns == columns,
            table.rows@.len() == 0,
    {
        Self { columns, rows: Vec::new() }
    }

    #[must_use]
    pub fn with_row(self, cells: Vec<String>) -> (table: Self)
        ensures
            table.columns == self.columns,
            table.rows@ == self.rows@.push(cells),
    {
        let mut table = self;
        table.rows.push(cells);
        table
    }
}

/// A single item in a menu (inside a dropdown).
#[derive(Debug, Clone, PartialEq, Eq)]
pub struct UiMenuItem {
    pub label: String,
    pub value: String,
}

impl UiMenuItem {
    #[must_use]
    pub fn new(label: &str, value: &str) -> (item: Self)
        ensures
            item.label@ == label@,
            item.value@ == value@,
    {
        Self { label: owned(label), value: owned(value) }
    }
}

/// A top-level entry in a menu bar with a dropdown list of menu items.
#[derive(Debug, Clone, PartialEq, Eq)]
pub struct UiMenuBarItem {
    /// Label displayed on the menu bar button.
    pub label: String,
    /// Items shown in the dropdown panel.
    pub items: Vec<UiMenuItem>,
    /// Whether the dropdown is currently open.
    pub is_open: bool,
}

impl UiMenuBarItem {
    #[must_use]
    pub fn new(label: &str, items: Vec<UiMenuItem>) -> (item: Self)
        ensures
            item.label@ == label@,
            item.items == items,
            !item.is_open,
    {
        Self { label: owned(label), items, is_open: false }
    }
}

/// Marker for a horizontal menu bar container.
///
/// Place [`UiMenuBarItem`] entities as ECS children.
#[derive(Debug, Clone, Copy, Default, PartialEq, Eq)]
pub struct UiMenuBar;

/// Floating menu item panel rendered in the overlay layer (one per open [`UiMenuBarItem`]).
#[derive(Debug, Clone, Copy, PartialEq, Eq)]
pub struct UiMenuItemPanel {
    /// The [`UiMenuBarItem`] anchor entity this panel belongs to.
    pub anchor: EntityId,
}

/// Emitted when a menu item is selected from a [`UiMenuBarItem`] dropdown.
#[derive(Debug, Clone, PartialEq, Eq)]
pub struct UiMenuItemSelected {
    pub bar_item: EntityId,
    pub value: String,
}

/// Causes a floating tooltip to appear when the entity is hovered.
///
/// Works on any entity that emits hover interaction events (e.g. entities
/// projected as buttons).
#[derive(Debug, Clone, PartialEq, Eq)]
pub struct HasTooltip {
    /// Text shown inside the tooltip.
    pub text: String,
}

impl HasTooltip {
    #[must_use]
    pub fn new(text: &str) -> (tooltip: Self)
        ensures
            tooltip.text@ == text@,
    {
        Self { text: owned(text) }
    }
}

/// Floating tooltip overlay anchored to a source entity.
///
/// Spawned by the tooltip rules when an entity with [`HasTooltip`] becomes hovered.
#[derive(Debug, Clone, PartialEq, Eq)]
pub struct UiTooltip {
    /// Tooltip body text.
    pub text: String,
    /// The entity that triggered this tooltip.
    pub anchor: EntityId,
}

/// An animated loading spinner (indefinite progress indicator).
#[derive(Debug, Clone, PartialEq, Eq)]
pub struct UiSpinner {
    /// Optional label shown next to the spinner.
    pub label: Option<String>,
}

impl UiSpinner {
    #[must_use]
    pub fn new() -> (spinner: Self)
        ensures
            spinner.label is None,
    {
        Self { label: None }
    }

    #[must_use]
    pub fn with_label(self, label: &str) -> (spinner: Self)
        ensures
            spinner.label matches Some(l) && l@ == label@,
    {
        let mut spinner = self;
        spinner.label = Some(owned(label));
        spinner
    }
}

impl Default for UiSpinner {
    fn default() -> (spinner: Self)
        ensures
            spinner.label is None,
    {
        Self::new()
    }
}

/// An inline color picker that opens an overlay panel for color selection.
#[derive(Debug, Clone, Copy, PartialEq, Eq)]
pub struct UiColorPicker {
    pub r: u8,
    pub g: u8,
    pub b: u8,
    /// Whether the color picker overlay panel is currently open.
    pub is_open: bool,
}

impl UiColorPicker {
    #[must_use]
    pub fn new(r: u8, g: u8, b: u8) -> (picker: Self)
        ensures
            picker == (Self { r, g, b, is_open: false }),
    {
        Self { r, g, b, is_open: false }
    }
}

/// Floating color picker panel (rendered in the overlay layer).
#[derive(Debug, Clone, Copy, PartialEq, Eq)]
pub struct UiColorPickerPanel {
    /// The [`UiColorPicker`] anchor entity this panel belongs to.
    pub anchor: EntityId,
}

/// Emitted when the selected color changes in a [`UiColorPicker`].
#[derive(Debug, Clone, Copy, PartialEq, Eq)]
pub struct UiColorPickerChanged {
    pub picker: EntityId,
    pub r: u8,
    pub g: u8,
    pub b: u8,
}

/// A titled group box that visually groups related content.
///
/// Place content entities as ECS children.
#[derive(Debug, Clone, PartialEq, Eq)]
pub struct UiGroupBox {
    /// Title displayed at the top of the group box.
    pub title: String,
}

impl UiGroupBox {
    #[must_use]
    pub fn new(title: &str) -> (group: Self)
        ensures
            group.title@ == title@,
    {
        Self { title: owned(title) }
    }
}

/// The split axis for a split pane.
#[derive(Debug, Clone, Copy, PartialEq, Eq, Structural)]
pub enum SplitDirection {
    /// Children are placed side by side (left / right).
    Horizontal,
    /// Children are stacked (top / bottom).
    Vertical,
}

impl Default for SplitDirection {
    fn default() -> (direction: Self)
        ensures
            direction == SplitDirection::Horizontal,
    {
        SplitDirection::Horizontal
    }
}

/// Visual severity / colour of a toast notification.
#[derive(Debug, Clone, Copy, PartialEq, Eq, Structural)]
pub enum ToastKind {
    Info,
    Success,
    Warning,
    Error,
}

impl Default for ToastKind {
    fn default() -> (kind: Self)
        ensures
            kind == ToastKind::Info,
    {
        ToastKind::Info
    }
}

/// `value` limited to the closed range `[lo, hi]` (for `lo <= hi`).
pub open spec fn clamp_spec(value: int, lo: int, hi: int) -> int {
    if value < lo {
        lo
    } else if value > hi {
        hi
    } else {
        value
    }
}

/// An inline date picker that opens a calendar overlay panel.
#[derive(Debug, Clone, Copy, PartialEq, Eq)]
pub struct UiDatePicker {
    pub year: i32,
    pub month: u32,
    pub day: u32,
    /// Whether the calendar overlay panel is currently open.
    pub is_open: bool,
}

impl UiDatePicker {
    #[must_use]
    pub fn new(year: i32, month: u32, day: u32) -> (picker: Self)
        ensures
            picker.year == year,
            picker.month == clamp_spec(month as int, 1, 12),
            picker.day == clamp_spec(day as int, 1, 31),
            !picker.is_open,
    {
        let month = if month < 1 {
            1
        } else if month > 12 {
            12
        } else {
            month
        };
        let day = if day < 1 {
            1
        } else if day > 31 {
            31
        } else {
            day
        };
        Self { year, month, day, is_open: false }
    }
}

/// Floating date picker calendar panel (rendered in the overlay layer).
#[derive(Debug, Clone, Copy, PartialEq, Eq)]
pub struct UiDatePickerPanel {
    /// The [`UiDatePicker`] anchor entity this panel belongs to.
    pub anchor: EntityId,
    /// Month currently shown in the calendar (may differ from selected month).
    pub view_year: i32,
    pub view_month: u32,
}

/// Emitted when the selected date changes in a [`UiDatePicker`].
#[derive(Debug, Clone, Copy, PartialEq, Eq)]
pub struct UiDatePickerChanged {
    pub picker: EntityId,
    pub year: i32,
    pub month: u32,
    pub day: u32,
}

/// A toggleable checkbox control with a text label.
#[derive(Debug, Clone, PartialEq, Eq)]
pub struct UiCheckbox {
    pub label: String,
    pub checked: bool,
}

/// Emitted when a [`UiCheckbox`] is toggled.
#[derive(Debug, Clone, Copy, PartialEq, Eq)]
pub struct UiCheckboxChanged {
    pub checkbox: EntityId,
    pub checked: bool,
}

/// An on/off switch control with an optional label.
#[derive(Debug, Clone, PartialEq, Eq)]
pub struct UiSwitch {
    pub on: bool,
    pub label: Option<String>,
}

/// Emitted when a [`UiSwitch`] is toggled.
#[derive(Debug, Clone, Copy, PartialEq, Eq)]
pub struct UiSwitchChanged {
    pub switch: EntityId,
    pub on: bool,
}

/// A single-line text input control.
#[derive(Debug, Clone, PartialEq, Eq)]
pub struct UiTextInput {
    pub value: String,
    pub placeholder: String,
}

/// Emitted when the contents of a [`UiTextInput`] change.
#[derive(Debug, Clone, PartialEq, Eq)]
pub struct UiTextInputChanged {
    pub input: EntityId,
    pub value: String,
}

} // verus!
