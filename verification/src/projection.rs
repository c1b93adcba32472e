//! The projector registry: which projector turns an entity into a view. Projectors are
//! registered per component type, and the one registered last wins.
use vstd::prelude::*;

use crate::ecs::owned;

verus! {

/// The projectors the crate ships for its own components.
#[derive(Debug, Clone, Copy, PartialEq, Eq, Structural)]
pub enum BuiltinProjector {
    FlexColumn,
    FlexRow,
    Label,
    Button,
    OverlayRoot,
    Dialog,
    ComboBox,
    DropdownMenu,
}

/// A registered projector: a built-in one, or one the application registered under a
/// number of its own.
#[derive(Debug, Clone, Copy, PartialEq, Eq, Structural)]
pub enum ProjectorHandle {
    Builtin(BuiltinProjector),
    Custom(u64),
}

/// Registered projectors in registration order, each under the name of the component type
/// it projects.
pub struct UiProjectorRegistry {
    pub entries: Vec<(String, ProjectorHandle)>,
}

/// Whether `name` is one of `names`.
pub open spec fn name_in(names: Seq<String>, name: Seq<char>) -> bool {
    exists|i: int| 0 <= i < names.len() && (#[trigger] names[i])@ == name
}

/// The projector used for an entity with the components `components`: the latest
/// registration whose component the entity has.
pub open spec fn selected_projector(entries: Seq<(String, ProjectorHandle)>, components: Seq<String>) -> Option<
    ProjectorHandle,
>
    decreases entries.len(),
{
    if entries.len() == 0 {
        None
    } else if name_in(components, entries.last().0@) {
        Some(entries.last().1)
    } else {
        selected_projector(entries.drop_last(), components)
    }
}

/// The registry as a list of (component name, projector) pairs.
pub open spec fn registry_view(entries: Seq<(String, ProjectorHandle)>) -> Seq<(Seq<char>, ProjectorHandle)> {
    entries.map_values(|e: (String, ProjectorHandle)| (e.0@, e.1))
}

fn contains_name(names: &Vec<String>, name: &String) -> (found: bool)
    ensures
        found == name_in(names@, name@),
{
    let mut i: usize = 0;
    while i < names.len()
        invariant
            i <= names.len(),
            forall|k: int| 0 <= k < i ==> (#[trigger] names@[k])@ != name@,
        decreases names.len() - i,
    {
        if names[i].eq(name) {
            return true;
        }
        i = i + 1;
    }
    false
}

impl UiProjectorRegistry {
    /// An empty registry.
    pub fn new() -> (registry: Self)
        ensures
            registry.entries@.len() == 0,
    {
        Self { entries: Vec::new() }
    }

    /// Register `projector` for the component named `component`; it takes precedence over
    /// every earlier registration.
    pub fn register_component(&mut self, component: &str, projector: ProjectorHandle)
        ensures
            registry_view(final(self).entries@) == registry_view(old(self).entries@).push((component@, projector)),
    {
        self.entries.push((owned(component), projector));
        proof {
            assert(registry_view(self.entries@) =~= registry_view(old(self).entries@).push((component@, projector)));
        }
    }

    /// The projector for an entity carrying the components named in `components`: the one
    /// registered last among those whose component the entity has.
    pub fn select_projector(&self, components: &Vec<String>) -> (projector: Option<ProjectorHandle>)
        ensures
            projector == selected_projector(self.entries@, components@),
    {
        let mut i: usize = self.entries.len();
        assert(self.entries@.take(i as int) =~= self.entries@);
        while i > 0
            invariant
                i <= self.entries@.len(),
                selected_projector(self.entries@, components@) == selected_projector(
                    self.entries@.take(i as int),
                    components@,
                ),
            decreases i,
        {
            let ghost prefix = self.entries@.take(i as int);
            assert(prefix.drop_last() =~= self.entries@.take(i as int - 1));
            if contains_name(components, &self.entries[i - 1].0) {
                return Some(self.entries[i - 1].1);
            }
            i = i - 1;
        }
        None
    }
}

/// The most recent registration for a component the entity has is the one used, whatever
/// was registered before it.
pub proof fn lemma_latest_registration_wins(
    entries: Seq<(String, ProjectorHandle)>,
    component: String,
    projector: ProjectorHandle,
    components: Seq<String>,
)
    requires
        name_in(components, component@),
    ensures
        selected_projector(entries.push((component, projector)), components) == Some(projector),
{
    assert(entries.push((component, projector)).last() == (component, projector));
}

/// Registrations for components an entity does not have never change what it is projected
/// with.
pub proof fn lemma_unrelated_registration_ignored(
    entries: Seq<(String, ProjectorHandle)>,
    component: String,
    projector: ProjectorHandle,
    components: Seq<String>,
)
    requires
        !name_in(components, component@),
    ensures
        selected_projector(entries.push((component, projector)), components) == selected_projector(
            entries,
            components,
        ),
{
    assert(entries.push((component, projector)).drop_last() =~= entries);
}

/// The built-in registrations, in the order they are made.
pub open spec fn builtin_registrations() -> Seq<(Seq<char>, ProjectorHandle)> {
    seq![
        ("UiFlexColumn"@, ProjectorHandle::Builtin(BuiltinProjector::FlexColumn)),
        ("UiFlexRow"@, ProjectorHandle::Builtin(BuiltinProjector::FlexRow)),
        ("UiLabel"@, ProjectorHandle::Builtin(BuiltinProjector::Label)),
        ("UiButton"@, ProjectorHandle::Builtin(BuiltinProjector::Button)),
        ("UiOverlayRoot"@, ProjectorHandle::Builtin(BuiltinProjector::OverlayRoot)),
        ("UiDialog"@, ProjectorHandle::Builtin(BuiltinProjector::Dialog)),
        ("UiComboBox"@, ProjectorHandle::Builtin(BuiltinProjector::ComboBox)),
        ("UiDropdownMenu"@, ProjectorHandle::Builtin(BuiltinProjector::DropdownMenu)),
    ]
}

/// Register the projectors of the built-in components: layout containers, labels, buttons,
/// the overlay root, dialogs, combo boxes and their dropdown menus.
pub fn register_builtin_projectors(registry: &mut UiProjectorRegistry)
    ensures
        registry_view(final(registry).entries@) == registry_view(old(registry).entries@) + builtin_registrations(),
{
    let ghost start = registry_view(registry.entries@);
    registry.register_component("UiFlexColumn", ProjectorHandle::Builtin(BuiltinProjector::FlexColumn));
    registry.register_component("UiFlexRow", ProjectorHandle::Builtin(BuiltinProjector::FlexRow));
    registry.register_component("UiLabel", ProjectorHandle::Builtin(BuiltinProjector::Label));
    registry.register_component("UiButton", ProjectorHandle::Builtin(BuiltinProjector::Button));
    registry.register_component("UiOverlayRoot", ProjectorHandle::Builtin(BuiltinProjector::OverlayRoot));
    registry.register_component("UiDialog", ProjectorHandle::Builtin(BuiltinProjector::Dialog));
    registry.register_component("UiComboBox", ProjectorHandle::Builtin(BuiltinProjector::ComboBox));
    registry.register_component("UiDropdownMenu", ProjectorHandle::Builtin(BuiltinProjector::DropdownMenu));
    proof {
        assert(registry_view(registry.entries@) =~= start + builtin_registrations());
    }
}

} // verus!
