//! Template parts of built-in controls: which child part to reuse and the texts the parts show.
use vstd::prelude::*;

use crate::ecs::{owned, clamped_index, UiCheckbox, UiComboBox, UiDialog, UiSwitch, UiTextInput};

verus! {

/// The first child carrying the part marker, given whether each child (in order) carries it.
pub open spec fn first_marked(marked: Seq<bool>) -> Option<int>
    decreases marked.len(),
{
    if marked.len() == 0 {
        None
    } else {
        match first_marked(marked.drop_last()) {
            Some(i) => Some(i),
            None => if marked.last() {
                Some(marked.len() - 1)
            } else {
                None
            },
        }
    }
}

/// Find the first child template part: the position of the first child carrying the marker.
pub fn find_template_part(children_marked: &Vec<bool>) -> (index: Option<usize>)
    ensures
        match index {
            Some(i) => first_marked(children_marked@) == Some(i as int),
            None => first_marked(children_marked@) is None,
        },
{
    let mut i: usize = 0;
    while i < children_marked.len()
        invariant
            i <= children_marked.len(),
            first_marked(children_marked@.subrange(0, i as int)) is None,
        decreases children_marked.len() - i,
    {
        let ghost prefix = children_marked@.subrange(0, i + 1);
        proof {
            assert(prefix.drop_last() =~= children_marked@.subrange(0, i as int));
        }
        if children_marked[i] {
            proof {
                lemma_first_marked_prefix(children_marked@, i as int + 1);
            }
            return Some(i);
        }
        i = i + 1;
    }
    proof {
        assert(children_marked@.subrange(0, children_marked.len() as int) =~= children_marked@);
    }
    None
}

/// A marked child found in a prefix is also the first one of the whole list.
proof fn lemma_first_marked_prefix(marked: Seq<bool>, n: int)
    requires
        0 <= n <= marked.len(),
        first_marked(marked.subrange(0, n)) is Some,
    ensures
        first_marked(marked) == first_marked(marked.subrange(0, n)),
    decreases marked.len() - n,
{
    if n < marked.len() {
        assert(marked.subrange(0, n + 1).drop_last() =~= marked.subrange(0, n));
        lemma_first_marked_prefix(marked, n + 1);
    } else {
        assert(marked.subrange(0, n) =~= marked);
    }
}

/// The indicator glyph of a checkbox.
pub fn checkbox_indicator_text(checked: bool) -> (text: String)
    ensures
        text@ == if checked {
            "☑"@
        } else {
            "☐"@
        },
{
    if checked {
        owned("☑")
    } else {
        owned("☐")
    }
}

/// The texts of a checkbox's template parts: indicator glyph and label.
pub fn checkbox_template_texts(checkbox: &UiCheckbox) -> (texts: (String, String))
    ensures
        texts.0@ == if checkbox.checked {
            "☑"@
        } else {
            "☐"@
        },
        texts.1@ == checkbox.label@,
{
    (checkbox_indicator_text(checkbox.checked), checkbox.label.clone())
}

/// The track text of a switch: its state, followed by its label when it has a non-empty one.
pub open spec fn switch_text_spec(on: bool, label: Option<String>) -> Seq<char> {
    let state = if on {
        "On"@
    } else {
        "Off"@
    };
    match label {
        Some(label) if label@.len() > 0 => state + " · "@ + label@,
        _ => state,
    }
}

/// The track text of a switch.
pub fn switch_track_text(switch: &UiSwitch) -> (text: String)
    ensures
        text@ == switch_text_spec(switch.on, switch.label),
{
    let state = if switch.on {
        "On"
    } else {
        "Off"
    };
    let mut text = owned(state);
    match &switch.label {
        Some(label) => {
            if label.as_str().is_empty() {
                text
            } else {
                text.append(" · ");
                text.append(label.as_str());
                text
            }
        },
        None => text,
    }
}

/// The placeholder a text input's field part shows.
pub fn text_input_field_text(input: &UiTextInput) -> (text: String)
    ensures
        text@ == input.placeholder@,
{
    input.placeholder.clone()
}

/// The title, body and dismiss texts of a dialog's template parts.
pub fn dialog_template_texts(dialog: &UiDialog) -> (texts: (String, String, String))
    ensures
        texts.0@ == dialog.title@,
        texts.1@ == dialog.body@,
        texts.2@ == dialog.dismiss_label@,
{
    (dialog.title.clone(), dialog.body.clone(), dialog.dismiss_label.clone())
}

/// What a combo box displays: the label of its (clamped) selected option, or its
/// placeholder when it has no options.
pub open spec fn combo_display_spec(combo: UiComboBox) -> Seq<char> {
    match clamped_index(combo.options@.len(), combo.selected as nat) {
        Some(i) => combo.options@[i as int].label@,
        None => combo.placeholder@,
    }
}

/// The display text and chevron glyph of a combo box.
pub fn combo_template_texts(combo: &UiComboBox) -> (texts: (String, String))
    ensures
        texts.0@ == combo_display_spec(*combo),
        texts.1@ == if combo.is_open {
            "▴"@
        } else {
            "▾"@
        },
{
    let display = match combo.clamped_selected() {
        Some(index) => combo.options[index].label.clone(),
        None => combo.placeholder.clone(),
    };
    let chevron = if combo.is_open {
        owned("▴")
    } else {
        owned("▾")
    };
    (display, chevron)
}

/// The child parts that built-in controls are expanded into.
#[derive(Debug, Clone, Copy, PartialEq, Eq, Structural)]
pub enum TemplatePart {
    CheckboxIndicator,
    CheckboxLabel,
    SliderDecrease,
    SliderTrack,
    SliderThumb,
    SliderIncrease,
    SwitchTrack,
    SwitchThumb,
    TextInputField,
    DialogTitle,
    DialogBody,
    DialogDismiss,
    ComboBoxDisplay,
    ComboBoxChevron,
}

/// The style class a template part is spawned with.
pub open spec fn template_part_class_spec(part: TemplatePart) -> Seq<char> {
    match part {
        TemplatePart::CheckboxIndicator => "template.checkbox.indicator"@,
        TemplatePart::CheckboxLabel => "template.checkbox.label"@,
        TemplatePart::SliderDecrease => "template.slider.decrease"@,
        TemplatePart::SliderTrack => "template.slider.track"@,
        TemplatePart::SliderThumb => "template.slider.thumb"@,
        TemplatePart::SliderIncrease => "template.slider.increase"@,
        TemplatePart::SwitchTrack => "template.switch.track"@,
        TemplatePart::SwitchThumb => "template.switch.thumb"@,
        TemplatePart::TextInputField => "template.text_input.field"@,
        TemplatePart::DialogTitle => "overlay.dialog.title"@,
        TemplatePart::DialogBody => "overlay.dialog.body"@,
        TemplatePart::DialogDismiss => "overlay.dialog.dismiss"@,
        TemplatePart::ComboBoxDisplay => "template.combo_box.display"@,
        TemplatePart::ComboBoxChevron => "template.combo_box.chevron"@,
    }
}

/// The style class of a template part.
pub fn template_part_class(part: TemplatePart) -> (class: String)
    ensures
        class@ == template_part_class_spec(part),
{
    match part {
        TemplatePart::CheckboxIndicator => owned("template.checkbox.indicator"),
        TemplatePart::CheckboxLabel => owned("template.checkbox.label"),
        TemplatePart::SliderDecrease => owned("template.slider.decrease"),
        TemplatePart::SliderTrack => owned("template.slider.track"),
        TemplatePart::SliderThumb => owned("template.slider.thumb"),
        TemplatePart::SliderIncrease => owned("template.slider.increase"),
        TemplatePart::SwitchTrack => owned("template.switch.track"),
        TemplatePart::SwitchThumb => owned("template.switch.thumb"),
        TemplatePart::TextInputField => owned("template.text_input.field"),
        TemplatePart::DialogTitle => owned("overlay.dialog.title"),
        TemplatePart::DialogBody => owned("overlay.dialog.body"),
        TemplatePart::DialogDismiss => owned("overlay.dialog.dismiss"),
        TemplatePart::ComboBoxDisplay => owned("template.combo_box.display"),
        TemplatePart::ComboBoxChevron => owned("template.combo_box.chevron"),
    }
}

/// The fixed glyph a part shows: the slider's step buttons and the thumbs; the other parts
/// show state-dependent text.
pub open spec fn template_part_glyph_spec(part: TemplatePart) -> Option<Seq<char>> {
    match part {
        TemplatePart::SliderDecrease => Some("−"@),
        TemplatePart::SliderThumb => Some("●"@),
        TemplatePart::SliderIncrease => Some("+"@),
        TemplatePart::SwitchThumb => Some("●"@),
        _ => None,
    }
}

/// The fixed glyph of a part, if it has one.
pub fn template_part_glyph(part: TemplatePart) -> (glyph: Option<String>)
    ensures
        match glyph {
            Some(g) => template_part_glyph_spec(part) == Some(g@),
            None => template_part_glyph_spec(part) is None,
        },
{
    match part {
        TemplatePart::SliderDecrease => Some(owned("−")),
        TemplatePart::SliderThumb => Some(owned("●")),
        TemplatePart::SliderIncrease => Some(owned("+")),
        TemplatePart::SwitchThumb => Some(owned("●")),
        _ => None,
    }
}

/// A built-in control to expand into template parts, with what its parts show. The slider's
/// track shows its value, formatted by the caller.
#[derive(Debug, Clone, PartialEq, Eq)]
pub enum TemplateControl {
    Checkbox(UiCheckbox),
    Slider { track_text: String },
    Switch(UiSwitch),
    TextInput(UiTextInput),
    Dialog(UiDialog),
    ComboBox(UiComboBox),
}

/// The parts a control is expanded into, in order, each with the text it shows.
pub open spec fn template_parts_spec(control: TemplateControl) -> Seq<(TemplatePart, Seq<char>)> {
    match control {
        TemplateControl::Checkbox(c) => seq![
            (TemplatePart::CheckboxIndicator, if c.checked { "☑"@ } else { "☐"@ }),
            (TemplatePart::CheckboxLabel, c.label@),
        ],
        TemplateControl::Slider { track_text } => seq![
            (TemplatePart::SliderDecrease, "−"@),
            (TemplatePart::SliderTrack, track_text@),
            (TemplatePart::SliderThumb, "●"@),
            (TemplatePart::SliderIncrease, "+"@),
        ],
        TemplateControl::Switch(s) => seq![
            (TemplatePart::SwitchTrack, switch_text_spec(s.on, s.label)),
            (TemplatePart::SwitchThumb, "●"@),
        ],
        TemplateControl::TextInput(t) => seq![(TemplatePart::TextInputField, t.placeholder@)],
        TemplateControl::Dialog(d) => seq![
            (TemplatePart::DialogTitle, d.title@),
            (TemplatePart::DialogBody, d.body@),
            (TemplatePart::DialogDismiss, d.dismiss_label@),
        ],
        TemplateControl::ComboBox(c) => seq![
            (TemplatePart::ComboBoxDisplay, combo_display_spec(c)),
            (TemplatePart::ComboBoxChevron, if c.is_open { "▴"@ } else { "▾"@ }),
        ],
    }
}

/// The views of a list of (part, text) pairs.
pub open spec fn part_views(parts: Seq<(TemplatePart, String)>) -> Seq<(TemplatePart, Seq<char>)> {
    parts.map_values(|p: (TemplatePart, String)| (p.0, p.1@))
}

/// Plan the template parts of a control and the text each one shows.
pub fn plan_template_parts(control: &TemplateControl) -> (parts: Vec<(TemplatePart, String)>)
    ensures
        part_views(parts@) == template_parts_spec(*control),
{
    let mut parts: Vec<(TemplatePart, String)> = Vec::new();
    match control {
        TemplateControl::Checkbox(c) => {
            let (indicator, label) = checkbox_template_texts(c);
            parts.push((TemplatePart::CheckboxIndicator, indicator));
            parts.push((TemplatePart::CheckboxLabel, label));
        },
        TemplateControl::Slider { track_text } => {
            parts.push((TemplatePart::SliderDecrease, owned("−")));
            parts.push((TemplatePart::SliderTrack, track_text.clone()));
            parts.push((TemplatePart::SliderThumb, owned("●")));
            parts.push((TemplatePart::SliderIncrease, owned("+")));
        },
        TemplateControl::Switch(s) => {
            parts.push((TemplatePart::SwitchTrack, switch_track_text(s)));
            parts.push((TemplatePart::SwitchThumb, owned("●")));
        },
        TemplateControl::TextInput(t) => {
            parts.push((TemplatePart::TextInputField, text_input_field_text(t)));
        },
        TemplateControl::Dialog(d) => {
            let (title, body, dismiss) = dialog_template_texts(d);
            parts.push((TemplatePart::DialogTitle, title));
            parts.push((TemplatePart::DialogBody, body));
            parts.push((TemplatePart::DialogDismiss, dismiss));
        },
        TemplateControl::ComboBox(c) => {
            let (display, chevron) = combo_template_texts(c);
            parts.push((TemplatePart::ComboBoxDisplay, display));
            parts.push((TemplatePart::ComboBoxChevron, chevron));
        },
    }
    proof {
        assert(part_views(parts@) =~= template_parts_spec(*control));
    }
    parts
}

/// What expansion does for one part of a control.
#[derive(Debug, Clone, PartialEq, Eq)]
pub enum PartAction {
    /// Reuse the child at this position: it already is the part.
    Reuse(usize),
    /// Spawn the part as a new child with this style class and initial text.
    Spawn { class: String, text: String },
}

/// The initial text of a spawned part: its fixed glyph, or nothing.
pub open spec fn part_initial_text(part: TemplatePart) -> Seq<char> {
    match template_part_glyph_spec(part) {
        Some(g) => g,
        None => Seq::empty(),
    }
}

/// Decide whether the `part` of a control exists among its children (given, in order,
/// whether each child is that part) or must be spawned.
pub fn plan_part(children_marked: &Vec<bool>, part: TemplatePart) -> (action: PartAction)
    ensures
        match first_marked(children_marked@) {
            Some(i) => action == PartAction::Reuse(i as usize),
            None => action matches PartAction::Spawn { class, text } && class@ == template_part_class_spec(part)
                && text@ == part_initial_text(part),
        },
{
    match find_template_part(children_marked) {
        Some(i) => PartAction::Reuse(i),
        None => {
            let text = match template_part_glyph(part) {
                Some(g) => g,
                None => String::new(),
            };
            PartAction::Spawn { class: template_part_class(part), text }
        },
    }
}

/// Expansion is stable: once a part has been spawned as a new last child, the next
/// expansion reuses it, and a part that is found keeps being found whatever children are
/// added after it.
pub proof fn lemma_expansion_reuses_parts(marked: Seq<bool>, added: bool)
    ensures
        first_marked(marked) is None ==> first_marked(marked.push(true)) == Some(marked.len() as int),
        first_marked(marked) matches Some(i) ==> first_marked(marked.push(added)) == Some(i),
{
    assert(marked.push(true).drop_last() =~= marked);
    assert(marked.push(added).drop_last() =~= marked);
}

} // verus!
