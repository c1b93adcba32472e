//! CSS-like style data, selectors and the stylesheet table.
use vstd::prelude::*;

use crate::ecs::{clone_strings, owned, EntityId};

verus! {

/// The IEEE-754 bit pattern of an `f64` style length (padding, gap, radius, width).
///
/// The cascade only moves lengths around, so they are carried losslessly as bits;
/// `F64Bits(0)` is the length `0.0`.
#[derive(Debug, Clone, Copy, PartialEq, Eq, Hash, Structural)]
pub struct F64Bits(pub u64);

/// The IEEE-754 bit pattern of an `f32` style value (text size, transition seconds).
#[derive(Debug, Clone, Copy, PartialEq, Eq, Hash, Structural)]
pub struct F32Bits(pub u32);

/// A drop shadow drawn behind a surface: colour, offset and blur radius.
#[derive(Debug, Clone, Copy, PartialEq, Eq, Hash, Structural)]
pub struct BoxShadow {
    pub color: Rgba8,
    pub offset_x: F64Bits,
    pub offset_y: F64Bits,
    pub blur_radius: F64Bits,
}

/// An sRGB color with 8-bit channels.
#[derive(Debug, Clone, Copy, PartialEq, Eq, Hash, Structural)]
pub struct Rgba8 {
    pub r: u8,
    pub g: u8,
    pub b: u8,
    pub a: u8,
}

impl Rgba8 {
    /// An opaque color.
    pub fn rgb(r: u8, g: u8, b: u8) -> (color: Self)
        ensures
            color == (Rgba8 { r, g, b, a: 255 }),
    {
        Rgba8 { r, g, b, a: 255 }
    }

    /// The same color with a fully transparent alpha channel.
    pub fn transparentized(self) -> (color: Self)
        ensures
            color == (Rgba8 { a: 0, ..self }),
    {
        Rgba8 { a: 0, ..self }
    }
}

/// Marker component for CSS-like class names attached to an entity.
#[derive(Debug, Clone, Default, PartialEq, Eq)]
pub struct StyleClass(pub Vec<String>);

/// Marker component for entities whose style cache needs recomputation.
#[derive(Debug, Clone, Copy, Default, PartialEq, Eq)]
pub struct StyleDirty;

/// Inline layout style that can be attached to entities.
#[derive(Debug, Clone, Copy, PartialEq, Eq)]
pub struct LayoutStyle {
    pub padding: Option<F64Bits>,
    pub gap: Option<F64Bits>,
    pub corner_radius: Option<F64Bits>,
    pub border_width: Option<F64Bits>,
}

/// Inline color style that can be attached to entities.
#[derive(Debug, Clone, Copy, PartialEq, Eq)]
pub struct ColorStyle {
    pub bg: Option<Rgba8>,
    pub text: Option<Rgba8>,
    pub border: Option<Rgba8>,
    pub hover_bg: Option<Rgba8>,
    pub hover_text: Option<Rgba8>,
    pub hover_border: Option<Rgba8>,
    pub pressed_bg: Option<Rgba8>,
    pub pressed_text: Option<Rgba8>,
    pub pressed_border: Option<Rgba8>,
}

/// Inline text style that can be attached to entities.
#[derive(Debug, Clone, Copy, PartialEq, Eq)]
pub struct TextStyle {
    pub size: Option<F32Bits>,
}

/// Marker for hover pseudo-class state.
#[derive(Debug, Clone, Copy, Default, PartialEq, Eq)]
pub struct Hovered;

/// Marker for pressed pseudo-class state.
#[derive(Debug, Clone, Copy, Default, PartialEq, Eq)]
pub struct Pressed;

/// Transition settings for style animation.
#[derive(Debug, Clone, Copy, PartialEq, Eq)]
pub struct StyleTransition {
    /// Duration in seconds.
    pub duration: F32Bits,
}

/// Layout lengths after cascading; absent lengths resolve to `0.0`.
#[derive(Debug, Clone, Copy, PartialEq, Eq)]
pub struct ResolvedLayoutStyle {
    pub padding: F64Bits,
    pub gap: F64Bits,
    pub corner_radius: F64Bits,
    pub border_width: F64Bits,
}

/// Colors after cascading and pseudo-state selection.
#[derive(Debug, Clone, Copy, PartialEq, Eq)]
pub struct ResolvedColorStyle {
    pub bg: Option<Rgba8>,
    pub text: Option<Rgba8>,
    pub border: Option<Rgba8>,
}

/// Text settings after cascading; `None` stands for the theme's normal text size.
#[derive(Debug, Clone, Copy, PartialEq, Eq)]
pub struct ResolvedTextStyle {
    pub size: Option<F32Bits>,
}

/// Cached resolved style used by projectors.
#[derive(Debug, Clone, PartialEq)]
pub struct ComputedStyle {
    pub layout: ResolvedLayoutStyle,
    pub colors: ResolvedColorStyle,
    pub text: ResolvedTextStyle,
    pub font_family: Option<Vec<String>>,
    pub box_shadow: Option<BoxShadow>,
    pub transition: Option<StyleTransition>,
}

/// Interpolated color state currently rendered by projectors.
#[derive(Debug, Clone, Copy, PartialEq, Eq, Structural)]
pub struct CurrentColorStyle {
    pub bg: Option<Rgba8>,
    pub text: Option<Rgba8>,
    pub border: Option<Rgba8>,
}

/// Target color state derived from classes + inline style + pseudo state.
#[derive(Debug, Clone, Copy, PartialEq, Eq, Structural)]
pub struct TargetColorStyle {
    pub bg: Option<Rgba8>,
    pub text: Option<Rgba8>,
    pub border: Option<Rgba8>,
}

/// Pseudo classes supported by selectors.
#[derive(Debug, Clone, Copy, PartialEq, Eq, Hash, Structural)]
pub enum PseudoClass {
    Hovered,
    Pressed,
}

/// CSS-like selector AST for style rules.
///
/// `Type` names a component type by its type name (for example `"UiButton"`).
#[derive(Debug, PartialEq, Eq, Hash)]
pub enum Selector {
    Type(String),
    Class(String),
    PseudoClass(PseudoClass),
    And(Vec<Selector>),
    Descendant { ancestor: Box<Selector>, descendant: Box<Selector> },
}

/// Whether a selector mentions a component type anywhere.
pub open spec fn selector_has_type(selector: Selector) -> bool
    decreases selector,
{
    match selector {
        Selector::Type(_) => true,
        Selector::Class(_) => false,
        Selector::PseudoClass(_) => false,
        Selector::And(selectors) => exists|j: int|
            0 <= j < selectors.len() && selector_has_type(#[trigger] selectors[j]),
        Selector::Descendant { ancestor, descendant } => selector_has_type(*ancestor)
            || selector_has_type(*descendant),
    }
}

/// Whether a selector uses a descendant combinator outside of other descendant parts.
pub open spec fn selector_has_descendant(selector: Selector) -> bool
    decreases selector,
{
    match selector {
        Selector::Descendant { .. } => true,
        Selector::And(selectors) => exists|j: int|
            0 <= j < selectors.len() && selector_has_descendant(#[trigger] selectors[j]),
        _ => false,
    }
}

impl Selector {
    #[must_use]
    pub fn of_type(component_name: &str) -> (selector: Self)
        ensures
            selector matches Selector::Type(name) && name@ == component_name@,
    {
        Selector::Type(owned(component_name))
    }

    #[must_use]
    pub fn class(name: &str) -> (selector: Self)
        ensures
            selector matches Selector::Class(n) && n@ == name@,
    {
        Selector::Class(owned(name))
    }

    #[must_use]
    pub fn pseudo(pseudo: PseudoClass) -> (selector: Self)
        ensures
            selector == Selector::PseudoClass(pseudo),
    {
        Selector::PseudoClass(pseudo)
    }

    #[must_use]
    pub fn and(selectors: Vec<Selector>) -> (selector: Self)
        ensures
            selector == Selector::And(selectors),
    {
        Selector::And(selectors)
    }

    #[must_use]
    pub fn descendant(ancestor: Selector, descendant: Selector) -> (selector: Self)
        ensures
            selector == (Selector::Descendant {
                ancestor: Box::new(ancestor),
                descendant: Box::new(descendant),
            }),
    {
        Selector::Descendant { ancestor: Box::new(ancestor), descendant: Box::new(descendant) }
    }

    /// Whether the selector mentions a component type anywhere.
    #[must_use]
    pub fn contains_type(&self) -> (res: bool)
        ensures
            res == selector_has_type(*self),
        decreases self,
    {
        match self {
            Selector::Type(_) => true,
            Selector::Class(_) => false,
            Selector::PseudoClass(_) => false,
            Selector::And(selectors) => {
                let mut j: usize = 0;
                while j < selectors.len()
                    invariant
                        j <= selectors.len(),
                        *self == Selector::And(*selectors),
                        forall|k: int| 0 <= k < j ==> !selector_has_type(#[trigger] selectors[k]),
                    decreases selectors.len() - j,
                {
                    proof {
                        let ghost whole = *self;
                        assert(decreases_to!(whole => whole->And_0));
                        assert(decreases_to!(whole->And_0 => whole->And_0[j as int]));
                    }
                    if selectors[j].contains_type() {
                        return true;
                    }
                    j = j + 1;
                }
                false
            },
            Selector::Descendant { ancestor, descendant } => {
                ancestor.contains_type() || descendant.contains_type()
            },
        }
    }

    /// Whether the selector uses a descendant combinator.
    #[must_use]
    pub fn contains_descendant(&self) -> (res: bool)
        ensures
            res == selector_has_descendant(*self),
        decreases self,
    {
        match self {
            Selector::Descendant { .. } => true,
            Selector::And(selectors) => {
                let mut j: usize = 0;
                while j < selectors.len()
                    invariant
                        j <= selectors.len(),
                        *self == Selector::And(*selectors),
                        forall|k: int|
                            0 <= k < j ==> !selector_has_descendant(#[trigger] selectors[k]),
                    decreases selectors.len() - j,
                {
                    proof {
                        let ghost whole = *self;
                        assert(decreases_to!(whole => whole->And_0));
                        assert(decreases_to!(whole->And_0 => whole->And_0[j as int]));
                    }
                    if selectors[j].contains_descendant() {
                        return true;
                    }
                    j = j + 1;
                }
                false
            },
            _ => false,
        }
    }
}


/// The spec-level value of a font stack: the family names in order.
pub open spec fn font_view(font_family: Option<Vec<String>>) -> Option<Seq<String>> {
    match font_family {
        Some(families) => Some(families@),
        None => None,
    }
}

/// Copies an optional font stack.
pub fn clone_font_family(font_family: &Option<Vec<String>>) -> (res: Option<Vec<String>>)
    ensures
        font_view(res) == font_view(*font_family),
{
    match font_family {
        Some(families) => Some(clone_strings(families)),
        None => None,
    }
}

/// `src` where it is set, else `dst`: one step of the cascade for a single property.
pub open spec fn override_opt<T>(dst: Option<T>, src: Option<T>) -> Option<T> {
    if src is Some {
        src
    } else {
        dst
    }
}

pub open spec fn merge_layout_spec(dst: LayoutStyle, src: LayoutStyle) -> LayoutStyle {
    LayoutStyle {
        padding: override_opt(dst.padding, src.padding),
        gap: override_opt(dst.gap, src.gap),
        corner_radius: override_opt(dst.corner_radius, src.corner_radius),
        border_width: override_opt(dst.border_width, src.border_width),
    }
}

pub open spec fn merge_colors_spec(dst: ColorStyle, src: ColorStyle) -> ColorStyle {
    ColorStyle {
        bg: override_opt(dst.bg, src.bg),
        text: override_opt(dst.text, src.text),
        border: override_opt(dst.border, src.border),
        hover_bg: override_opt(dst.hover_bg, src.hover_bg),
        hover_text: override_opt(dst.hover_text, src.hover_text),
        hover_border: override_opt(dst.hover_border, src.hover_border),
        pressed_bg: override_opt(dst.pressed_bg, src.pressed_bg),
        pressed_text: override_opt(dst.pressed_text, src.pressed_text),
        pressed_border: override_opt(dst.pressed_border, src.pressed_border),
    }
}

pub open spec fn merge_text_spec(dst: TextStyle, src: TextStyle) -> TextStyle {
    TextStyle { size: override_opt(dst.size, src.size) }
}

pub open spec fn empty_layout() -> LayoutStyle {
    LayoutStyle { padding: None, gap: None, corner_radius: None, border_width: None }
}

pub open spec fn empty_colors() -> ColorStyle {
    ColorStyle {
        bg: None,
        text: None,
        border: None,
        hover_bg: None,
        hover_text: None,
        hover_border: None,
        pressed_bg: None,
        pressed_text: None,
        pressed_border: None,
    }
}

impl Default for LayoutStyle {
    fn default() -> (layout: Self)
        ensures
            layout == empty_layout(),
    {
        LayoutStyle { padding: None, gap: None, corner_radius: None, border_width: None }
    }
}

impl Default for ColorStyle {
    fn default() -> (colors: Self)
        ensures
            colors == empty_colors(),
    {
        ColorStyle {
            bg: None,
            text: None,
            border: None,
            hover_bg: None,
            hover_text: None,
            hover_border: None,
            pressed_bg: None,
            pressed_text: None,
            pressed_border: None,
        }
    }
}

impl Default for TextStyle {
    fn default() -> (text: Self)
        ensures
            text.size is None,
    {
        TextStyle { size: None }
    }
}

/// The spec-level value of a [`StyleSetter`]: its properties, with the font stack as names.
pub struct StyleValues {
    pub layout: LayoutStyle,
    pub colors: ColorStyle,
    pub text: TextStyle,
    pub font_family: Option<Seq<String>>,
    pub box_shadow: Option<BoxShadow>,
    pub transition: Option<StyleTransition>,
}

/// The values of a setter that sets nothing.
pub open spec fn empty_values() -> StyleValues {
    StyleValues {
        layout: empty_layout(),
        colors: empty_colors(),
        text: TextStyle { size: None },
        font_family: None,
        box_shadow: None,
        transition: None,
    }
}

/// Applies `src` on top of `dst`: every property that `src` sets wins.
pub open spec fn merge_values(dst: StyleValues, src: StyleValues) -> StyleValues {
    StyleValues {
        layout: merge_layout_spec(dst.layout, src.layout),
        colors: merge_colors_spec(dst.colors, src.colors),
        text: merge_text_spec(dst.text, src.text),
        font_family: override_opt(dst.font_family, src.font_family),
        box_shadow: override_opt(dst.box_shadow, src.box_shadow),
        transition: override_opt(dst.transition, src.transition),
    }
}

/// Style payload set by a matching rule.
#[derive(Debug, Clone, PartialEq)]
pub struct StyleSetter {
    pub layout: LayoutStyle,
    pub colors: ColorStyle,
    pub text: TextStyle,
    pub font_family: Option<Vec<String>>,
    pub box_shadow: Option<BoxShadow>,
    pub transition: Option<StyleTransition>,
}

impl View for StyleSetter {
    type V = StyleValues;

    open spec fn view(&self) -> StyleValues {
        StyleValues {
            layout: self.layout,
            colors: self.colors,
            text: self.text,
            font_family: font_view(self.font_family),
            box_shadow: self.box_shadow,
            transition: self.transition,
        }
    }
}

impl Default for StyleSetter {
    fn default() -> (setter: Self)
        ensures
            setter@ == empty_values(),
    {
        StyleSetter {
            layout: LayoutStyle::default(),
            colors: ColorStyle::default(),
            text: TextStyle::default(),
            font_family: None,
            box_shadow: None,
            transition: None,
        }
    }
}

fn merge_layout(dst: &mut LayoutStyle, src: &LayoutStyle)
    ensures
        *final(dst) == merge_layout_spec(*old(dst), *src),
{
    if src.padding.is_some() {
        dst.padding = src.padding;
    }
    if src.gap.is_some() {
        dst.gap = src.gap;
    }
    if src.corner_radius.is_some() {
        dst.corner_radius = src.corner_radius;
    }
    if src.border_width.is_some() {
        dst.border_width = src.border_width;
    }
}

fn merge_colors(dst: &mut ColorStyle, src: &ColorStyle)
    ensures
        *final(dst) == merge_colors_spec(*old(dst), *src),
{
    if src.bg.is_some() {
        dst.bg = src.bg;
    }
    if src.text.is_some() {
        dst.text = src.text;
    }
    if src.border.is_some() {
        dst.border = src.border;
    }
    if src.hover_bg.is_some() {
        dst.hover_bg = src.hover_bg;
    }
    if src.hover_text.is_some() {
        dst.hover_text = src.hover_text;
    }
    if src.hover_border.is_some() {
        dst.hover_border = src.hover_border;
    }
    if src.pressed_bg.is_some() {
        dst.pressed_bg = src.pressed_bg;
    }
    if src.pressed_text.is_some() {
        dst.pressed_text = src.pressed_text;
    }
    if src.pressed_border.is_some() {
        dst.pressed_border = src.pressed_border;
    }
}

fn merge_text(dst: &mut TextStyle, src: &TextStyle)
    ensures
        *final(dst) == merge_text_spec(*old(dst), *src),
{
    if src.size.is_some() {
        dst.size = src.size;
    }
}

fn merge_setter(dst: &mut StyleSetter, setter: &StyleSetter)
    ensures
        final(dst)@ == merge_values(old(dst)@, setter@),
{
    merge_layout(&mut dst.layout, &setter.layout);
    merge_colors(&mut dst.colors, &setter.colors);
    merge_text(&mut dst.text, &setter.text);
    if setter.font_family.is_some() {
        dst.font_family = clone_font_family(&setter.font_family);
    }
    if setter.box_shadow.is_some() {
        dst.box_shadow = setter.box_shadow;
    }
    if setter.transition.is_some() {
        dst.transition = setter.transition;
    }
}

/// Selector + style payload.
#[derive(Debug, PartialEq)]
pub struct StyleRule {
    pub selector: Selector,
    pub setter: StyleSetter,
}

impl StyleRule {
    #[must_use]
    pub fn new(selector: Selector, setter: StyleSetter) -> (rule: Self)
        ensures
            rule.selector == selector,
            rule.setter == setter,
    {
        Self { selector, setter }
    }

    #[must_use]
    pub fn class(class_name: &str, setter: StyleSetter) -> (rule: Self)
        ensures
            rule.selector matches Selector::Class(n) && n@ == class_name@,
            rule.setter == setter,
    {
        Self::new(Selector::class(class_name), setter)
    }
}

/// Whether `rule` is the plain class rule for `name`.
pub open spec fn is_class_rule(rule: StyleRule, name: Seq<char>) -> bool {
    rule.selector matches Selector::Class(n) && n@ == name
}

/// The index of the first plain class rule for `name` at or after `from`, if there is one.
pub open spec fn first_class_rule_from(rules: Seq<StyleRule>, name: Seq<char>, from: int) -> Option<int>
    decreases rules.len() - from,
{
    if from < 0 || from >= rules.len() {
        None
    } else if is_class_rule(rules[from], name) {
        Some(from)
    } else {
        first_class_rule_from(rules, name, from + 1)
    }
}

/// The index of the first plain class rule for `name`, if there is one.
pub open spec fn first_class_rule(rules: Seq<StyleRule>, name: Seq<char>) -> Option<int> {
    first_class_rule_from(rules, name, 0)
}

/// The first class rule found from `from` on is the earliest one there, and there is none
/// when the search comes back empty.
pub proof fn lemma_first_class_rule_from(rules: Seq<StyleRule>, name: Seq<char>, from: int)
    requires
        0 <= from <= rules.len(),
    ensures
        match first_class_rule_from(rules, name, from) {
            Some(j) => from <= j < rules.len() && is_class_rule(rules[j], name) && forall|k: int|
                from <= k < j ==> !is_class_rule(#[trigger] rules[k], name),
            None => forall|k: int| from <= k < rules.len() ==> !is_class_rule(#[trigger] rules[k], name),
        },
    decreases rules.len() - from,
{
    if from < rules.len() && !is_class_rule(rules[from], name) {
        lemma_first_class_rule_from(rules, name, from + 1);
    }
}

/// What `get_class` reads: the setter of the first class rule for `name`.
pub open spec fn class_setter(rules: Seq<StyleRule>, name: Seq<char>) -> Option<StyleSetter> {
    match first_class_rule(rules, name) {
        Some(i) => Some(rules[i].setter),
        None => None,
    }
}

/// How `set_class` changes the rule list: the first class rule for `name` gets the new
/// setter in place, or a new class rule is appended when there is none.
pub open spec fn set_class_result(
    old_rules: Seq<StyleRule>,
    new_rules: Seq<StyleRule>,
    name: Seq<char>,
    setter: StyleSetter,
) -> bool {
    match first_class_rule(old_rules, name) {
        Some(i) => {
            &&& new_rules.len() == old_rules.len()
            &&& new_rules[i].selector == old_rules[i].selector
            &&& new_rules[i].setter == setter
            &&& forall|k: int| 0 <= k < old_rules.len() && k != i ==> #[trigger] new_rules[k] == old_rules[k]
        },
        None => {
            &&& new_rules.len() == old_rules.len() + 1
            &&& forall|k: int| 0 <= k < old_rules.len() ==> #[trigger] new_rules[k] == old_rules[k]
            &&& is_class_rule(new_rules[old_rules.len() as int], name)
            &&& new_rules[old_rules.len() as int].setter == setter
        },
    }
}

/// Global class-based style table.
#[derive(Debug)]
pub struct StyleSheet {
    pub rules: Vec<StyleRule>,
}

proof fn lemma_first_class_rule(rules: Seq<StyleRule>, name: Seq<char>, i: int)
    requires
        0 <= i < rules.len(),
        is_class_rule(rules[i], name),
        forall|k: int| 0 <= k < i ==> !is_class_rule(#[trigger] rules[k], name),
    ensures
        first_class_rule(rules, name) == Some(i),
{
    lemma_first_class_rule_from(rules, name, 0);
    match first_class_rule(rules, name) {
        Some(j) => {
            if j < i {
                assert(!is_class_rule(rules[j], name));
            } else if j > i {
                assert(!is_class_rule(rules[i], name));
            }
        },
        None => {
            assert(!is_class_rule(rules[i], name));
        },
    }
}

proof fn lemma_no_class_rule(rules: Seq<StyleRule>, name: Seq<char>)
    requires
        forall|k: int| 0 <= k < rules.len() ==> !is_class_rule(#[trigger] rules[k], name),
    ensures
        first_class_rule(rules, name) is None,
{
    lemma_first_class_rule_from(rules, name, 0);
    if let Some(j) = first_class_rule(rules, name) {
        assert(is_class_rule(rules[j], name));
    }
}

impl Default for StyleSheet {
    /// A stylesheet without rules.
    fn default() -> (sheet: Self)
        ensures
            sheet.rules@.len() == 0,
    {
        StyleSheet { rules: Vec::new() }
    }
}

impl StyleSheet {
    #[must_use]
    pub fn with_rule(self, rule: StyleRule) -> (sheet: Self)
        ensures
            sheet.rules@ == self.rules@.push(rule),
    {
        let mut sheet = self;
        sheet.rules.push(rule);
        sheet
    }

    pub fn add_rule(&mut self, rule: StyleRule)
        ensures
            final(self).rules@ == old(self).rules@.push(rule),
    {
        self.rules.push(rule);
    }

    #[must_use]
    pub fn with_class(self, class_name: &str, setter: StyleSetter) -> (sheet: Self)
        ensures
            set_class_result(self.rules@, sheet.rules@, class_name@, setter),
    {
        let mut sheet = self;
        sheet.set_class(class_name, setter);
        sheet
    }

    /// Find the index of the first plain class rule for `class_name`.
    fn find_class_rule(&self, class_name: &str) -> (index: Option<usize>)
        ensures
            match index {
                Some(i) => i < self.rules.len() && first_class_rule(self.rules@, class_name@) == Some(
                    i as int,
                ),
                None => first_class_rule(self.rules@, class_name@) is None,
            },
    {
        let name = owned(class_name);
        let mut i: usize = 0;
        while i < self.rules.len()
            invariant
                i <= self.rules.len(),
                name@ == class_name@,
                forall|k: int| 0 <= k < i ==> !is_class_rule(#[trigger] self.rules@[k], class_name@),
            decreases self.rules.len() - i,
        {
            let found = match &self.rules[i].selector {
                Selector::Class(existing) => existing.eq(&name),
                _ => false,
            };
            if found {
                proof {
                    lemma_first_class_rule(self.rules@, class_name@, i as int);
                }
                return Some(i);
            }
            i = i + 1;
        }
        proof {
            lemma_no_class_rule(self.rules@, class_name@);
        }
        None
    }

    pub fn set_class(&mut self, class_name: &str, setter: StyleSetter)
        ensures
            set_class_result(old(self).rules@, final(self).rules@, class_name@, setter),
    {
        match self.find_class_rule(class_name) {
            Some(i) => {
                self.rules[i].setter = setter;
            },
            None => {
                self.rules.push(StyleRule::class(class_name, setter));
            },
        }
    }

    #[must_use]
    pub fn get_class(&self, class_name: &str) -> (setter: Option<&StyleSetter>)
        ensures
            match setter {
                Some(s) => class_setter(self.rules@, class_name@) == Some(*s),
                None => class_setter(self.rules@, class_name@) is None,
            },
    {
        match self.find_class_rule(class_name) {
            Some(i) => Some(&self.rules[i].setter),
            None => None,
        }
    }

    /// Whether any rule mentions a component type.
    #[must_use]
    pub fn has_type_selectors(&self) -> (res: bool)
        ensures
            res == exists|i: int|
                0 <= i < self.rules.len() && selector_has_type(#[trigger] self.rules@[i].selector),
    {
        let mut i: usize = 0;
        while i < self.rules.len()
            invariant
                i <= self.rules.len(),
                forall|k: int| 0 <= k < i ==> !selector_has_type(#[trigger] self.rules@[k].selector),
            decreases self.rules.len() - i,
        {
            if self.rules[i].selector.contains_type() {
                return true;
            }
            i = i + 1;
        }
        false
    }

    /// Whether any rule uses a descendant combinator.
    #[must_use]
    pub fn has_descendant_selectors(&self) -> (res: bool)
        ensures
            res == exists|i: int|
                0 <= i < self.rules.len() && selector_has_descendant(#[trigger] self.rules@[i].selector),
    {
        let mut i: usize = 0;
        while i < self.rules.len()
            invariant
                i <= self.rules.len(),
                forall|k: int|
                    0 <= k < i ==> !selector_has_descendant(#[trigger] self.rules@[k].selector),
            decreases self.rules.len() - i,
        {
            if self.rules[i].selector.contains_descendant() {
                return true;
            }
            i = i + 1;
        }
        false
    }
}

/// Reading back a class after writing it gives the written setter.
pub proof fn lemma_set_then_get_class(
    old_rules: Seq<StyleRule>,
    new_rules: Seq<StyleRule>,
    name: Seq<char>,
    setter: StyleSetter,
)
    requires
        set_class_result(old_rules, new_rules, name, setter),
    ensures
        class_setter(new_rules, name) == Some(setter),
{
    lemma_first_class_rule_from(old_rules, name, 0);
    match first_class_rule(old_rules, name) {
        Some(i) => {
            assert forall|k: int| 0 <= k < i implies !is_class_rule(#[trigger] new_rules[k], name) by {
                assert(new_rules[k] == old_rules[k]);
            }
            lemma_first_class_rule(new_rules, name, i);
        },
        None => {
            let n = old_rules.len() as int;
            assert forall|k: int| 0 <= k < n implies !is_class_rule(#[trigger] new_rules[k], name) by {
                assert(new_rules[k] == old_rules[k]);
                assert(!is_class_rule(old_rules[k], name));
            }
            lemma_first_class_rule(new_rules, name, n);
        },
    }
}

/// Setting a class that already has a rule keeps the number of rules.
pub proof fn lemma_set_class_existing_keeps_rule_count(
    old_rules: Seq<StyleRule>,
    new_rules: Seq<StyleRule>,
    name: Seq<char>,
    setter: StyleSetter,
)
    requires
        set_class_result(old_rules, new_rules, name, setter),
        class_setter(old_rules, name) is Some,
    ensures
        new_rules.len() == old_rules.len(),
{
}


/// What the cascade reads of one entity: its component type names, classes, pseudo-state
/// markers, inline style components and cached style state.
#[derive(Debug, Clone, PartialEq)]
pub struct StyleNode {
    pub entity: EntityId,
    /// Names of the component types the entity carries (for `Selector::Type`).
    pub component_names: Vec<String>,
    pub classes: Option<StyleClass>,
    pub hovered: bool,
    pub pressed: bool,
    pub layout: Option<LayoutStyle>,
    pub colors: Option<ColorStyle>,
    pub text: Option<TextStyle>,
    pub transition: Option<StyleTransition>,
    pub computed: Option<ComputedStyle>,
    pub current: Option<CurrentColorStyle>,
}

/// Whether `names` contains `name`.
pub open spec fn name_listed(names: Seq<String>, name: Seq<char>) -> bool {
    exists|i: int| 0 <= i < names.len() && (#[trigger] names[i])@ == name
}

/// Whether the node's `StyleClass` lists `name`.
pub open spec fn node_has_class(node: StyleNode, name: Seq<char>) -> bool {
    node.classes matches Some(classes) && name_listed(classes.0@, name)
}

/// Whether `selector` matches `chain[at]`, where `chain[at + 1..]` are its ancestors
/// (nearest first).
pub open spec fn matches_at(chain: Seq<StyleNode>, at: int, selector: Selector) -> bool
    decreases selector,
{
    match selector {
        Selector::Type(name) => name_listed(chain[at].component_names@, name@),
        Selector::Class(name) => node_has_class(chain[at], name@),
        Selector::PseudoClass(PseudoClass::Hovered) => chain[at].hovered,
        Selector::PseudoClass(PseudoClass::Pressed) => chain[at].pressed,
        Selector::And(selectors) => forall|j: int|
            0 <= j < selectors.len() ==> matches_at(chain, at, #[trigger] selectors[j]),
        Selector::Descendant { ancestor, descendant } => {
            &&& matches_at(chain, at, *descendant)
            &&& exists|k: int| at < k < chain.len() && #[trigger] is_index(k) && matches_at(chain, k, *ancestor)
        },
    }
}

/// A trigger helper for quantifying over ancestor positions.
pub open spec fn is_index(k: int) -> bool {
    true
}

/// A descendant selector matches an entity whose own part matches when any ancestor, at
/// any distance, matches the ancestor part; and only then: some strict ancestor must match.
pub proof fn lemma_descendant_matches_any_ancestor(
    chain: Seq<StyleNode>,
    at: int,
    k: int,
    ancestor: Selector,
    descendant: Selector,
)
    requires
        0 <= at < k < chain.len(),
        matches_at(chain, at, descendant),
        matches_at(chain, k, ancestor),
    ensures
        matches_at(chain, at, Selector::Descendant { ancestor: Box::new(ancestor), descendant: Box::new(descendant) }),
{
    assert(is_index(k));
}

/// A descendant selector never matches without a matching strict ancestor.
pub proof fn lemma_descendant_needs_an_ancestor(chain: Seq<StyleNode>, at: int, ancestor: Selector, descendant: Selector)
    requires
        matches_at(chain, at, Selector::Descendant { ancestor: Box::new(ancestor), descendant: Box::new(descendant) }),
    ensures
        matches_at(chain, at, descendant),
        exists|k: int| at < k < chain.len() && #[trigger] matches_at(chain, k, ancestor),
{
    let k = choose|k: int| at < k < chain.len() && #[trigger] is_index(k) && matches_at(chain, k, ancestor);
    assert(matches_at(chain, k, ancestor));
}

/// Whether `selector` matches in a class-name context: classes come from `classes`, while
/// pseudo-state and ancestry come from the optional entity chain (`chain[0]` is the entity).
pub open spec fn matches_classes(
    classes: Seq<String>,
    chain: Option<Seq<StyleNode>>,
    selector: Selector,
) -> bool
    decreases selector,
{
    match selector {
        Selector::Type(_) => false,
        Selector::Class(name) => name_listed(classes, name@),
        Selector::PseudoClass(PseudoClass::Hovered) => chain matches Some(c) && c[0].hovered,
        Selector::PseudoClass(PseudoClass::Pressed) => chain matches Some(c) && c[0].pressed,
        Selector::And(selectors) => forall|j: int|
            0 <= j < selectors.len() ==> matches_classes(classes, chain, #[trigger] selectors[j]),
        Selector::Descendant { ancestor, descendant } => {
            &&& chain is Some
            &&& matches_classes(classes, chain, *descendant)
            &&& exists|k: int|
                0 < k < chain->0.len() && #[trigger] is_index(k) && matches_at(chain->0, k, *ancestor)
        },
    }
}

impl StyleNode {
    /// An entity with no components, classes, markers or style state.
    pub fn new(entity: EntityId) -> (node: Self)
        ensures
            node.entity == entity,
            node.component_names@.len() == 0,
            node.classes is None,
            !node.hovered,
            !node.pressed,
            node.layout is None,
            node.colors is None,
            node.text is None,
            node.transition is None,
            node.computed is None,
            node.current is None,
    {
        StyleNode {
            entity,
            component_names: Vec::new(),
            classes: None,
            hovered: false,
            pressed: false,
            layout: None,
            colors: None,
            text: None,
            transition: None,
            computed: None,
            current: None,
        }
    }
}

/// Whether `names` lists `name`.
pub fn has_name(names: &Vec<String>, name: &String) -> (res: bool)
    ensures
        res == name_listed(names@, name@),
{
    let mut i: usize = 0;
    while i < names.len()
        invariant
            i <= names.len(),
            forall|k: int| 0 <= k < i ==> (#[trigger] names@[k])@ != name@,
        decreases names.len() - i,
    {
        if names[i].eq(name) {
            return true;
        }
        i = i + 1;
    }
    false
}

fn node_has_class_name(node: &StyleNode, name: &String) -> (res: bool)
    ensures
        res == node_has_class(*node, name@),
{
    match &node.classes {
        Some(classes) => has_name(&classes.0, name),
        None => false,
    }
}

/// Whether `selector` matches the entity `chain[at]` (ancestors follow it in `chain`).
pub fn selector_matches_entity(chain: &Vec<StyleNode>, at: usize, selector: &Selector) -> (res: bool)
    requires
        at < chain.len(),
    ensures
        res == matches_at(chain@, at as int, *selector),
    decreases selector, 0nat,
{
    match selector {
        Selector::Type(name) => has_name(&chain[at].component_names, name),
        Selector::Class(name) => node_has_class_name(&chain[at], name),
        Selector::PseudoClass(PseudoClass::Hovered) => chain[at].hovered,
        Selector::PseudoClass(PseudoClass::Pressed) => chain[at].pressed,
        Selector::And(selectors) => {
            let mut j: usize = 0;
            while j < selectors.len()
                invariant
                    j <= selectors.len(),
                    at < chain.len(),
                    *selector == Selector::And(*selectors),
                    forall|k: int| 0 <= k < j ==> matches_at(chain@, at as int, #[trigger] selectors[k]),
                decreases selectors.len() - j,
            {
                proof {
                    let ghost whole = *selector;
                    assert(decreases_to!(whole => whole->And_0));
                    assert(decreases_to!(whole->And_0 => whole->And_0[j as int]));
                }
                if !selector_matches_entity(chain, at, &selectors[j]) {
                    return false;
                }
                j = j + 1;
            }
            true
        },
        Selector::Descendant { ancestor, descendant } => {
            if !selector_matches_entity(chain, at, descendant) {
                return false;
            }
            entity_has_matching_ancestor(chain, at, ancestor)
        },
    }
}

/// Whether some ancestor of `chain[at]` matches `ancestor`.
fn entity_has_matching_ancestor(chain: &Vec<StyleNode>, at: usize, ancestor: &Selector) -> (res: bool)
    requires
        at < chain.len(),
    ensures
        res == exists|k: int| at < k < chain.len() && #[trigger] is_index(k) && matches_at(chain@, k, *ancestor),
    decreases ancestor, 1nat,
{
    let mut k: usize = at + 1;
    while k < chain.len()
        invariant
            at < k <= chain.len(),
            forall|m: int| at < m < k ==> !#[trigger] matches_at(chain@, m, *ancestor),
        decreases chain.len() - k,
    {
        let found = selector_matches_entity(chain, k, ancestor);
        if found {
            assert(is_index(k as int));
            return true;
        }
        assert(!matches_at(chain@, k as int, *ancestor));
        k = k + 1;
    }
    false
}


/// Whether `selector` matches in a class-name context (see [`matches_classes`]).
fn selector_matches_class_context(
    chain: Option<&Vec<StyleNode>>,
    selector: &Selector,
    class_names: &Vec<String>,
) -> (res: bool)
    requires
        chain matches Some(c) ==> c.len() > 0,
    ensures
        res == matches_classes(class_names@, match chain {
            Some(c) => Some(c@),
            None => None,
        }, *selector),
    decreases selector,
{
    let ghost view_chain = match chain {
        Some(c) => Some(c@),
        None => None,
    };
    match selector {
        Selector::Type(_) => false,
        Selector::Class(name) => has_name(class_names, name),
        Selector::PseudoClass(PseudoClass::Hovered) => match chain {
            Some(c) => c[0].hovered,
            None => false,
        },
        Selector::PseudoClass(PseudoClass::Pressed) => match chain {
            Some(c) => c[0].pressed,
            None => false,
        },
        Selector::And(selectors) => {
            let mut j: usize = 0;
            while j < selectors.len()
                invariant
                    j <= selectors.len(),
                    chain matches Some(c) ==> c.len() > 0,
                    view_chain == (match chain {
                        Some(c) => Some(c@),
                        None => None,
                    }),
                    *selector == Selector::And(*selectors),
                    forall|k: int|
                        0 <= k < j ==> matches_classes(class_names@, view_chain, #[trigger] selectors[k]),
                decreases selectors.len() - j,
            {
                proof {
                    let ghost whole = *selector;
                    assert(decreases_to!(whole => whole->And_0));
                    assert(decreases_to!(whole->And_0 => whole->And_0[j as int]));
                }
                if !selector_matches_class_context(chain, &selectors[j], class_names) {
                    return false;
                }
                j = j + 1;
            }
            true
        },
        Selector::Descendant { ancestor, descendant } => match chain {
            Some(c) => {
                if !selector_matches_class_context(chain, descendant, class_names) {
                    return false;
                }
                entity_has_matching_ancestor(c, 0, ancestor)
            },
            None => false,
        },
    }
}

/// The cascade of `rules` over the rules that `matcher` accepts, in order: later rules win.
pub open spec fn cascade(rules: Seq<StyleRule>, matcher: spec_fn(Selector) -> bool) -> StyleValues
    decreases rules.len(),
{
    if rules.len() == 0 {
        empty_values()
    } else {
        let earlier = cascade(rules.drop_last(), matcher);
        if matcher(rules.last().selector) {
            merge_values(earlier, rules.last().setter@)
        } else {
            earlier
        }
    }
}

/// Whether `matcher` accepts some rule of `rules`.
pub open spec fn some_rule_matches(rules: Seq<StyleRule>, matcher: spec_fn(Selector) -> bool) -> bool {
    exists|i: int| 0 <= i < rules.len() && matcher(#[trigger] rules[i].selector)
}

/// The rules of an optional stylesheet (none when there is no sheet).
pub open spec fn sheet_rules(sheet: Option<&StyleSheet>) -> Seq<StyleRule> {
    match sheet {
        Some(sheet) => sheet.rules@,
        None => Seq::empty(),
    }
}

/// Selector matching against the entity at the head of `chain`.
pub open spec fn entity_matcher(chain: Seq<StyleNode>) -> spec_fn(Selector) -> bool {
    |selector: Selector| matches_at(chain, 0, selector)
}

/// Selector matching in a class-name context.
pub open spec fn class_matcher(classes: Seq<String>, chain: Option<Seq<StyleNode>>) -> spec_fn(
    Selector,
) -> bool {
    |selector: Selector| matches_classes(classes, chain, selector)
}

/// The sheet cascade followed by the entity's inline style components.
pub open spec fn entity_values(rules: Seq<StyleRule>, chain: Seq<StyleNode>) -> StyleValues {
    let sheet = cascade(rules, entity_matcher(chain));
    let node = chain[0];
    StyleValues {
        layout: match node.layout {
            Some(inline) => merge_layout_spec(sheet.layout, inline),
            None => sheet.layout,
        },
        colors: match node.colors {
            Some(inline) => merge_colors_spec(sheet.colors, inline),
            None => sheet.colors,
        },
        text: match node.text {
            Some(inline) => merge_text_spec(sheet.text, inline),
            None => sheet.text,
        },
        font_family: sheet.font_family,
        box_shadow: sheet.box_shadow,
        transition: match node.transition {
            Some(transition) => Some(transition),
            None => sheet.transition,
        },
    }
}

fn merged_from_class_names(
    sheet: Option<&StyleSheet>,
    chain: Option<&Vec<StyleNode>>,
    class_names: &Vec<String>,
) -> (merged: StyleSetter)
    requires
        chain matches Some(c) ==> c.len() > 0,
    ensures
        merged@ == cascade(sheet_rules(sheet), class_matcher(class_names@, match chain {
            Some(c) => Some(c@),
            None => None,
        })),
{
    let ghost view_chain = match chain {
        Some(c) => Some(c@),
        None => None,
    };
    let ghost matcher = class_matcher(class_names@, view_chain);
    let mut merged = StyleSetter::default();
    match sheet {
        Some(sheet) => {
            let mut i: usize = 0;
            while i < sheet.rules.len()
                invariant
                    i <= sheet.rules.len(),
                    chain matches Some(c) ==> c.len() > 0,
                    view_chain == (match chain {
                        Some(c) => Some(c@),
                        None => None,
                    }),
                    matcher == class_matcher(class_names@, view_chain),
                    merged@ == cascade(sheet.rules@.subrange(0, i as int), matcher),
                decreases sheet.rules.len() - i,
            {
                let rule = &sheet.rules[i];
                if selector_matches_class_context(chain, &rule.selector, class_names) {
                    merge_setter(&mut merged, &rule.setter);
                }
                proof {
                    assert(sheet.rules@.subrange(0, i + 1).drop_last() =~= sheet.rules@.subrange(0, i as int));
                }
                i = i + 1;
            }
            proof {
                assert(sheet.rules@.subrange(0, sheet.rules.len() as int) =~= sheet.rules@);
            }
        },
        None => {},
    }
    merged
}

fn merged_for_entity(sheet: Option<&StyleSheet>, chain: &Vec<StyleNode>) -> (res: (StyleSetter, bool))
    requires
        chain.len() > 0,
    ensures
        res.0@ == entity_values(sheet_rules(sheet), chain@),
        res.1 == some_rule_matches(sheet_rules(sheet), entity_matcher(chain@)),
{
    let ghost matcher = entity_matcher(chain@);
    let mut merged = StyleSetter::default();
    let mut matched_rule = false;
    match sheet {
        Some(sheet) => {
            let mut i: usize = 0;
            while i < sheet.rules.len()
                invariant
                    i <= sheet.rules.len(),
                    chain.len() > 0,
                    matcher == entity_matcher(chain@),
                    merged@ == cascade(sheet.rules@.subrange(0, i as int), matcher),
                    matched_rule == some_rule_matches(sheet.rules@.subrange(0, i as int), matcher),
                decreases sheet.rules.len() - i,
            {
                let rule = &sheet.rules[i];
                let ghost before = sheet.rules@.subrange(0, i as int);
                let ghost after = sheet.rules@.subrange(0, i + 1);
                if selector_matches_entity(chain, 0, &rule.selector) {
                    merge_setter(&mut merged, &rule.setter);
                    matched_rule = true;
                    proof {
                        assert(after[i as int] == sheet.rules@[i as int]);
                        assert(matcher(after[i as int].selector));
                    }
                } else {
                    proof {
                        if some_rule_matches(after, matcher) {
                            let w = choose|w: int| 0 <= w < after.len() && matcher(#[trigger] after[w].selector);
                            assert(before[w] == after[w]);
                        }
                    }
                }
                proof {
                    assert(after.drop_last() =~= before);
                    if matched_rule && !(some_rule_matches(before, matcher)) {
                        assert(matcher(after[i as int].selector));
                    }
                    if some_rule_matches(before, matcher) {
                        let w = choose|w: int| 0 <= w < before.len() && matcher(#[trigger] before[w].selector);
                        assert(before[w] == after[w]);
                    }
                }
                i = i + 1;
            }
            proof {
                assert(sheet.rules@.subrange(0, sheet.rules.len() as int) =~= sheet.rules@);
            }
        },
        None => {},
    }
    let node = &chain[0];
    match &node.layout {
        Some(layout) => merge_layout(&mut merged.layout, layout),
        None => {},
    }
    match &node.colors {
        Some(colors) => merge_colors(&mut merged.colors, colors),
        None => {},
    }
    match &node.text {
        Some(text) => merge_text(&mut merged.text, text),
        None => {},
    }
    match node.transition {
        Some(transition) => {
            merged.transition = Some(transition);
        },
        None => {},
    }
    (merged, matched_rule)
}


pub open spec fn zero_layout() -> ResolvedLayoutStyle {
    ResolvedLayoutStyle {
        padding: F64Bits(0),
        gap: F64Bits(0),
        corner_radius: F64Bits(0),
        border_width: F64Bits(0),
    }
}

pub open spec fn no_colors() -> ResolvedColorStyle {
    ResolvedColorStyle { bg: None, text: None, border: None }
}

impl Default for ResolvedLayoutStyle {
    fn default() -> (layout: Self)
        ensures
            layout == zero_layout(),
    {
        ResolvedLayoutStyle {
            padding: F64Bits(0),
            gap: F64Bits(0),
            corner_radius: F64Bits(0),
            border_width: F64Bits(0),
        }
    }
}

impl Default for ResolvedColorStyle {
    fn default() -> (colors: Self)
        ensures
            colors == no_colors(),
    {
        ResolvedColorStyle { bg: None, text: None, border: None }
    }
}

impl Default for ResolvedTextStyle {
    fn default() -> (text: Self)
        ensures
            text.size is None,
    {
        ResolvedTextStyle { size: None }
    }
}

impl Default for CurrentColorStyle {
    fn default() -> (colors: Self)
        ensures
            colors == (CurrentColorStyle { bg: None, text: None, border: None }),
    {
        CurrentColorStyle { bg: None, text: None, border: None }
    }
}

impl Default for TargetColorStyle {
    fn default() -> (colors: Self)
        ensures
            colors == (TargetColorStyle { bg: None, text: None, border: None }),
    {
        TargetColorStyle { bg: None, text: None, border: None }
    }
}

/// The spec-level value of a resolved style: its properties, with the font stack as names.
pub struct ResolvedValues {
    pub layout: ResolvedLayoutStyle,
    pub colors: ResolvedColorStyle,
    pub text: ResolvedTextStyle,
    pub font_family: Option<Seq<String>>,
    pub box_shadow: Option<BoxShadow>,
    pub transition: Option<StyleTransition>,
}

/// The style of an entity that no style source reaches.
pub open spec fn default_resolved() -> ResolvedValues {
    ResolvedValues {
        layout: zero_layout(),
        colors: no_colors(),
        text: ResolvedTextStyle { size: None },
        font_family: None,
        box_shadow: None,
        transition: None,
    }
}

/// Final resolved style handed to projectors.
#[derive(Debug, Clone, PartialEq)]
pub struct ResolvedStyle {
    pub layout: ResolvedLayoutStyle,
    pub colors: ResolvedColorStyle,
    pub text: ResolvedTextStyle,
    pub font_family: Option<Vec<String>>,
    pub box_shadow: Option<BoxShadow>,
    pub transition: Option<StyleTransition>,
}

impl View for ResolvedStyle {
    type V = ResolvedValues;

    open spec fn view(&self) -> ResolvedValues {
        ResolvedValues {
            layout: self.layout,
            colors: self.colors,
            text: self.text,
            font_family: font_view(self.font_family),
            box_shadow: self.box_shadow,
            transition: self.transition,
        }
    }
}

impl Default for ResolvedStyle {
    fn default() -> (style: Self)
        ensures
            style@ == default_resolved(),
    {
        ResolvedStyle {
            layout: ResolvedLayoutStyle::default(),
            colors: ResolvedColorStyle::default(),
            text: ResolvedTextStyle::default(),
            font_family: None,
            box_shadow: None,
            transition: None,
        }
    }
}

impl View for ComputedStyle {
    type V = ResolvedValues;

    open spec fn view(&self) -> ResolvedValues {
        ResolvedValues {
            layout: self.layout,
            colors: self.colors,
            text: self.text,
            font_family: font_view(self.font_family),
            box_shadow: self.box_shadow,
            transition: self.transition,
        }
    }
}

impl Default for ComputedStyle {
    fn default() -> (style: Self)
        ensures
            style@ == default_resolved(),
    {
        ComputedStyle {
            layout: ResolvedLayoutStyle::default(),
            colors: ResolvedColorStyle::default(),
            text: ResolvedTextStyle::default(),
            font_family: None,
            box_shadow: None,
            transition: None,
        }
    }
}

/// Structural interaction events emitted by ECS-backed widgets.
#[derive(Debug, Clone, Copy, PartialEq, Eq, Structural)]
pub enum UiInteractionEvent {
    PointerEntered,
    PointerLeft,
    PointerPressed,
    PointerReleased,
}

/// Base colors, then hover colors while hovered, then pressed colors while pressed
/// (pressed wins over hovered); each state color only replaces a channel it sets.
pub open spec fn target_colors_spec(hovered: bool, pressed: bool, colors: ColorStyle) -> ResolvedColorStyle {
    let base = ResolvedColorStyle { bg: colors.bg, text: colors.text, border: colors.border };
    let after_hover = if hovered {
        ResolvedColorStyle {
            bg: override_opt(base.bg, colors.hover_bg),
            text: override_opt(base.text, colors.hover_text),
            border: override_opt(base.border, colors.hover_border),
        }
    } else {
        base
    };
    if pressed {
        ResolvedColorStyle {
            bg: override_opt(after_hover.bg, colors.pressed_bg),
            text: override_opt(after_hover.text, colors.pressed_text),
            border: override_opt(after_hover.border, colors.pressed_border),
        }
    } else {
        after_hover
    }
}

/// Animated current colors replace each channel they hold.
pub open spec fn apply_current(colors: ResolvedColorStyle, current: Option<CurrentColorStyle>) -> ResolvedColorStyle {
    match current {
        Some(current) => ResolvedColorStyle {
            bg: override_opt(colors.bg, current.bg),
            text: override_opt(colors.text, current.text),
            border: override_opt(colors.border, current.border),
        },
        None => colors,
    }
}

pub open spec fn to_resolved_layout_spec(layout: LayoutStyle) -> ResolvedLayoutStyle {
    ResolvedLayoutStyle {
        padding: match layout.padding { Some(v) => v, None => F64Bits(0) },
        gap: match layout.gap { Some(v) => v, None => F64Bits(0) },
        corner_radius: match layout.corner_radius { Some(v) => v, None => F64Bits(0) },
        border_width: match layout.border_width { Some(v) => v, None => F64Bits(0) },
    }
}

/// Resolved style from cascaded values and the entity's pseudo-state.
pub open spec fn resolve_values(
    node: StyleNode,
    merged: StyleValues,
    include_current_override: bool,
) -> ResolvedValues {
    let colors = target_colors_spec(node.hovered, node.pressed, merged.colors);
    ResolvedValues {
        layout: to_resolved_layout_spec(merged.layout),
        colors: if include_current_override {
            apply_current(colors, node.current)
        } else {
            colors
        },
        text: ResolvedTextStyle { size: merged.text.size },
        font_family: merged.font_family,
        box_shadow: merged.box_shadow,
        transition: merged.transition,
    }
}

/// Whether anything can style the entity: a matched rule or a style component.
pub open spec fn has_style_source(node: StyleNode, matched_rule: bool) -> bool {
    matched_rule || node.classes is Some || node.layout is Some || node.colors is Some
        || node.text is Some || node.transition is Some
}

/// The freshly computed style of `chain[0]`, or nothing when no style source reaches it.
pub open spec fn computed_style_spec(rules: Seq<StyleRule>, chain: Seq<StyleNode>) -> Option<ResolvedValues> {
    if has_style_source(chain[0], some_rule_matches(rules, entity_matcher(chain))) {
        Some(resolve_values(chain[0], entity_values(rules, chain), false))
    } else {
        None
    }
}

/// What projectors read for `chain[0]`: its cached computed style with the animated colors
/// on top when there is a cache, else a fresh computation, else the default style.
pub open spec fn resolve_style_spec(rules: Seq<StyleRule>, chain: Seq<StyleNode>) -> ResolvedValues {
    let node = chain[0];
    match node.computed {
        Some(computed) => ResolvedValues {
            colors: apply_current(computed@.colors, node.current),
            ..computed@
        },
        None => match computed_style_spec(rules, chain) {
            Some(values) => values,
            None => default_resolved(),
        },
    }
}

/// The resolved colors for a color style under the given pseudo-state.
pub fn target_colors(hovered: bool, pressed: bool, colors: &ColorStyle) -> (resolved: ResolvedColorStyle)
    ensures
        resolved == target_colors_spec(hovered, pressed, *colors),
{
    let mut resolved = ResolvedColorStyle { bg: colors.bg, text: colors.text, border: colors.border };
    if hovered {
        if colors.hover_bg.is_some() {
            resolved.bg = colors.hover_bg;
        }
        if colors.hover_text.is_some() {
            resolved.text = colors.hover_text;
        }
        if colors.hover_border.is_some() {
            resolved.border = colors.hover_border;
        }
    }
    if pressed {
        if colors.pressed_bg.is_some() {
            resolved.bg = colors.pressed_bg;
        }
        if colors.pressed_text.is_some() {
            resolved.text = colors.pressed_text;
        }
        if colors.pressed_border.is_some() {
            resolved.border = colors.pressed_border;
        }
    }
    resolved
}

fn apply_current_colors(colors: &mut ResolvedColorStyle, current: &Option<CurrentColorStyle>)
    ensures
        *final(colors) == apply_current(*old(colors), *current),
{
    if let Some(current) = current {
        if current.bg.is_some() {
            colors.bg = current.bg;
        }
        if current.text.is_some() {
            colors.text = current.text;
        }
        if current.border.is_some() {
            colors.border = current.border;
        }
    }
}

fn unwrap_length(length: Option<F64Bits>) -> (res: F64Bits)
    ensures
        res == (match length {
            Some(v) => v,
            None => F64Bits(0),
        }),
{
    match length {
        Some(v) => v,
        None => F64Bits(0),
    }
}

/// Absent lengths resolve to `0.0`.
pub fn to_resolved_layout(layout: &LayoutStyle) -> (resolved: ResolvedLayoutStyle)
    ensures
        resolved == to_resolved_layout_spec(*layout),
{
    ResolvedLayoutStyle {
        padding: unwrap_length(layout.padding),
        gap: unwrap_length(layout.gap),
        corner_radius: unwrap_length(layout.corner_radius),
        border_width: unwrap_length(layout.border_width),
    }
}

fn has_any_style_source(node: &StyleNode, matched_rule: bool) -> (res: bool)
    ensures
        res == has_style_source(*node, matched_rule),
{
    matched_rule || node.classes.is_some() || node.layout.is_some() || node.colors.is_some()
        || node.text.is_some() || node.transition.is_some()
}

fn resolved_from_merged(node: &StyleNode, merged: &StyleSetter, include_current_override: bool) -> (resolved: ResolvedStyle)
    ensures
        resolved@ == resolve_values(*node, merged@, include_current_override),
{
    let mut colors = target_colors(node.hovered, node.pressed, &merged.colors);
    if include_current_override {
        apply_current_colors(&mut colors, &node.current);
    }
    ResolvedStyle {
        layout: to_resolved_layout(&merged.layout),
        colors,
        text: ResolvedTextStyle { size: merged.text.size },
        font_family: clone_font_family(&merged.font_family),
        box_shadow: merged.box_shadow,
        transition: merged.transition,
    }
}

/// Compute the style of `chain[0]` from the stylesheet and its style components.
///
/// Returns `None` when neither a rule nor a style component reaches the entity.
pub fn compute_resolved_style(sheet: Option<&StyleSheet>, chain: &Vec<StyleNode>) -> (resolved: Option<ResolvedStyle>)
    requires
        chain.len() > 0,
    ensures
        match resolved {
            Some(style) => computed_style_spec(sheet_rules(sheet), chain@) == Some(style@),
            None => computed_style_spec(sheet_rules(sheet), chain@) is None,
        },
{
    let (merged, matched_rule) = merged_for_entity(sheet, chain);
    if !has_any_style_source(&chain[0], matched_rule) {
        return None;
    }
    Some(resolved_from_merged(&chain[0], &merged, false))
}

/// Resolve final style for the entity `chain[0]` (its ancestors follow, nearest first).
///
/// Cascading order:
/// 1. rules from the [`StyleSheet`], later rules winning
/// 2. inline components [`LayoutStyle`], [`ColorStyle`], [`TextStyle`], [`StyleTransition`]
/// 3. pseudo classes [`Hovered`] / [`Pressed`] (pressed over hovered)
/// 4. animated override from [`CurrentColorStyle`] when a computed style is cached
#[must_use]
pub fn resolve_style(sheet: Option<&StyleSheet>, chain: &Vec<StyleNode>) -> (resolved: ResolvedStyle)
    requires
        chain.len() > 0,
    ensures
        resolved@ == resolve_style_spec(sheet_rules(sheet), chain@),
{
    let node = &chain[0];
    match &node.computed {
        Some(computed) => {
            let mut colors = computed.colors;
            apply_current_colors(&mut colors, &node.current);
            ResolvedStyle {
                layout: computed.layout,
                colors,
                text: computed.text,
                font_family: clone_font_family(&computed.font_family),
                box_shadow: computed.box_shadow,
                transition: computed.transition,
            }
        },
        None => match compute_resolved_style(sheet, chain) {
            Some(style) => style,
            None => ResolvedStyle::default(),
        },
    }
}

/// Resolve style from class names only, without inline entity overrides.
#[must_use]
pub fn resolve_style_for_classes(sheet: Option<&StyleSheet>, class_names: &Vec<String>) -> (resolved: ResolvedStyle)
    ensures
        ({
            let merged = cascade(sheet_rules(sheet), class_matcher(class_names@, None));
            resolved@ == ResolvedValues {
                layout: to_resolved_layout_spec(merged.layout),
                colors: ResolvedColorStyle {
                    bg: merged.colors.bg,
                    text: merged.colors.text,
                    border: merged.colors.border,
                },
                text: ResolvedTextStyle { size: merged.text.size },
                font_family: merged.font_family,
                box_shadow: merged.box_shadow,
                transition: merged.transition,
            }
        }),
{
    let merged = merged_from_class_names(sheet, None, class_names);
    ResolvedStyle {
        layout: to_resolved_layout(&merged.layout),
        colors: ResolvedColorStyle {
            bg: merged.colors.bg,
            text: merged.colors.text,
            border: merged.colors.border,
        },
        text: ResolvedTextStyle { size: merged.text.size },
        font_family: merged.font_family,
        box_shadow: merged.box_shadow,
        transition: merged.transition,
    }
}

/// Resolve style from class names while applying pseudo-state from a specific entity.
///
/// This is useful when a control's visual style is class-driven, but hover/pressed
/// state is tracked on an ECS entity via [`Hovered`] / [`Pressed`].
#[must_use]
pub fn resolve_style_for_entity_classes(
    sheet: Option<&StyleSheet>,
    chain: &Vec<StyleNode>,
    class_names: &Vec<String>,
) -> (resolved: ResolvedStyle)
    requires
        chain.len() > 0,
    ensures
        resolved@ == resolve_values(
            chain@[0],
            cascade(sheet_rules(sheet), class_matcher(class_names@, Some(chain@))),
            false,
        ),
{
    let merged = merged_from_class_names(sheet, Some(chain), class_names);
    resolved_from_merged(&chain[0], &merged, false)
}


/// A rule appended to the sheet that matches overrides every property it sets and keeps
/// the others: later rules win.
pub proof fn lemma_later_matching_rule_wins(
    rules: Seq<StyleRule>,
    rule: StyleRule,
    matcher: spec_fn(Selector) -> bool,
)
    requires
        matcher(rule.selector),
    ensures
        cascade(rules.push(rule), matcher) == merge_values(cascade(rules, matcher), rule.setter@),
{
    assert(rules.push(rule).drop_last() =~= rules);
}

/// A rule whose selector does not match leaves the cascade unchanged.
pub proof fn lemma_unmatched_rule_is_ignored(
    rules: Seq<StyleRule>,
    rule: StyleRule,
    matcher: spec_fn(Selector) -> bool,
)
    requires
        !matcher(rule.selector),
    ensures
        cascade(rules.push(rule), matcher) == cascade(rules, matcher),
{
    assert(rules.push(rule).drop_last() =~= rules);
}

/// An inline layout component overrides every length it sets, whatever the stylesheet says.
pub proof fn lemma_inline_layout_wins(rules: Seq<StyleRule>, chain: Seq<StyleNode>, inline: LayoutStyle)
    requires
        chain.len() > 0,
        chain[0].computed is None,
        chain[0].layout == Some(inline),
    ensures
        resolve_style_spec(rules, chain).layout == to_resolved_layout_spec(
            merge_layout_spec(cascade(rules, entity_matcher(chain)).layout, inline),
        ),
        inline.padding matches Some(p) ==> resolve_style_spec(rules, chain).layout.padding == p,
{
}

/// While pressed, a pressed color wins over both the hover and the base color.
pub proof fn lemma_pressed_color_wins(hovered: bool, colors: ColorStyle, pressed_bg: Rgba8)
    requires
        colors.pressed_bg == Some(pressed_bg),
    ensures
        target_colors_spec(hovered, true, colors).bg == Some(pressed_bg),
{
}

/// While hovered and not pressed, a hover color wins over the base color.
pub proof fn lemma_hover_color_wins(colors: ColorStyle, hover_bg: Rgba8)
    requires
        colors.hover_bg == Some(hover_bg),
    ensures
        target_colors_spec(true, false, colors).bg == Some(hover_bg),
{
}

proof fn lemma_class_match_depends_on_membership(
    a: Seq<String>,
    b: Seq<String>,
    chain: Option<Seq<StyleNode>>,
    selector: Selector,
)
    requires
        forall|name: Seq<char>| name_listed(a, name) == name_listed(b, name),
    ensures
        matches_classes(a, chain, selector) == matches_classes(b, chain, selector),
    decreases selector,
{
    match selector {
        Selector::And(selectors) => {
            assert forall|j: int| 0 <= j < selectors.len() implies matches_classes(a, chain, #[trigger] selectors[j])
                == matches_classes(b, chain, selectors[j]) by {
                assert(decreases_to!(selector => selector->And_0));
                assert(decreases_to!(selector->And_0 => selector->And_0[j]));
                lemma_class_match_depends_on_membership(a, b, chain, selectors[j]);
            }
        },
        Selector::Descendant { ancestor, descendant } => {
            lemma_class_match_depends_on_membership(a, b, chain, *descendant);
        },
        _ => {},
    }
}

proof fn lemma_cascade_same_matcher(
    rules: Seq<StyleRule>,
    m1: spec_fn(Selector) -> bool,
    m2: spec_fn(Selector) -> bool,
)
    requires
        forall|selector: Selector| #[trigger] m1(selector) == m2(selector),
    ensures
        cascade(rules, m1) == cascade(rules, m2),
    decreases rules.len(),
{
    if rules.len() > 0 {
        lemma_cascade_same_matcher(rules.drop_last(), m1, m2);
    }
}

/// Class-driven styles depend only on which class names are listed, not on their order
/// or repetition.
pub proof fn lemma_class_styles_depend_on_class_set(
    rules: Seq<StyleRule>,
    a: Seq<String>,
    b: Seq<String>,
    chain: Option<Seq<StyleNode>>,
)
    requires
        forall|name: Seq<char>| name_listed(a, name) == name_listed(b, name),
    ensures
        cascade(rules, class_matcher(a, chain)) == cascade(rules, class_matcher(b, chain)),
{
    assert forall|selector: Selector| #[trigger] class_matcher(a, chain)(selector) == class_matcher(b, chain)(
        selector,
    ) by {
        lemma_class_match_depends_on_membership(a, b, chain, selector);
    }
    lemma_cascade_same_matcher(rules, class_matcher(a, chain), class_matcher(b, chain));
}

/// An entity with no stylesheet match, no style component and no cached style resolves
/// to the default style.
pub proof fn lemma_unstyled_entity_resolves_default(rules: Seq<StyleRule>, chain: Seq<StyleNode>)
    requires
        chain.len() > 0,
        chain[0].computed is None,
        !has_style_source(chain[0], some_rule_matches(rules, entity_matcher(chain))),
    ensures
        resolve_style_spec(rules, chain) == default_resolved(),
{
}

/// A color with its alpha channel cleared; a missing color becomes transparent black.
pub open spec fn hidden_color(color: Option<Rgba8>) -> Option<Rgba8> {
    match color {
        Some(c) => Some(Rgba8 { a: 0, ..c }),
        None => Some(Rgba8 { r: 0, g: 0, b: 0, a: 0 }),
    }
}

fn hide_color(color: Option<Rgba8>) -> (hidden: Option<Rgba8>)
    ensures
        hidden == hidden_color(color),
{
    match color {
        Some(c) => Some(c.transparentized()),
        None => Some(Rgba8 { r: 0, g: 0, b: 0, a: 0 }),
    }
}

/// Make an element invisible while it keeps its place in the layout: every color becomes
/// fully transparent and the shadow is dropped; layout and text are unchanged.
pub fn hide_style_without_collapsing_layout(style: &mut ResolvedStyle)
    ensures
        final(style).colors == (ResolvedColorStyle {
            bg: hidden_color(old(style).colors.bg),
            text: hidden_color(old(style).colors.text),
            border: hidden_color(old(style).colors.border),
        }),
        final(style).layout == old(style).layout,
        final(style).text == old(style).text,
        final(style).font_family == old(style).font_family,
        final(style).transition == old(style).transition,
        final(style).box_shadow is None,
{
    style.box_shadow = None;
    style.colors.bg = hide_color(style.colors.bg);
    style.colors.border = hide_color(style.colors.border);
    style.colors.text = hide_color(style.colors.text);
}

} // verus!
