//! Synchronous localization registry: Fluent bundles per locale, key fallbacks and
//! locale-aware font stacks.
use vstd::prelude::*;

use fluent::FluentResource;
use unic_langid::LanguageIdentifier;

use crate::ecs::{clone_strings, owned};
use crate::text::chars_of;
use crate::style::{font_view, ResolvedStyle, ResolvedValues};

verus! {

#[verifier::external_type_specification]
#[verifier::external_body]
pub struct ExFluentResource(FluentResource);

#[verifier::external_type_specification]
#[verifier::external_body]
pub struct ExLanguageIdentifier(LanguageIdentifier);

#[verifier::external_type_specification]
#[verifier::external_body]
pub struct ExIntlLangMemoizer(intl_memoizer::concurrent::IntlLangMemoizer);

#[verifier::external_type_specification]
#[verifier::external_body]
#[verifier::reject_recursive_types(R)]
#[verifier::reject_recursive_types(M)]
pub struct ExFluentBundle<R, M>(fluent::bundle::FluentBundle<R, M>);

/// A thread-safe Fluent bundle holding the messages of one locale.
pub type LocaleMessages = fluent::concurrent::FluentBundle<FluentResource>;

/// The identifier `<LanguageIdentifier as FromStr>::from_str` parses from a tag, or
/// nothing when the tag does not parse.
pub uninterp spec fn language_id_of(tag: Seq<char>) -> Option<LanguageIdentifier>;

/// The text `LanguageIdentifier`'s `Display` impl prints for an identifier: its canonical
/// BCP-47 form.
pub uninterp spec fn language_id_display(id: LanguageIdentifier) -> Seq<char>;

/// The canonical form of a language tag, or nothing when the tag does not parse.
pub open spec fn canonical_locale_tag(tag: Seq<char>) -> Option<Seq<char>> {
    match language_id_of(tag) {
        Some(id) => Some(language_id_display(id)),
        None => None,
    }
}

/// The resource `FluentResource::try_new` builds from an FTL source when it parses without
/// errors, or nothing when the parser reports errors.
pub uninterp spec fn parsed_ftl(source: Seq<char>) -> Option<FluentResource>;

/// Whether Fluent parses an FTL source without errors.
pub open spec fn ftl_parses(source: Seq<char>) -> bool {
    parsed_ftl(source) is Some
}

/// The bundle `FluentBundle::new_concurrent` creates for one locale.
pub uninterp spec fn fresh_bundle_of(locale: LanguageIdentifier) -> LocaleMessages;

/// What `FluentBundle::add_resource` makes of a bundle and a resource: the bundle
/// afterwards, and whether the call succeeded (no message or term id was already taken).
pub uninterp spec fn resource_added(bundle: LocaleMessages, resource: FluentResource) -> (LocaleMessages, bool);

/// The messages a bundle formats, by message id: the formatted value of every message that
/// has a value (formatted without arguments).
pub uninterp spec fn bundle_messages(bundle: LocaleMessages) -> Map<Seq<char>, Seq<char>>;

/// The bundle built for a locale tag from an FTL source: a fresh bundle for the parsed tag
/// with the parsed resource added, and whether adding succeeded; nothing when the tag or
/// the source does not parse.
pub open spec fn registered_bundle(tag: Seq<char>, source: Seq<char>) -> Option<(LocaleMessages, bool)> {
    match (language_id_of(tag), parsed_ftl(source)) {
        (Some(id), Some(resource)) => Some(resource_added(fresh_bundle_of(id), resource)),
        _ => None,
    }
}

/// A fresh bundle for the tag accepts the parsed source.
pub open spec fn fresh_bundle_accepts(tag: Seq<char>, source: Seq<char>) -> bool {
    registered_bundle(tag, source) matches Some((_, accepted)) && accepted
}

/// The messages of the bundle built for a tag from a source.
pub open spec fn ftl_bundle_messages(tag: Seq<char>, source: Seq<char>) -> Map<Seq<char>, Seq<char>> {
    bundle_messages((registered_bundle(tag, source)->0).0)
}

/// `c` is an ASCII digit.
pub open spec fn is_ascii_digit(c: char) -> bool {
    48 <= c as u32 <= 57
}

/// A `.` at position `i` followed by at least twenty ASCII digits: a number literal with
/// twenty or more fraction digits starts here. Matching such a literal against plural
/// categories overflows inside Fluent (`10_u64.pow` of the digit count).
pub open spec fn long_fraction_at(source: Seq<char>, i: int) -> bool {
    &&& 0 <= i
    &&& i + 20 < source.len()
    &&& source[i] == '.'
    &&& forall|k: int| 1 <= k <= 20 ==> is_ascii_digit(#[trigger] source[i + k])
}

/// No number literal in the FTL source has twenty or more fraction digits.
pub open spec fn ftl_numbers_bounded(source: Seq<char>) -> bool {
    forall|i: int| !#[trigger] long_fraction_at(source, i)
}

/// Whether some `.` in `source` is followed by twenty ASCII digits.
fn has_long_fraction(source: &str) -> (found: bool)
    ensures
        found == !ftl_numbers_bounded(source@),
{
    let chars = chars_of(source);
    let n = chars.len();
    let mut i: usize = 0;
    while i < n
        invariant
            n == chars@.len(),
            chars@ == source@,
            i <= n,
            forall|p: int| 0 <= p < i ==> !#[trigger] long_fraction_at(source@, p),
        decreases n - i,
    {
        if chars[i] == '.' && n - i > 20 {
            let mut k: usize = 1;
            let mut digits = true;
            while k <= 20
                invariant
                    n == chars@.len(),
                    chars@ == source@,
                    i + 20 < n,
                    1 <= k <= 21,
                    digits == (forall|q: int| 1 <= q < k ==> is_ascii_digit(#[trigger] source@[i + q])),
                decreases 21 - k,
            {
                let u = chars[i + k] as u32;
                if !(48 <= u && u <= 57) {
                    digits = false;
                }
                k = k + 1;
            }
            if digits {
                assert(long_fraction_at(source@, i as int));
                return true;
            }
        }
        i = i + 1;
    }
    false
}

/// A bundle that registration built from a source with bounded number literals: a fresh
/// bundle for a parsed tag that accepted the parsed resource. Formatting its messages
/// cannot overflow.
pub open spec fn formats_safely(bundle: LocaleMessages) -> bool {
    exists|tag: Seq<char>, source: Seq<char>|
        ftl_numbers_bounded(source) && #[trigger] registered_bundle(tag, source) == Some((bundle, true))
}

/// Parses a language tag with `<LanguageIdentifier as FromStr>::from_str`.
///
/// Claims: the result is the named parse of the tag.
#[verifier::external_body]
fn parse_language_id(tag: &str) -> (parsed: Option<LanguageIdentifier>)
    ensures
        parsed == language_id_of(tag@),
{
    tag.parse::<LanguageIdentifier>().ok()
}

/// Prints an identifier with `LanguageIdentifier`'s `Display` impl.
///
/// Claims: the text is the named printed form of the identifier.
#[verifier::external_body]
fn language_id_text(id: &LanguageIdentifier) -> (text: String)
    ensures
        text@ == language_id_display(*id),
{
    id.to_string()
}

/// Creates an empty bundle with `fluent::concurrent::FluentBundle::new_concurrent`.
///
/// Claims: the bundle is the named fresh bundle of the locale, and it holds no messages.
#[verifier::external_body]
fn new_concurrent_bundle(locale: LanguageIdentifier) -> (fresh: LocaleMessages)
    ensures
        fresh == fresh_bundle_of(locale),
        bundle_messages(fresh).dom() == Set::<Seq<char>>::empty(),
{
    fluent::concurrent::FluentBundle::new_concurrent(vec![locale])
}

/// Parses FTL text with `FluentResource::try_new`, turning parse errors into their
/// debug text.
///
/// Claims: the resource comes back exactly when the text parses, and it is the named
/// resource of the text.
#[verifier::external_body]
fn parse_ftl_resource(source: String) -> (resource: Result<FluentResource, String>)
    ensures
        match resource {
            Ok(r) => parsed_ftl(source@) == Some(r),
            Err(_) => parsed_ftl(source@) is None,
        },
{
    match FluentResource::try_new(source) {
        Ok(resource) => Ok(resource),
        Err((_, errors)) => Err(format!("{errors:?}")),
    }
}

/// Adds a resource to a bundle with `FluentBundle::add_resource`, turning the errors into
/// their debug text.
///
/// Claims: the bundle afterwards and the success of the call are the named outcome of
/// adding this resource to this bundle. The error text is not described.
#[verifier::external_body]
fn bundle_add_resource(bundle: &mut LocaleMessages, resource: FluentResource) -> (added: Result<(), String>)
    ensures
        (*final(bundle), added is Ok) == resource_added(*old(bundle), resource),
{
    bundle.add_resource(resource).map_err(|errors| format!("{errors:?}"))
}

/// Looks up a message with `FluentBundle::get_message`, takes its value pattern and
/// formats it without arguments with `FluentBundle::format_pattern`.
///
/// Claims, for bundles built by registration from sources whose number literals have fewer
/// than twenty fraction digits (on others, formatting a plural selector over such a literal
/// overflows): a text comes back exactly for the ids in the bundle's formatted messages,
/// and it is that formatted message.
#[verifier::external_body]
fn bundle_format_message(bundle: &LocaleMessages, key: &str) -> (text: Option<String>)
    requires
        formats_safely(*bundle),
    ensures
        text is Some <==> bundle_messages(*bundle).contains_key(key@),
        text matches Some(t) ==> t@ == bundle_messages(*bundle)[key@],
{
    let message = bundle.get_message(key)?;
    let pattern = message.value()?;
    let mut errors = vec![];
    Some(bundle.format_pattern(pattern, None, &mut errors).into_owned())
}

/// The messages and font stack registered for one locale.
pub struct LocaleBundle {
    /// Canonical language tag.
    pub locale: String,
    pub bundle: LocaleMessages,
    pub font_stack: Vec<String>,
}

/// The position of the entry for `locale`, if there is one.
pub open spec fn locale_entry(bundles: Seq<LocaleBundle>, locale: Seq<char>) -> Option<int>
    decreases bundles.len(),
{
    if bundles.len() == 0 {
        None
    } else {
        match locale_entry(bundles.drop_last(), locale) {
            Some(i) => Some(i),
            None => if bundles.last().locale@ == locale {
                Some(bundles.len() - 1)
            } else {
                None
            },
        }
    }
}

/// No locale has two entries.
pub open spec fn distinct_locales(bundles: Seq<LocaleBundle>) -> bool {
    forall|i: int, j: int|
        0 <= i < bundles.len() && 0 <= j < bundles.len() && i != j ==> (#[trigger] bundles[i]).locale@
            != (#[trigger] bundles[j]).locale@
}

proof fn lemma_locale_entry(bundles: Seq<LocaleBundle>, locale: Seq<char>)
    ensures
        match locale_entry(bundles, locale) {
            Some(i) => 0 <= i < bundles.len() && bundles[i].locale@ == locale && forall|k: int|
                0 <= k < i ==> (#[trigger] bundles[k]).locale@ != locale,
            None => forall|k: int| 0 <= k < bundles.len() ==> (#[trigger] bundles[k]).locale@ != locale,
        },
    decreases bundles.len(),
{
    if bundles.len() > 0 {
        lemma_locale_entry(bundles.drop_last(), locale);
        let prefix = bundles.drop_last();
        assert forall|k: int| 0 <= k < prefix.len() implies prefix[k] == bundles[k] by {}
    }
}

/// Find the entry for `locale`.
fn find_locale(bundles: &Vec<LocaleBundle>, locale: &String) -> (index: Option<usize>)
    ensures
        match index {
            Some(i) => i < bundles.len() && locale_entry(bundles@, locale@) == Some(i as int),
            None => locale_entry(bundles@, locale@) is None,
        },
{
    proof {
        lemma_locale_entry(bundles@, locale@);
    }
    let mut i: usize = 0;
    while i < bundles.len()
        invariant
            i <= bundles.len(),
            forall|k: int| 0 <= k < i ==> (#[trigger] bundles@[k]).locale@ != locale@,
            match locale_entry(bundles@, locale@) {
                Some(e) => 0 <= e < bundles.len() && bundles@[e].locale@ == locale@ && forall|k: int|
                    0 <= k < e ==> (#[trigger] bundles@[k]).locale@ != locale@,
                None => forall|k: int| 0 <= k < bundles.len() ==> (#[trigger] bundles@[k]).locale@ != locale@,
            },
        decreases bundles.len() - i,
    {
        if bundles[i].locale.eq(locale) {
            return Some(i);
        }
        i = i + 1;
    }
    None
}

/// Why a Fluent bundle could not be registered.
#[derive(Debug, Clone, PartialEq, Eq)]
pub enum I18nError {
    /// The language tag does not parse.
    InvalidLocale(String),
    /// The FTL source does not parse.
    InvalidResource(String),
    /// Fluent refused to add the resource to the bundle.
    BundleRejected(String),
}

/// Synchronous app-level localization registry.
pub struct AppI18n {
    /// Canonical tag of the active locale.
    pub active_locale: String,
    /// Font stack used for locales without a stack of their own.
    pub default_font_stack: Vec<String>,
    pub bundles: Vec<LocaleBundle>,
}

/// What `translate` gives for `key`: the active locale's formatted message when it has one,
/// else the key itself.
pub open spec fn translation(i18n: AppI18n, key: Seq<char>) -> Seq<char> {
    translation_in(i18n, i18n.active_locale@, key)
}

/// A message of `messages`, or the key itself when there is none.
pub open spec fn message_or_key(messages: Map<Seq<char>, Seq<char>>, key: Seq<char>) -> Seq<char> {
    if messages.contains_key(key) {
        messages[key]
    } else {
        key
    }
}

/// What `key` translates to while `locale` is active: the locale's formatted message when
/// it has one, else the key itself.
pub open spec fn translation_in(i18n: AppI18n, locale: Seq<char>, key: Seq<char>) -> Seq<char> {
    match locale_entry(i18n.bundles@, locale) {
        Some(i) => message_or_key(bundle_messages(i18n.bundles@[i].bundle), key),
        None => key,
    }
}

/// What `get_font_stack` gives: the active locale's non-empty stack, else the default stack.
pub open spec fn active_font_stack(i18n: AppI18n) -> Seq<String> {
    match locale_entry(i18n.bundles@, i18n.active_locale@) {
        Some(i) => if i18n.bundles@[i].font_stack@.len() > 0 {
            i18n.bundles@[i].font_stack@
        } else {
            i18n.default_font_stack@
        },
        None => i18n.default_font_stack@,
    }
}

impl AppI18n {
    /// The registry is well formed: no locale is registered twice, and every bundle was
    /// built by registration from a source with bounded number literals.
    pub open spec fn wf(&self) -> bool {
        &&& distinct_locales(self.bundles@)
        &&& forall|i: int| 0 <= i < self.bundles@.len() ==> formats_safely(#[trigger] self.bundles@[i].bundle)
    }

    /// An empty registry with `en-US` active.
    pub fn default() -> (i18n: Self)
        ensures
            i18n.wf(),
            i18n.active_locale@ == "en-US"@,
            i18n.default_font_stack@.len() == 0,
            i18n.bundles@.len() == 0,
    {
        Self { active_locale: owned("en-US"), default_font_stack: Vec::new(), bundles: Vec::new() }
    }

    /// An empty registry with the given locale active (stored in canonical form).
    #[must_use]
    pub fn new(active_locale: LanguageIdentifier) -> (i18n: Self)
        ensures
            i18n.wf(),
            i18n.active_locale@ == language_id_display(active_locale),
            i18n.default_font_stack@.len() == 0,
            i18n.bundles@.len() == 0,
    {
        Self { active_locale: language_id_text(&active_locale), default_font_stack: Vec::new(), bundles: Vec::new() }
    }

    /// Make `locale` the active locale (stored in canonical form).
    pub fn set_active_locale(&mut self, locale: LanguageIdentifier)
        ensures
            final(self).active_locale@ == language_id_display(locale),
            final(self).default_font_stack == old(self).default_font_stack,
            final(self).bundles == old(self).bundles,
    {
        self.active_locale = language_id_text(&locale);
    }

    /// Register (or replace) the bundle and font stack of `locale`.
    ///
    /// The first non-empty font stack registered also becomes the default stack.
    pub fn insert_bundle(&mut self, locale: String, bundle: LocaleMessages, font_stack: Vec<String>)
        requires
            old(self).wf(),
            formats_safely(bundle),
        ensures
            final(self).wf(),
            final(self).active_locale == old(self).active_locale,
            final(self).default_font_stack@ == if old(self).default_font_stack@.len() == 0 {
                font_stack@
            } else {
                old(self).default_font_stack@
            },
            locale_entry(final(self).bundles@, locale@) matches Some(i) && final(self).bundles@[i].bundle
                == bundle && final(self).bundles@[i].font_stack@ == font_stack@,
            forall|other: Seq<char>|
                other != locale@ ==> #[trigger] locale_entry(final(self).bundles@, other) == locale_entry(
                    old(self).bundles@,
                    other,
                ),
            forall|k: int|
                0 <= k < old(self).bundles@.len() && old(self).bundles@[k].locale@ != locale@ ==> #[trigger] final(self).bundles@[k] == old(self).bundles@[k],
    {
        if self.default_font_stack.len() == 0 {
            self.default_font_stack = clone_strings(&font_stack);
        }
        let ghost before = self.bundles@;
        proof {
            lemma_locale_entry(before, locale@);
        }
        match find_locale(&self.bundles, &locale) {
            Some(i) => {
                self.bundles.set(i, LocaleBundle { locale, bundle, font_stack });
                proof {
                    let after = self.bundles@;
                    lemma_locale_entry(after, after[i as int].locale@);
                    let x = locale_entry(after, after[i as int].locale@)->0;
                    if x < i {
                        assert(before[x].locale@ == after[x].locale@);
                    }
                    assert forall|a: int, b: int|
                        0 <= a < after.len() && 0 <= b < after.len() && a != b implies (#[trigger] after[a]).locale@
                        != (#[trigger] after[b]).locale@ by {
                        assert(before[a].locale@ != before[b].locale@);
                    }
                    lemma_locale_entry(after, locale@);
                    assert forall|other: Seq<char>| other != locale@ implies #[trigger] locale_entry(after, other)
                        == locale_entry(before, other) by {
                        lemma_locale_entry(after, other);
                        lemma_locale_entry(before, other);
                        match locale_entry(after, other) {
                            Some(x) => {
                                assert(before[x].locale@ == other);
                                match locale_entry(before, other) {
                                    Some(y) => {
                                        if y < x {
                                            assert(after[y].locale@ == other);
                                        } else if x < y {
                                            assert(before[x].locale@ == other);
                                        }
                                    },
                                    None => {},
                                }
                            },
                            None => {
                                match locale_entry(before, other) {
                                    Some(y) => {
                                        assert(after[y].locale@ == other);
                                    },
                                    None => {},
                                }
                            },
                        }
                    }
                }
            },
            None => {
                self.bundles.push(LocaleBundle { locale, bundle, font_stack });
                proof {
                    let after = self.bundles@;
                    let n = before.len() as int;
                    lemma_locale_entry(after, after[n].locale@);
                    let x = locale_entry(after, after[n].locale@)->0;
                    if x < n {
                        assert(before[x].locale@ == after[x].locale@);
                    }
                    assert forall|a: int, b: int|
                        0 <= a < after.len() && 0 <= b < after.len() && a != b implies (#[trigger] after[a]).locale@
                        != (#[trigger] after[b]).locale@ by {
                        if a < before.len() && b < before.len() {
                            assert(before[a].locale@ != before[b].locale@);
                        } else if a < before.len() {
                            assert(before[a].locale@ != locale@);
                        } else {
                            assert(before[b].locale@ != locale@);
                        }
                    }
                    assert(after.drop_last() =~= before);
                    lemma_locale_entry(after, locale@);
                    assert forall|other: Seq<char>| other != locale@ implies #[trigger] locale_entry(after, other)
                        == locale_entry(before, other) by {
                        assert(after.drop_last() =~= before);
                    }
                }
            },
        }
    }

    /// Translate `key` with the active locale's bundle, falling back to the key itself.
    #[must_use]
    pub fn translate(&self, key: &str) -> (text: String)
        requires
            self.wf(),
        ensures
            text@ == translation(*self, key@),
    {
        match find_locale(&self.bundles, &self.active_locale) {
            Some(i) => match bundle_format_message(&self.bundles[i].bundle, key) {
                Some(text) => text,
                None => owned(key),
            },
            None => owned(key),
        }
    }

    /// The font stack for the active locale, or the default stack.
    #[must_use]
    pub fn get_font_stack(&self) -> (stack: Vec<String>)
        ensures
            stack@ == active_font_stack(*self),
    {
        match find_locale(&self.bundles, &self.active_locale) {
            Some(i) => {
                if self.bundles[i].font_stack.len() > 0 {
                    clone_strings(&self.bundles[i].font_stack)
                } else {
                    clone_strings(&self.default_font_stack)
                }
            },
            None => clone_strings(&self.default_font_stack),
        }
    }

    /// Parse `ftl_source` for `locale` and register it with its font stack.
    ///
    /// The first bundle registered also becomes the active locale. Fails on a tag that does
    /// not parse, on FTL that does not parse, and when Fluent refuses the resource.
    pub fn register_bundle(&mut self, locale: &str, ftl_source: &str, font_stack: Vec<String>) -> (result: Result<(), I18nError>)
        requires
            old(self).wf(),
        ensures
            final(self).wf(),
            match result {
                Ok(()) => {
                    let tag = canonical_locale_tag(locale@)->0;
                    &&& canonical_locale_tag(locale@) is Some
                    &&& ftl_parses(ftl_source@)
                    &&& ftl_numbers_bounded(ftl_source@)
                    &&& fresh_bundle_accepts(locale@, ftl_source@)
                    &&& locale_entry(final(self).bundles@, tag) matches Some(i) && final(self).bundles@[i].bundle
                        == (registered_bundle(locale@, ftl_source@)->0).0 && final(self).bundles@[i].font_stack@
                        == font_stack@
                    &&& forall|key: Seq<char>| #[trigger] translation_in(*final(self), tag, key)
                        == message_or_key(ftl_bundle_messages(locale@, ftl_source@), key)
                    &&& final(self).active_locale@ == if old(self).bundles@.len() == 0 {
                        tag
                    } else {
                        old(self).active_locale@
                    }
                    &&& forall|other: Seq<char>|
                        other != tag ==> #[trigger] locale_entry(final(self).bundles@, other) == locale_entry(
                            old(self).bundles@,
                            other,
                        )
                    &&& forall|k: int|
                        0 <= k < old(self).bundles@.len() && old(self).bundles@[k].locale@ != tag
                            ==> #[trigger] final(self).bundles@[k] == old(self).bundles@[k]
                },
                Err(I18nError::InvalidLocale(_)) => canonical_locale_tag(locale@) is None && *final(self)
                    == *old(self),
                Err(I18nError::InvalidResource(_)) => canonical_locale_tag(locale@) is Some && !(ftl_parses(
                    ftl_source@,
                ) && ftl_numbers_bounded(ftl_source@)) && *final(self) == *old(self),
                Err(I18nError::BundleRejected(_)) => canonical_locale_tag(locale@) is Some && ftl_parses(
                    ftl_source@,
                ) && ftl_numbers_bounded(ftl_source@) && !fresh_bundle_accepts(locale@, ftl_source@) && *final(self) == *old(self),
            },
    {
        let locale_id = match parse_language_id(locale) {
            Some(parsed) => parsed,
            None => return Err(I18nError::InvalidLocale(owned(locale))),
        };
        let tag = language_id_text(&locale_id);
        let resource = match parse_ftl_resource(owned(ftl_source)) {
            Ok(resource) => resource,
            Err(errors) => return Err(I18nError::InvalidResource(errors)),
        };
        if has_long_fraction(ftl_source) {
            return Err(I18nError::InvalidResource(owned("a number literal has 20 or more fraction digits")));
        }
        let mut bundle = new_concurrent_bundle(locale_id);
        match bundle_add_resource(&mut bundle, resource) {
            Ok(()) => {},
            Err(errors) => return Err(I18nError::BundleRejected(errors)),
        }
        if self.bundles.len() == 0 {
            self.active_locale = tag.clone();
        }
        let ghost stored = bundle;
        proof {
            assert(registered_bundle(locale@, ftl_source@) == Some((stored, true)));
            assert(formats_safely(stored));
        }
        self.insert_bundle(tag, bundle, font_stack);
        proof {
            let t = canonical_locale_tag(locale@)->0;
            assert((registered_bundle(locale@, ftl_source@)->0).0 == stored);
            assert forall|key: Seq<char>| #[trigger] translation_in(*self, t, key) == message_or_key(
                ftl_bundle_messages(locale@, ftl_source@),
                key,
            ) by {
                lemma_locale_entry(self.bundles@, t);
            }
        }
        Ok(())
    }
}

/// Register, then translate: once the registered locale is active, a key translates to the
/// message the registered FTL source gives it, or to itself when the source has none.
pub proof fn lemma_register_then_translate(i18n: AppI18n, locale: Seq<char>, source: Seq<char>, key: Seq<char>)
    requires
        canonical_locale_tag(locale) is Some,
        i18n.active_locale@ == canonical_locale_tag(locale)->0,
        forall|k: Seq<char>| #[trigger] translation_in(i18n, canonical_locale_tag(locale)->0, k)
            == message_or_key(ftl_bundle_messages(locale, source), k),
    ensures
        translation(i18n, key) == message_or_key(ftl_bundle_messages(locale, source), key),
{
    assert(translation_in(i18n, canonical_locale_tag(locale)->0, key) == message_or_key(
        ftl_bundle_messages(locale, source),
        key,
    ));
}

/// Registering a bundle never changes what another locale translates to.
pub proof fn lemma_register_keeps_other_locales(before: AppI18n, after: AppI18n, tag: Seq<char>, other: Seq<char>, key: Seq<char>)
    requires
        before.wf(),
        other != tag,
        forall|o: Seq<char>| o != tag ==> #[trigger] locale_entry(after.bundles@, o) == locale_entry(before.bundles@, o),
        forall|k: int|
            0 <= k < before.bundles@.len() && before.bundles@[k].locale@ != tag ==> #[trigger] after.bundles@[k]
                == before.bundles@[k],
    ensures
        translation_in(after, other, key) == translation_in(before, other, key),
{
    lemma_locale_entry(before.bundles@, other);
    assert(locale_entry(after.bundles@, other) == locale_entry(before.bundles@, other));
}

/// Reading back a registered locale's stack: once a locale with a non-empty stack is active,
/// its stack is the one in use.
pub proof fn lemma_registered_stack_in_use(i18n: AppI18n, i: int)
    requires
        i18n.wf(),
        0 <= i < i18n.bundles@.len(),
        i18n.bundles@[i].locale@ == i18n.active_locale@,
        i18n.bundles@[i].font_stack@.len() > 0,
    ensures
        active_font_stack(i18n) == i18n.bundles@[i].font_stack@,
{
    lemma_locale_entry(i18n.bundles@, i18n.active_locale@);
    let e = locale_entry(i18n.bundles@, i18n.active_locale@)->0;
    if e != i {
        assert(i18n.bundles@[e].locale@ != i18n.bundles@[i].locale@);
    }
}

/// A key the active bundle does not know translates to itself.
pub proof fn lemma_missing_key_falls_back(i18n: AppI18n, key: Seq<char>)
    requires
        locale_entry(i18n.bundles@, i18n.active_locale@) matches Some(i) ==> !bundle_messages(
            i18n.bundles@[i].bundle,
        ).contains_key(key),
    ensures
        translation(i18n, key) == key,
{
}

/// Text for an entity that may carry a localization key: the translation when a registry
/// exists; without a registry the fallback text, or the key when the fallback is empty;
/// the fallback text for an entity without a key.
pub open spec fn localized_text(key: Option<Seq<char>>, i18n: Option<AppI18n>, fallback: Seq<char>) -> Seq<char> {
    match key {
        None => fallback,
        Some(key) => match i18n {
            Some(i18n) => translation(i18n, key),
            None => if fallback.len() == 0 {
                key
            } else {
                fallback
            },
        },
    }
}

/// Resolve the text of an entity carrying an optional `LocalizeText` key.
#[must_use]
pub fn resolve_localized_text(localize_key: Option<&str>, i18n: Option<&AppI18n>, fallback: &str) -> (text: String)
    requires
        i18n matches Some(r) ==> r.wf(),
    ensures
        text@ == localized_text(
            match localize_key {
                Some(k) => Some(k@),
                None => None,
            },
            match i18n {
                Some(i) => Some(*i),
                None => None,
            },
            fallback@,
        ),
{
    match localize_key {
        None => owned(fallback),
        Some(key) => match i18n {
            Some(i18n) => i18n.translate(key),
            None => {
                if fallback.is_empty() {
                    owned(key)
                } else {
                    owned(fallback)
                }
            },
        },
    }
}

/// Text for an optional translation key with a fallback (the same rule as
/// [`resolve_localized_text`]).
#[must_use]
pub fn translate_text(i18n: Option<&AppI18n>, key: Option<&str>, fallback: &str) -> (text: String)
    requires
        i18n matches Some(r) ==> r.wf(),
    ensures
        text@ == localized_text(
            match key {
                Some(k) => Some(k@),
                None => None,
            },
            match i18n {
                Some(i) => Some(*i),
                None => None,
            },
            fallback@,
        ),
{
    resolve_localized_text(key, i18n, fallback)
}

/// The registry's font stack when there is a registry and the stack is not empty.
#[must_use]
pub fn app_i18n_font_stack(i18n: Option<&AppI18n>) -> (stack: Option<Vec<String>>)
    ensures
        match i18n {
            Some(i) => if active_font_stack(*i).len() > 0 {
                stack matches Some(s) && s@ == active_font_stack(*i)
            } else {
                stack is None
            },
            None => stack is None,
        },
{
    match i18n {
        Some(i18n) => {
            let stack = i18n.get_font_stack();
            if stack.len() > 0 {
                Some(stack)
            } else {
                None
            }
        },
        None => None,
    }
}

/// The font stack for localized text: only entities carrying a localization key get one.
#[must_use]
pub fn localized_font_stack(has_localize_text: bool, i18n: Option<&AppI18n>) -> (stack: Option<Vec<String>>)
    ensures
        !has_localize_text ==> stack is None,
        has_localize_text ==> match i18n {
            Some(i) => if active_font_stack(*i).len() > 0 {
                stack matches Some(s) && s@ == active_font_stack(*i)
            } else {
                stack is None
            },
            None => stack is None,
        },
{
    if !has_localize_text {
        return None;
    }
    app_i18n_font_stack(i18n)
}

/// A locale → font-stack mapping with a default stack.
pub struct LocaleFontRegistry {
    pub default_font_stack: Vec<String>,
    /// Locale tag and its stack; no tag appears twice.
    pub locale_mappings: Vec<(String, Vec<String>)>,
}

/// The position of the mapping for `locale`, if there is one.
pub open spec fn mapping_entry(mappings: Seq<(String, Vec<String>)>, locale: Seq<char>) -> Option<int>
    decreases mappings.len(),
{
    if mappings.len() == 0 {
        None
    } else {
        match mapping_entry(mappings.drop_last(), locale) {
            Some(i) => Some(i),
            None => if mappings.last().0@ == locale {
                Some(mappings.len() - 1)
            } else {
                None
            },
        }
    }
}

proof fn lemma_mapping_entry(mappings: Seq<(String, Vec<String>)>, locale: Seq<char>)
    ensures
        match mapping_entry(mappings, locale) {
            Some(i) => 0 <= i < mappings.len() && mappings[i].0@ == locale && forall|k: int|
                0 <= k < i ==> (#[trigger] mappings[k]).0@ != locale,
            None => forall|k: int| 0 <= k < mappings.len() ==> (#[trigger] mappings[k]).0@ != locale,
        },
    decreases mappings.len(),
{
    if mappings.len() > 0 {
        lemma_mapping_entry(mappings.drop_last(), locale);
        let prefix = mappings.drop_last();
        assert forall|k: int| 0 <= k < prefix.len() implies prefix[k] == mappings[k] by {}
    }
}

fn find_mapping(mappings: &Vec<(String, Vec<String>)>, locale: &String) -> (index: Option<usize>)
    ensures
        match index {
            Some(i) => i < mappings.len() && mapping_entry(mappings@, locale@) == Some(i as int),
            None => mapping_entry(mappings@, locale@) is None,
        },
{
    proof {
        lemma_mapping_entry(mappings@, locale@);
    }
    let mut i: usize = 0;
    while i < mappings.len()
        invariant
            i <= mappings.len(),
            forall|k: int| 0 <= k < i ==> (#[trigger] mappings@[k]).0@ != locale@,
            match mapping_entry(mappings@, locale@) {
                Some(e) => 0 <= e < mappings.len() && mappings@[e].0@ == locale@ && forall|k: int|
                    0 <= k < e ==> (#[trigger] mappings@[k]).0@ != locale@,
                None => forall|k: int| 0 <= k < mappings.len() ==> (#[trigger] mappings@[k]).0@ != locale@,
            },
        decreases mappings.len() - i,
    {
        if mappings[i].0.eq(locale) {
            return Some(i);
        }
        i = i + 1;
    }
    None
}

/// The stack for `locale`: its non-empty mapping, else the non-empty default, else none.
pub open spec fn registry_stack(registry: LocaleFontRegistry, locale: Seq<char>) -> Option<Seq<String>> {
    match mapping_entry(registry.locale_mappings@, locale) {
        Some(i) if registry.locale_mappings@[i].1@.len() > 0 => Some(registry.locale_mappings@[i].1@),
        _ => if registry.default_font_stack@.len() > 0 {
            Some(registry.default_font_stack@)
        } else {
            None
        },
    }
}

/// Copies a list of string slices into owned strings.
pub fn to_strings(values: &Vec<&str>) -> (res: Vec<String>)
    ensures
        res@.len() == values@.len(),
        forall|i: int| 0 <= i < values@.len() ==> (#[trigger] res@[i])@ == values@[i]@,
{
    let mut res: Vec<String> = Vec::new();
    let mut i: usize = 0;
    while i < values.len()
        invariant
            i <= values.len(),
            res@.len() == i,
            forall|k: int| 0 <= k < i ==> (#[trigger] res@[k])@ == values@[k]@,
        decreases values.len() - i,
    {
        res.push(owned(values[i]));
        i = i + 1;
    }
    res
}

impl LocaleFontRegistry {
    /// No mappings and no default stack.
    pub fn default() -> (registry: Self)
        ensures
            registry.default_font_stack@.len() == 0,
            registry.locale_mappings@.len() == 0,
    {
        Self { default_font_stack: Vec::new(), locale_mappings: Vec::new() }
    }

    /// Map `locale` to `stack`, replacing an earlier mapping of the same locale.
    #[must_use]
    pub fn add_mapping(self, locale: &str, stack: Vec<&str>) -> (registry: Self)
        ensures
            registry.default_font_stack == self.default_font_stack,
            mapping_entry(registry.locale_mappings@, locale@) matches Some(i) && registry.locale_mappings@[i].1@.len()
                == stack@.len() && forall|k: int|
                0 <= k < stack@.len() ==> (#[trigger] registry.locale_mappings@[i].1@[k])@ == stack@[k]@,
            forall|other: Seq<char>|
                other != locale@ ==> #[trigger] mapping_entry(registry.locale_mappings@, other) == mapping_entry(
                    self.locale_mappings@,
                    other,
                ),
            forall|k: int|
                0 <= k < self.locale_mappings@.len() && self.locale_mappings@[k].0@ != locale@ ==> #[trigger] registry.locale_mappings@[k]
                    == self.locale_mappings@[k],
    {
        let mut registry = self;
        let key = owned(locale);
        let stack = to_strings(&stack);
        let ghost before = registry.locale_mappings@;
        proof {
            lemma_mapping_entry(before, locale@);
        }
        match find_mapping(&registry.locale_mappings, &key) {
            Some(i) => {
                registry.locale_mappings.set(i, (key, stack));
                proof {
                    let after = registry.locale_mappings@;
                    assert(after[i as int].0@ == locale@);
                    lemma_mapping_entry(after, locale@);
                    match mapping_entry(after, locale@) {
                        Some(x) => {
                            if x < i {
                                assert(after[x] == before[x]);
                            }
                        },
                        None => {
                            assert(after[i as int].0@ != locale@);
                        },
                    }
                    assert forall|other: Seq<char>| other != locale@ implies #[trigger] mapping_entry(after, other)
                        == mapping_entry(before, other) by {
                        lemma_mapping_entry(after, other);
                        lemma_mapping_entry(before, other);
                        match mapping_entry(after, other) {
                            Some(x) => {
                                assert(before[x].0@ == other);
                                match mapping_entry(before, other) {
                                    Some(y) => {
                                        if y < x {
                                            assert(after[y].0@ == other);
                                        } else if x < y {
                                            assert(before[x].0@ == other);
                                        }
                                    },
                                    None => {},
                                }
                            },
                            None => {
                                match mapping_entry(before, other) {
                                    Some(y) => {
                                        assert(after[y].0@ == other);
                                    },
                                    None => {},
                                }
                            },
                        }
                    }
                }
            },
            None => {
                registry.locale_mappings.push((key, stack));
                proof {
                    let after = registry.locale_mappings@;
                    assert(after.drop_last() =~= before);
                    lemma_mapping_entry(after, locale@);
                    let x = mapping_entry(after, locale@)->0;
                    if x < before.len() {
                        assert(before[x].0@ == after[x].0@);
                    }
                }
            },
        }
        registry
    }

    /// Replace the default stack.
    #[must_use]
    pub fn set_default(self, stack: Vec<&str>) -> (registry: Self)
        ensures
            registry.locale_mappings == self.locale_mappings,
            registry.default_font_stack@.len() == stack@.len(),
            forall|k: int| 0 <= k < stack@.len() ==> (#[trigger] registry.default_font_stack@[k])@ == stack@[k]@,
    {
        let mut registry = self;
        registry.default_font_stack = to_strings(&stack);
        registry
    }

    /// The stack for `locale`: the non-empty mapping of its canonical tag, else the
    /// non-empty default, else none.
    #[must_use]
    pub fn font_stack_for_locale(&self, locale: &LanguageIdentifier) -> (stack: Option<Vec<String>>)
        ensures
            match stack {
                Some(s) => registry_stack(*self, language_id_display(*locale)) == Some(s@),
                None => registry_stack(*self, language_id_display(*locale)) is None,
            },
    {
        let tag = language_id_text(locale);
        self.font_stack_for_tag(tag.as_str())
    }

    /// The stack for a locale given by its tag text: its non-empty mapping, else the
    /// non-empty default, else none.
    #[must_use]
    pub fn font_stack_for_tag(&self, locale: &str) -> (stack: Option<Vec<String>>)
        ensures
            match stack {
                Some(s) => registry_stack(*self, locale@) == Some(s@),
                None => registry_stack(*self, locale@) is None,
            },
    {
        let key = owned(locale);
        match find_mapping(&self.locale_mappings, &key) {
            Some(i) => {
                if self.locale_mappings[i].1.len() > 0 {
                    return Some(clone_strings(&self.locale_mappings[i].1));
                }
            },
            None => {},
        }
        if self.default_font_stack.len() == 0 {
            None
        } else {
            Some(clone_strings(&self.default_font_stack))
        }
    }
}

/// Give a resolved style the locale's font stack when it has none of its own.
///
/// The locale is the registry's active locale, or `en-US` without a registry.
pub fn apply_locale_font_family_fallback(
    i18n: Option<&AppI18n>,
    registry: Option<&LocaleFontRegistry>,
    style: &mut ResolvedStyle,
)
    ensures
        old(style).font_family is Some ==> *final(style) == *old(style),
        old(style).font_family is None ==> ({
            let locale = match i18n {
                Some(i) => i.active_locale@,
                None => "en-US"@,
            };
            let stack = match registry {
                Some(r) => registry_stack(*r, locale),
                None => None,
            };
            final(style)@ == ResolvedValues { font_family: stack, ..old(style)@ }
        }),
{
    if style.font_family.is_some() {
        return;
    }
    let locale = match i18n {
        Some(i18n) => i18n.active_locale.clone(),
        None => owned("en-US"),
    };
    let stack = match registry {
        Some(registry) => registry.font_stack_for_tag(locale.as_str()),
        None => None,
    };
    if stack.is_some() {
        style.font_family = stack;
    }
}

} // verus!
