use bevy_xilem::i18n::{
    apply_locale_font_family_fallback, resolve_localized_text, AppI18n, I18nError,
    LocaleFontRegistry,
};
use bevy_xilem::style::ResolvedStyle;
use unic_langid::LanguageIdentifier;

fn langid(tag: &str) -> LanguageIdentifier {
    tag.parse().expect("locale identifier should parse")
}

const EN_US_FTL: &str = "hello_world = Hello, world!\n";
const ZH_CN_FTL: &str = "hello_world = 你好，世界！\n";

fn strings(values: &[&str]) -> Vec<String> {
    values.iter().map(|value| value.to_string()).collect()
}

#[test]
fn app_i18n_translate_falls_back_to_key() {
    let i18n = AppI18n::default();
    assert_eq!(i18n.translate("missing-key"), "missing-key");
}

#[test]
fn locale_font_registry_prefers_locale_mapping() {
    let registry = LocaleFontRegistry::default()
        .set_default(vec!["Default Sans", "sans-serif"])
        .add_mapping("fr-FR", vec!["French Sans", "sans-serif"]);

    let fr: LanguageIdentifier = "fr-FR"
        .parse()
        .expect("fr-FR locale identifier should parse");

    assert_eq!(
        registry.font_stack_for_locale(&fr),
        Some(vec!["French Sans".to_string(), "sans-serif".to_string()])
    );
}

#[test]
fn resolve_localized_text_falls_back_when_cache_is_missing() {
    let with_fallback = resolve_localized_text(Some("hello_world"), None, "Fallback");
    let without_fallback = resolve_localized_text(Some("hello_world"), None, "");

    assert_eq!(with_fallback, "Fallback");
    assert_eq!(without_fallback, "hello_world");
}

#[test]
fn app_i18n_resolves_showcase_hello_world_for_zh_cn() {
    let mut i18n = AppI18n::new(langid("zh-CN"));
    i18n.register_bundle("zh-CN", ZH_CN_FTL, strings(&["Inter", "Noto Sans CJK SC", "sans-serif"]))
        .expect("bundle registers");
    assert_eq!(i18n.translate("hello_world"), "你好，世界！");
}

#[test]
fn resolve_localized_text_prefers_translation_over_uilabel_fallback() {
    let mut i18n = AppI18n::new(langid("zh-CN"));
    i18n.register_bundle("zh-CN", ZH_CN_FTL, strings(&["Inter", "Noto Sans CJK SC", "sans-serif"]))
        .expect("bundle registers");
    let text = resolve_localized_text(Some("hello_world"), Some(&i18n), "Hello world");
    assert_eq!(text, "你好，世界！");
}

#[test]
fn localized_text_updates_after_active_locale_change() {
    let mut i18n = AppI18n::new(langid("en-US"));
    i18n.register_bundle("en-US", EN_US_FTL, strings(&["Inter", "sans-serif"]))
        .expect("en-US bundle registers");
    i18n.register_bundle("zh-CN", ZH_CN_FTL, strings(&["Inter", "Noto Sans CJK SC", "sans-serif"]))
        .expect("zh-CN bundle registers");

    assert_eq!(
        resolve_localized_text(Some("hello_world"), Some(&i18n), "Hello world"),
        "Hello, world!"
    );
    i18n.set_active_locale(langid("zh-CN"));
    assert_eq!(
        resolve_localized_text(Some("hello_world"), Some(&i18n), "Hello world"),
        "你好，世界！"
    );
}

#[test]
fn register_i18n_bundle_stores_locale_font_stacks_in_app_i18n() {
    let mut i18n = AppI18n::default();
    i18n.register_bundle("en-US", EN_US_FTL, strings(&["Inter", "sans-serif"]))
        .expect("en-US bundle registers");
    i18n.register_bundle("zh-CN", ZH_CN_FTL, strings(&["Inter", "Noto Sans CJK SC", "sans-serif"]))
        .expect("zh-CN bundle registers");

    assert_eq!(
        i18n.get_font_stack(),
        vec!["Inter".to_string(), "sans-serif".to_string()]
    );

    i18n.set_active_locale(langid("zh-CN"));
    assert_eq!(
        i18n.get_font_stack(),
        vec![
            "Inter".to_string(),
            "Noto Sans CJK SC".to_string(),
            "sans-serif".to_string()
        ]
    );

    i18n.set_active_locale(langid("ja-JP"));
    assert_eq!(
        i18n.get_font_stack(),
        vec!["Inter".to_string(), "sans-serif".to_string()]
    );
}

#[test]
fn first_registered_bundle_becomes_active() {
    let mut i18n = AppI18n::new(langid("fr-FR"));
    i18n.register_bundle("de-DE", "greeting = Hallo\n", strings(&["Sans"]))
        .expect("bundle registers");
    assert_eq!(i18n.active_locale, "de-DE");
    assert_eq!(i18n.translate("greeting"), "Hallo");
    assert_eq!(i18n.translate("farewell"), "farewell");
}

#[test]
fn register_bundle_reports_each_error() {
    let mut i18n = AppI18n::default();
    assert!(matches!(
        i18n.register_bundle("not a locale!", EN_US_FTL, Vec::new()),
        Err(I18nError::InvalidLocale(_))
    ));
    assert!(matches!(
        i18n.register_bundle("en-US", "= broken", Vec::new()),
        Err(I18nError::InvalidResource(_))
    ));
    assert!(matches!(
        i18n.register_bundle("en-US", "a = 1\na = 2\n", Vec::new()),
        Err(I18nError::InvalidResource(_)) | Err(I18nError::BundleRejected(_))
    ));
    assert_eq!(i18n.bundles.len(), 0);
}

#[test]
fn registering_a_locale_again_replaces_its_stack() {
    let mut i18n = AppI18n::default();
    i18n.register_bundle("en-US", EN_US_FTL, strings(&["Inter"])).expect("registers");
    i18n.register_bundle("en-US", EN_US_FTL, strings(&["Roboto"])).expect("registers");
    assert_eq!(i18n.bundles.len(), 1);
    assert_eq!(i18n.get_font_stack(), vec!["Roboto".to_string()]);
}

#[test]
fn locale_font_registry_falls_back_to_default_then_none() {
    let registry = LocaleFontRegistry::default()
        .set_default(vec!["Default Sans"])
        .add_mapping("de-DE", vec![]);
    assert_eq!(registry.font_stack_for_locale(&langid("de-DE")), Some(vec!["Default Sans".to_string()]));
    assert_eq!(registry.font_stack_for_tag("it-IT"), Some(vec!["Default Sans".to_string()]));
    assert_eq!(LocaleFontRegistry::default().font_stack_for_locale(&langid("it-IT")), None);
}

#[test]
fn locale_font_fallback_only_fills_missing_family() {
    let registry = LocaleFontRegistry::default().add_mapping("en-US", vec!["Inter"]);
    let mut style = ResolvedStyle::default();
    apply_locale_font_family_fallback(None, Some(&registry), &mut style);
    assert_eq!(style.font_family, Some(vec!["Inter".to_string()]));

    let mut styled = ResolvedStyle::default();
    styled.font_family = Some(vec!["Mono".to_string()]);
    apply_locale_font_family_fallback(None, Some(&registry), &mut styled);
    assert_eq!(styled.font_family, Some(vec!["Mono".to_string()]));
}

#[test]
fn locale_tags_are_stored_in_canonical_form() {
    let mut i18n = AppI18n::default();
    i18n.register_bundle("EN-us", EN_US_FTL, strings(&["Inter"]))
        .expect("bundle registers");
    assert_eq!(i18n.bundles[0].locale, "en-US");
    assert_eq!(i18n.active_locale, "en-US");
    assert_eq!(i18n.translate("hello_world"), "Hello, world!");
}

#[test]
fn active_locale_is_stored_canonically() {
    let mut i18n = AppI18n::default();
    i18n.register_bundle("zh-CN", ZH_CN_FTL, strings(&["Noto Sans CJK SC"]))
        .expect("bundle registers");
    i18n.set_active_locale(langid("ZH-cn"));
    assert_eq!(i18n.active_locale, "zh-CN");
    assert_eq!(i18n.translate("hello_world"), "你好，世界！");
    assert_eq!(
        LocaleFontRegistry::default()
            .add_mapping("zh-CN", vec!["Noto"])
            .font_stack_for_locale(&langid("zh-cn")),
        Some(vec!["Noto".to_string()])
    );
}

#[test]
fn number_literals_with_twenty_fraction_digits_are_refused() {
    let mut i18n = AppI18n::default();
    let source = "key = { 1.00000000000000000000 ->\n   *[other] x\n}\n";
    assert!(matches!(
        i18n.register_bundle("en-US", source, Vec::new()),
        Err(I18nError::InvalidResource(_))
    ));
    assert_eq!(i18n.bundles.len(), 0);

    let bounded = "key = { 1.0000000000000000000 ->\n   *[other] x\n}\n";
    i18n.register_bundle("en-US", bounded, Vec::new()).expect("registers");
    assert_eq!(i18n.translate("key"), "x");
}
