//! ECS-driven UI projection core: component data, style cascade, overlay and
//! widget interaction rules, localization fallbacks and activation helpers.
pub mod ecs;
pub mod style;
pub mod style_sync;
pub mod overlay;
pub mod widget_actions;
pub mod widgets;
pub mod templates;
pub mod i18n;
pub mod text;
pub mod activation;
pub mod runtime;
pub mod projection;
pub mod plugin;
pub mod pointer;
