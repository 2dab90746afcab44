//! The application's settings.

use vstd::prelude::*;
use crate::provider::ProviderKind;

verus! {

/// The colour theme.
#[derive(Debug, Clone, Copy, PartialEq, Eq, Structural)]
pub enum ThemeMode {
    Light,
    Dark,
    System,
}

/// The settings of the language-model features.
#[derive(Debug, Clone, PartialEq, Eq)]
pub struct AiConfig {
    pub enabled: bool,
    pub provider: ProviderKind,
    pub model: String,
    pub base_url: Option<String>,
}

/// All settings of the application.
#[derive(Debug, Clone, PartialEq, Eq)]
pub struct AppConfig {
    pub theme: ThemeMode,
    pub locale: String,
    pub ai: AiConfig,
}

impl Default for AppConfig {
    /// The settings of a fresh installation: the system's theme, the locale
    /// `zh-CN`, and the language-model features switched on with OpenAI's
    /// `gpt-4o` at its usual address.
    fn default() -> (config: AppConfig)
        ensures
            config.theme == ThemeMode::System,
            config.locale@ == "zh-CN"@,
            config.ai.enabled,
            config.ai.provider == ProviderKind::OpenAI,
            config.ai.model@ == "gpt-4o"@,
            config.ai.base_url is None,
    {
        AppConfig {
            theme: ThemeMode::System,
            locale: String::from_str("zh-CN"),
            ai: AiConfig {
                enabled: true,
                provider: ProviderKind::OpenAI,
                model: String::from_str("gpt-4o"),
                base_url: None,
            },
        }
    }
}

} // verus!
