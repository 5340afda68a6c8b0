//! The four settings that a run needs from its environment.

use crate::text::optional_text;
use vstd::prelude::*;

verus! {

/// One of the settings, in the order in which they are looked for.
#[derive(Clone, Copy, Debug, PartialEq, Eq, Structural)]
pub enum Setting {
    /// The token of the notification bot.
    BotToken,
    /// The identifier of the channel that notifications go to.
    ChatId,
    /// The key for the exchange's interface.
    ApiKey,
    /// The secret that belongs to the key.
    SecretKey,
}

/// Why a run cannot begin.
#[derive(Clone, Copy, Debug, PartialEq, Eq, Structural)]
pub enum ConfigError {
    /// The environment does not hold this setting.
    Missing(Setting),
}

/// The name of the environment variable that holds `setting`.
pub open spec fn variable_name(setting: Setting) -> Seq<char> {
    match setting {
        Setting::BotToken => "TELEGRAM_BOT_TOKEN"@,
        Setting::ChatId => "TELEGRAM_CHAT_ID"@,
        Setting::ApiKey => "BINANCE_API_KEY"@,
        Setting::SecretKey => "BINANCE_SECRET_KEY"@,
    }
}

impl Setting {
    /// The name of the environment variable that holds this setting.
    pub fn variable(&self) -> (name: &'static str)
        ensures
            name@ == variable_name(*self),
    {
        match self {
            Setting::BotToken => "TELEGRAM_BOT_TOKEN",
            Setting::ChatId => "TELEGRAM_CHAT_ID",
            Setting::ApiKey => "BINANCE_API_KEY",
            Setting::SecretKey => "BINANCE_SECRET_KEY",
        }
    }
}

/// Mathematical value of [`Settings`].
pub struct SettingsView {
    pub bot_token: Seq<char>,
    pub chat_id: Seq<char>,
    pub api_key: Seq<char>,
    pub secret_key: Seq<char>,
}

/// The settings of a run, all of them present.
#[derive(Debug)]
pub struct Settings {
    pub bot_token: String,
    pub chat_id: String,
    pub api_key: String,
    pub secret_key: String,
}

impl View for Settings {
    type V = SettingsView;

    open spec fn view(&self) -> SettingsView {
        SettingsView {
            bot_token: self.bot_token@,
            chat_id: self.chat_id@,
            api_key: self.api_key@,
            secret_key: self.secret_key@,
        }
    }
}

impl Clone for Settings {
    fn clone(&self) -> (copy: Self)
        ensures
            copy@ == self@,
    {
        Settings {
            bot_token: self.bot_token.clone(),
            chat_id: self.chat_id.clone(),
            api_key: self.api_key.clone(),
            secret_key: self.secret_key.clone(),
        }
    }
}

/// What the four values found in the environment come to: the settings, or
/// the first one that is missing.
pub open spec fn settings_of(
    bot_token: Option<Seq<char>>,
    chat_id: Option<Seq<char>>,
    api_key: Option<Seq<char>>,
    secret_key: Option<Seq<char>>,
) -> Result<SettingsView, ConfigError> {
    if bot_token is None {
        Err(ConfigError::Missing(Setting::BotToken))
    } else if chat_id is None {
        Err(ConfigError::Missing(Setting::ChatId))
    } else if api_key is None {
        Err(ConfigError::Missing(Setting::ApiKey))
    } else if secret_key is None {
        Err(ConfigError::Missing(Setting::SecretKey))
    } else {
        Ok(
            SettingsView {
                bot_token: bot_token->Some_0,
                chat_id: chat_id->Some_0,
                api_key: api_key->Some_0,
                secret_key: secret_key->Some_0,
            },
        )
    }
}

/// `built` is the settings or the error that `outcome` names.
pub open spec fn configured_as(
    built: Result<Settings, ConfigError>,
    outcome: Result<SettingsView, ConfigError>,
) -> bool {
    match built {
        Ok(settings) => outcome == Ok::<SettingsView, ConfigError>(settings@),
        Err(error) => outcome == Err::<SettingsView, ConfigError>(error),
    }
}

impl Settings {
    /// Puts the settings together from what the environment holds for each.
    ///
    /// Every one of the four is needed. Where some are missing, the error
    /// names the first of them.
    pub fn from_values(
        bot_token: Option<String>,
        chat_id: Option<String>,
        api_key: Option<String>,
        secret_key: Option<String>,
    ) -> (built: Result<Settings, ConfigError>)
        ensures
            configured_as(
                built,
                settings_of(
                    optional_text(bot_token),
                    optional_text(chat_id),
                    optional_text(api_key),
                    optional_text(secret_key),
                ),
            ),
    {
        match bot_token {
            None => Err(ConfigError::Missing(Setting::BotToken)),
            Some(bot_token) => match chat_id {
                None => Err(ConfigError::Missing(Setting::ChatId)),
                Some(chat_id) => match api_key {
                    None => Err(ConfigError::Missing(Setting::ApiKey)),
                    Some(api_key) => match secret_key {
                        None => Err(ConfigError::Missing(Setting::SecretKey)),
                        Some(secret_key) => Ok(
                            Settings { bot_token, chat_id, api_key, secret_key },
                        ),
                    },
                },
            },
        }
    }
}

} // verus!
