use status_monitor::config::{ConfigError, Setting, Settings};
use status_monitor::error::{FetchError, NotifyError};
use status_monitor::notes::{note_for_action, note_for_event};
use status_monitor::notify::{delivery_outcome, SinkReply};
use status_monitor::poll_loop::{Action, Dependency, Event, StartupFailure};
use status_monitor::snapshot::StatusSnapshot;

#[test]
fn only_an_acknowledgment_is_a_delivery() {
    assert_eq!(delivery_outcome(SinkReply::Ack), Ok(()));
    assert_eq!(delivery_outcome(SinkReply::Error), Err(NotifyError::DeliveryFailed));
    assert_eq!(delivery_outcome(SinkReply::Timeout), Err(NotifyError::Timeout));
}

#[test]
fn errors_describe_themselves() {
    assert_eq!(FetchError::Transport.describe(), "Exchange request failed");
    assert_eq!(FetchError::AssetNotFound.describe(), "No Avax found");
    assert_eq!(FetchError::Parse.describe(), "Error with json parsing network");
    assert_eq!(NotifyError::Timeout.describe(), "Notification timed out");
    assert_eq!(NotifyError::DeliveryFailed.describe(), "Notification was not delivered");
}

#[test]
fn settings_have_their_variables() {
    assert_eq!(Setting::BotToken.variable(), "TELEGRAM_BOT_TOKEN");
    assert_eq!(Setting::ChatId.variable(), "TELEGRAM_CHAT_ID");
    assert_eq!(Setting::ApiKey.variable(), "BINANCE_API_KEY");
    assert_eq!(Setting::SecretKey.variable(), "BINANCE_SECRET_KEY");
}

fn some(text: &str) -> Option<String> {
    Some(text.to_string())
}

#[test]
fn complete_settings_are_taken_as_they_are() {
    let settings = Settings::from_values(some("token"), some("-1001"), some("key"), some("secret"))
        .expect("all four are there");
    assert_eq!(settings.bot_token, "token");
    assert_eq!(settings.chat_id, "-1001");
    assert_eq!(settings.api_key, "key");
    assert_eq!(settings.secret_key, "secret");
}

#[test]
fn each_missing_setting_is_named() {
    assert_eq!(
        Settings::from_values(None, some("1"), some("k"), some("s")).err(),
        Some(ConfigError::Missing(Setting::BotToken))
    );
    assert_eq!(
        Settings::from_values(some("t"), None, some("k"), some("s")).err(),
        Some(ConfigError::Missing(Setting::ChatId))
    );
    assert_eq!(
        Settings::from_values(some("t"), some("1"), None, some("s")).err(),
        Some(ConfigError::Missing(Setting::ApiKey))
    );
    assert_eq!(
        Settings::from_values(some("t"), some("1"), some("k"), None).err(),
        Some(ConfigError::Missing(Setting::SecretKey))
    );
}

#[test]
fn the_first_missing_setting_is_reported() {
    assert_eq!(
        Settings::from_values(None, None, None, None).err(),
        Some(ConfigError::Missing(Setting::BotToken))
    );
    assert_eq!(
        Settings::from_values(some("t"), None, some("k"), None).err(),
        Some(ConfigError::Missing(Setting::ChatId))
    );
    assert_eq!(
        Settings::from_values(some("t"), some("1"), None, None).err(),
        Some(ConfigError::Missing(Setting::ApiKey))
    );
}

#[test]
fn an_empty_setting_is_present() {
    assert!(Settings::from_values(some(""), some(""), some(""), some("")).is_ok());
}

#[test]
fn actions_get_their_lines() {
    assert_eq!(note_for_action(&Action::Fetch), Some("Send request to binance".to_string()));
    assert_eq!(
        note_for_action(&Action::Send {
            message: "Withdraw [RESUMED]".to_string(),
            timeout_secs: Some(8)
        }),
        Some("Withdraw [RESUMED]".to_string())
    );
    assert_eq!(
        note_for_action(&Action::Send { message: String::new(), timeout_secs: None }),
        Some(String::new())
    );
    assert_eq!(
        note_for_action(&Action::Backoff { target: Dependency::Source, secs: 3600 }),
        Some("Too much errors binance api, waiting 1 hour".to_string())
    );
    assert_eq!(
        note_for_action(&Action::Backoff { target: Dependency::Sink, secs: 3600 }),
        Some("Too much errors telegram api, waiting 1 hour".to_string())
    );
    assert_eq!(note_for_action(&Action::Sleep { secs: 60 }), None);
    assert_eq!(
        note_for_action(&Action::Exit { failure: StartupFailure::Fetch(FetchError::Parse) }),
        None
    );
}

#[test]
fn failures_get_their_lines() {
    assert_eq!(
        note_for_event(&Event::Fetched(Err(FetchError::Transport))),
        Some("Error binance api Exchange request failed".to_string())
    );
    assert_eq!(
        note_for_event(&Event::Fetched(Err(FetchError::AssetNotFound))),
        Some("Error binance api No Avax found".to_string())
    );
    assert_eq!(
        note_for_event(&Event::Fetched(Err(FetchError::Parse))),
        Some("Error binance api Error with json parsing network".to_string())
    );
    assert_eq!(
        note_for_event(&Event::Sent(Err(NotifyError::Timeout))),
        Some("Error sending telegram msg Notification timed out".to_string())
    );
    assert_eq!(
        note_for_event(&Event::Sent(Err(NotifyError::DeliveryFailed))),
        Some("Error sending telegram msg Notification was not delivered".to_string())
    );
    assert_eq!(note_for_event(&Event::Fetched(Ok(StatusSnapshot::new()))), None);
    assert_eq!(note_for_event(&Event::Sent(Ok(()))), None);
    assert_eq!(note_for_event(&Event::Elapsed), None);
}
