use vstd::prelude::*;

use crate::text::{parse_bool, parse_bool_spec, parse_i64, parse_in_range, parse_u16, parse_usize};

verus! {

/// Alert handling settings.
#[derive(Clone, Copy, Debug, PartialEq, Eq, Structural)]
pub struct AlertConfig {
    /// Seconds a server must stay out of alarm before its alert is resolved.
    pub recovery_seconds: i64,
    /// How many recent alerts are kept in memory.
    pub buffer_size: usize,
}

/// Connection settings of the MQTT broker.
#[derive(Clone, Debug)]
pub struct MqttConfig {
    pub host: String,
    pub port: u16,
    pub client_id: String,
    pub topic_prefix: String,
}

/// Telegram notification settings.
#[derive(Clone, Debug)]
pub struct TelegramConfig {
    pub enabled: bool,
    pub bot_token: String,
    pub chat_id: String,
}

/// A text setting: the value given, or `default` when none was.
pub open spec fn text_setting(given: Option<Seq<char>>, default: Seq<char>) -> Seq<char> {
    match given {
        Some(t) => t,
        None => default,
    }
}

/// An integer setting: the value given when it reads as an integer in
/// `[min, max]` (as `parse` reads it), `default` otherwise.
pub open spec fn int_setting(
    given: Option<Seq<char>>,
    signed: bool,
    min: int,
    max: int,
    default: int,
) -> int {
    match given {
        Some(t) => match parse_in_range(t, signed, min, max) {
            Some(v) => v,
            None => default,
        },
        None => default,
    }
}

/// A boolean setting: `true` or `false` when the value given is exactly
/// that word, `default` otherwise.
pub open spec fn bool_setting(given: Option<Seq<char>>, default: bool) -> bool {
    match given {
        Some(t) => match parse_bool_spec(t) {
            Some(b) => b,
            None => default,
        },
        None => default,
    }
}

/// The view of an optional text.
pub open spec fn opt_view(s: Option<String>) -> Option<Seq<char>> {
    match s {
        Some(t) => Some(t@),
        None => None,
    }
}

fn text_or(given: Option<String>, default: &str) -> (r: String)
    ensures
        r@ == text_setting(opt_view(given), default@),
{
    match given {
        Some(t) => t,
        None => default.to_owned(),
    }
}

impl MqttConfig {
    /// The MQTT settings from the raw values of `MQTT_HOST`, `MQTT_PORT`,
    /// `MQTT_CLIENT_ID` and `MQTT_TOPIC_PREFIX` (`None` where unset), with
    /// the defaults `broker.hivemq.com`, 1883, `cloudmetric-middle` and
    /// `cloudmetric`.
    pub fn from_settings(
        host: Option<String>,
        port: Option<String>,
        client_id: Option<String>,
        topic_prefix: Option<String>,
    ) -> (r: Self)
        ensures
            r.host@ == text_setting(opt_view(host), "broker.hivemq.com"@),
            r.port == int_setting(opt_view(port), false, 0, u16::MAX as int, 1883),
            r.client_id@ == text_setting(opt_view(client_id), "cloudmetric-middle"@),
            r.topic_prefix@ == text_setting(opt_view(topic_prefix), "cloudmetric"@),
    {
        let port: u16 = match port {
            Some(t) => match parse_u16(t.as_str()) {
                Some(v) => v,
                None => 1883,
            },
            None => 1883,
        };
        MqttConfig {
            host: text_or(host, "broker.hivemq.com"),
            port,
            client_id: text_or(client_id, "cloudmetric-middle"),
            topic_prefix: text_or(topic_prefix, "cloudmetric"),
        }
    }
}

impl AlertConfig {
    /// The alert settings from the raw values of `ALERT_RECOVERY_SECONDS`
    /// and `ALERT_BUFFER_SIZE`, with the defaults 120 and 100.
    pub fn from_settings(recovery_seconds: Option<String>, buffer_size: Option<String>) -> (r: Self)
        ensures
            r.recovery_seconds == int_setting(
                opt_view(recovery_seconds),
                true,
                i64::MIN as int,
                i64::MAX as int,
                120,
            ),
            r.buffer_size == int_setting(opt_view(buffer_size), false, 0, usize::MAX as int, 100),
    {
        let recovery_seconds: i64 = match recovery_seconds {
            Some(t) => match parse_i64(t.as_str()) {
                Some(v) => v,
                None => 120,
            },
            None => 120,
        };
        let buffer_size: usize = match buffer_size {
            Some(t) => match parse_usize(t.as_str()) {
                Some(v) => v,
                None => 100,
            },
            None => 100,
        };
        AlertConfig { recovery_seconds, buffer_size }
    }
}

impl TelegramConfig {
    /// The Telegram settings from the raw values of `TELEGRAM_ENABLED`,
    /// `TELEGRAM_BOT_TOKEN` and `TELEGRAM_CHAT_ID`: disabled and empty by
    /// default.
    pub fn from_settings(
        enabled: Option<String>,
        bot_token: Option<String>,
        chat_id: Option<String>,
    ) -> (r: Self)
        ensures
            r.enabled == bool_setting(opt_view(enabled), false),
            r.bot_token@ == text_setting(opt_view(bot_token), Seq::empty()),
            r.chat_id@ == text_setting(opt_view(chat_id), Seq::empty()),
    {
        let enabled: bool = match enabled {
            Some(t) => match parse_bool(t.as_str()) {
                Some(b) => b,
                None => false,
            },
            None => false,
        };
        let bot_token = match bot_token {
            Some(t) => t,
            None => String::new(),
        };
        let chat_id = match chat_id {
            Some(t) => t,
            None => String::new(),
        };
        TelegramConfig { enabled, bot_token, chat_id }
    }
}

} // verus!
