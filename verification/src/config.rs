//! Application configuration, built from the settings the environment (or a
//! `.env` file) provides. Reading the environment is the caller's job; the
//! defaults and the paper-trading guard are decided here.

use vstd::prelude::*;
use crate::text::{contains_spec, contains_text, same_text};

verus! {

#[derive(Debug)]
pub struct Config {
    /// Alpaca API key (paper or live).
    pub api_key: String,
    /// Alpaca API secret.
    pub api_secret: String,
    /// Base URL for the Alpaca REST API.
    pub base_url: String,
    /// WebSocket URL for market data.
    pub data_ws_url: String,
    /// WebSocket URL for trade updates.
    pub trading_ws_url: String,
    /// Whether this is paper trading (must be true for now).
    pub use_paper: bool,
    /// SQLite/Postgres connection URL.
    pub database_url: String,
}

impl Clone for Config {
    fn clone(&self) -> (c: Self)
        ensures
            c == *self,
    {
        Config {
            api_key: self.api_key.clone(),
            api_secret: self.api_secret.clone(),
            base_url: self.base_url.clone(),
            data_ws_url: self.data_ws_url.clone(),
            trading_ws_url: self.trading_ws_url.clone(),
            use_paper: self.use_paper,
            database_url: self.database_url.clone(),
        }
    }
}

/// Why a configuration was refused.
#[derive(Debug, Clone, Copy, PartialEq, Eq, Structural)]
pub enum ConfigError {
    /// `ALPACA_KEY` is not set.
    MissingApiKey,
    /// `ALPACA_SECRET` is not set.
    MissingApiSecret,
    /// `USE_PAPER` is false but the base URL still points to the paper API.
    LiveModeWithPaperUrl,
}

/// The settings as read from the environment: `None` where a variable is not
/// set.
pub struct Settings {
    pub alpaca_key: Option<String>,
    pub alpaca_secret: Option<String>,
    pub alpaca_base_url: Option<String>,
    pub alpaca_data_ws: Option<String>,
    pub alpaca_trading_ws: Option<String>,
    pub use_paper: Option<String>,
    pub database_url: Option<String>,
}

/// The value of an optional setting, or its default.
pub open spec fn or_default(setting: Option<String>, default: Seq<char>) -> Seq<char> {
    match setting {
        Some(v) => v@,
        None => default,
    }
}

/// `USE_PAPER` is on when unset, or set to "true" or "1".
pub open spec fn paper_flag(setting: Option<String>) -> bool {
    match setting {
        Some(v) => v@ == "true"@ || v@ == "1"@,
        None => true,
    }
}

fn setting_or(setting: Option<String>, default: &str) -> (v: String)
    ensures
        v@ == or_default(setting, default@),
{
    match setting {
        Some(v) => v,
        None => default.to_owned(),
    }
}

impl Config {
    /// Builds the configuration from the settings, with the defaults of the
    /// paper-trading endpoints and a local SQLite database. Live mode is
    /// refused while the base URL still names the paper API.
    pub fn from_settings(settings: Settings) -> (r: Result<Config, ConfigError>)
        ensures
            settings.alpaca_key is None ==> r == Err::<Config, ConfigError>(
                ConfigError::MissingApiKey,
            ),
            settings.alpaca_key is Some && settings.alpaca_secret is None ==> r == Err::<
                Config,
                ConfigError,
            >(ConfigError::MissingApiSecret),
            settings.alpaca_key is Some && settings.alpaca_secret is Some ==> (r is Err <==> (
            !paper_flag(settings.use_paper) && contains_spec(
                or_default(settings.alpaca_base_url, "https://paper-api.alpaca.markets"@),
                "paper"@,
            ))),
            r is Err ==> r == Err::<Config, ConfigError>(ConfigError::MissingApiKey) || r == Err::<
                Config,
                ConfigError,
            >(ConfigError::MissingApiSecret) || r == Err::<Config, ConfigError>(
                ConfigError::LiveModeWithPaperUrl,
            ),
            r matches Ok(c) ==> {
                &&& c.api_key@ == settings.alpaca_key->0@
                &&& c.api_secret@ == settings.alpaca_secret->0@
                &&& c.base_url@ == or_default(
                    settings.alpaca_base_url,
                    "https://paper-api.alpaca.markets"@,
                )
                &&& c.data_ws_url@ == or_default(
                    settings.alpaca_data_ws,
                    "wss://stream.data.alpaca.markets/v2/iex"@,
                )
                &&& c.trading_ws_url@ == or_default(
                    settings.alpaca_trading_ws,
                    "wss://paper-api.alpaca.markets/stream"@,
                )
                &&& c.use_paper == paper_flag(settings.use_paper)
                &&& c.database_url@ == or_default(
                    settings.database_url,
                    "sqlite://./trading_bot.db"@,
                )
            },
    {
        let Settings {
            alpaca_key,
            alpaca_secret,
            alpaca_base_url,
            alpaca_data_ws,
            alpaca_trading_ws,
            use_paper,
            database_url,
        } = settings;
        let api_key = match alpaca_key {
            Some(k) => k,
            None => {
                return Err(ConfigError::MissingApiKey);
            },
        };
        let api_secret = match alpaca_secret {
            Some(s) => s,
            None => {
                return Err(ConfigError::MissingApiSecret);
            },
        };
        let base_url = setting_or(alpaca_base_url, "https://paper-api.alpaca.markets");
        let data_ws_url = setting_or(alpaca_data_ws, "wss://stream.data.alpaca.markets/v2/iex");
        let trading_ws_url = setting_or(alpaca_trading_ws, "wss://paper-api.alpaca.markets/stream");
        let paper = match &use_paper {
            Some(v) => same_text(v.as_str(), "true") || same_text(v.as_str(), "1"),
            None => true,
        };
        let database_url = setting_or(database_url, "sqlite://./trading_bot.db");
        // Refuse live mode while the base URL still points to the paper API.
        if !paper && contains_text(base_url.as_str(), "paper") {
            return Err(ConfigError::LiveModeWithPaperUrl);
        }
        Ok(
            Config {
                api_key,
                api_secret,
                base_url,
                data_ws_url,
                trading_ws_url,
                use_paper: paper,
                database_url,
            },
        )
    }
}

} // verus!
