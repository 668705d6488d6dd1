//! The bot's configuration, as plain values. The shell reads it from the
//! environment and hands it over.

use vstd::prelude::*;

verus! {

/// Everything the process needs to run: the transport token, each provider's
/// credentials, the proxy, and the log level's name.
#[derive(Debug, Clone)]
pub struct BotConfig {
    pub tg_token: String,
    pub gigachat_client_id: String,
    pub gigachat_client_secret: String,
    pub mistral_token: String,
    pub grok_token: String,
    pub proxy_url: String,
    pub log_level: String,
}

} // verus!
