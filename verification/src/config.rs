//! The bot's runtime settings (read from its secrets file by the caller) and
//! the decisions taken from them.

use vstd::prelude::*;
use crate::text::text_eq;

verus! {

/// The settings of the secrets file.
#[derive(Debug, PartialEq, Eq)]
pub struct Secrets {
    pub discord_token: String,
    pub environment: String,
    pub live_bot_user_id: String,
    pub testing_bot_user_id: String,
}

/// The environment the bot runs in: the configured one, `testing` when none is set.
pub open spec fn env_name(environment: Seq<char>) -> Seq<char> {
    if environment.len() == 0 { "testing"@ } else { environment }
}

/// The Discord token.
pub fn get_secret(secrets: &Secrets) -> (res: String)
    ensures
        res@ == secrets.discord_token@,
{
    secrets.discord_token.clone()
}

/// The environment the bot runs in; `testing` when the setting is empty.
pub fn get_env(secrets: &Secrets) -> (res: String)
    ensures
        res@ == env_name(secrets.environment@),
{
    if secrets.environment.as_str().unicode_len() == 0 {
        return String::from_str("testing");
    }
    secrets.environment.clone()
}

/// Whether `id` is the user id of the bot itself, live or testing.
pub fn is_bot(id: &str, secrets: &Secrets) -> (res: bool)
    ensures
        res == (id@ == secrets.testing_bot_user_id@ || id@ == secrets.live_bot_user_id@),
{
    if !text_eq(id, secrets.testing_bot_user_id.as_str()) && !text_eq(id, secrets.live_bot_user_id.as_str()) {
        return false;
    }
    true
}

/// The user id of the running bot: the live one in the `live` environment, the
/// testing one otherwise.
pub fn get_current_bot_id(secrets: &Secrets) -> (res: String)
    ensures
        res@ == (if env_name(secrets.environment@) == "live"@ {
            secrets.live_bot_user_id@
        } else {
            secrets.testing_bot_user_id@
        }),
{
    let env = get_env(secrets);
    if text_eq(env.as_str(), "live") {
        return secrets.live_bot_user_id.clone();
    }
    secrets.testing_bot_user_id.clone()
}

} // verus!
