//! The text of the bot's shorter replies.

use vstd::prelude::*;
use crate::text::{bool_text, bool_to_text, i64_text, signed_decimal, u64_text, decimal};

verus! {

/// `current symbol count: n`.
pub fn item_count_message(symbol: &str, count: i64) -> (res: String)
    ensures
        res@ == "current "@ + symbol@ + " count: "@ + signed_decimal(count as int),
{
    let mut res = String::from_str("current ");
    res.append(symbol);
    res.append(" count: ");
    let n = i64_text(count);
    res.append(n.as_str());
    res
}

/// `Set Bombs for name to n`.
pub fn set_bombs_message(user_name: &str, amount: i16) -> (res: String)
    ensures
        res@ == "Set Bombs for "@ + user_name@ + " to "@ + signed_decimal(amount as int),
{
    let mut res = String::from_str("Set Bombs for ");
    res.append(user_name);
    res.append(" to ");
    let n = i64_text(amount as i64);
    res.append(n.as_str());
    res
}

/// `The bot is running version v`.
pub fn version_message(version: &str) -> (res: String)
    ensures
        res@ == "The bot is running version "@ + version@,
{
    let mut res = String::from_str("The bot is running version ");
    res.append(version);
    res
}

/// `name's account was created at time`.
pub fn account_created_message(user_name: &str, created_at: &str) -> (res: String)
    ensures
        res@ == user_name@ + "'s account was created at "@ + created_at@,
{
    let mut res = String::from_str(user_name);
    res.append("'s account was created at ");
    res.append(created_at);
    res
}

/// `Folder Status: true` or `false`.
pub fn folder_status_message(status: bool) -> (res: String)
    ensures
        res@ == "Folder Status: "@ + bool_text(status),
{
    let mut res = String::from_str("Folder Status: ");
    let b = bool_to_text(status);
    res.append(b.as_str());
    res
}

/// ``GE alias `alias` for `item` set.``
pub fn alias_set_message(alias: &str, item: &str) -> (res: String)
    ensures
        res@ == "GE alias `"@ + alias@ + "` for `"@ + item@ + "` set."@,
{
    let mut res = String::from_str("GE alias `");
    res.append(alias);
    res.append("` for `");
    res.append(item);
    res.append("` set.");
    res
}

/// The answer to an alias lookup: the item it names, or that it is unknown.
pub fn alias_lookup_message(alias: &str, item: Option<&str>) -> (res: String)
    ensures
        res@ == (match item {
            Some(i) => "GE alias `"@ + alias@ + "` is `"@ + i@ + "`."@,
            None => "GE alias `"@ + alias@ + "` not found."@,
        }),
{
    let mut res = String::from_str("GE alias `");
    res.append(alias);
    match item {
        Some(i) => {
            res.append("` is `");
            res.append(i);
            res.append("`.");
        },
        None => {
            res.append("` not found.");
        },
    }
    res
}

/// Why a track cannot be played.
#[derive(Debug, PartialEq, Eq)]
pub enum TrackUrlError {
    /// No URL was given.
    Missing,
    /// The URL does not start with `http`.
    NotHttp,
}

/// The URL of a track to play: it must be given and start with `http`.
pub fn validate_track_url(argument: Option<String>) -> (res: Result<String, TrackUrlError>)
    ensures
        argument is None ==> res matches Err(TrackUrlError::Missing),
        argument matches Some(url) ==> (if url@.len() >= 4 && url@.take(4) == "http"@ {
            res matches Ok(u) && u@ == url@
        } else {
            res matches Err(TrackUrlError::NotHttp)
        }),
{
    match argument {
        None => Err(TrackUrlError::Missing),
        Some(url) => {
            let n = url.as_str().unicode_len();
            if n >= 4 && crate::text::text_eq(url.as_str().substring_char(0, 4), "http") {
                Ok(url)
            } else {
                Err(TrackUrlError::NotHttp)
            }
        },
    }
}

/// `Added song to queue: position n`.
pub fn queue_position_message(queue_len: usize) -> (res: String)
    ensures
        res@ == "Added song to queue: position "@ + decimal(queue_len as nat),
{
    let mut res = String::from_str("Added song to queue: position ");
    let n = u64_text(queue_len as u64);
    res.append(n.as_str());
    res
}

} // verus!
