//! The custom emojis of the bot, the points a reaction is worth, and how an
//! emoji is written in a message.

use vstd::prelude::*;
use crate::text::{decimal, text_eq};

verus! {

pub const PLUS_TWO_ID: u64 = 924536822472802337;
pub const MINUS_TWO_ID: u64 = 924536784191365120;
pub const MANNY_ID: u64 = 929987409360343051;
pub const DOOT_ID: u64 = 929985012554682469;

/// A custom guild emoji.
#[derive(Debug, PartialEq, Eq)]
pub struct CustomEmoji {
    pub animated: bool,
    pub id: u64,
    pub name: String,
}

/// The id and name of the emoji that `get_emoji` gives for a name in an environment:
/// `minus_two` is the minus emoji, every other name the plus emoji; the live
/// environment uses `p2`/`m2`, every other one `manny`/`doot`.
pub open spec fn emoji_choice(emoji_name: Seq<char>, env: Seq<char>) -> (u64, Seq<char>) {
    if env == "live"@ {
        if emoji_name == "minus_two"@ { (MINUS_TWO_ID, "m2"@) } else { (PLUS_TWO_ID, "p2"@) }
    } else {
        if emoji_name == "minus_two"@ { (DOOT_ID, "doot"@) } else { (MANNY_ID, "manny"@) }
    }
}

/// How Discord writes a custom emoji in a message: `<:name:id>`, `<a:name:id>` when animated.
pub open spec fn emoji_markup(animated: bool, id: u64, name: Seq<char>) -> Seq<char> {
    (if animated { "<a:"@ } else { "<:"@ }) + name + ":"@ + decimal(id as nat) + ">"@
}

/// The points a reaction is worth: the plus emojis 2, the minus emojis -2, others 0.
/// The emojis of both environments count, whichever environment the bot runs
/// in (this mapping is the library's own choice of the reaction values).
pub open spec fn reaction_points(emoji_id: Option<u64>) -> i16 {
    match emoji_id {
        Some(id) => if id == PLUS_TWO_ID || id == MANNY_ID {
            2
        } else if id == MINUS_TWO_ID || id == DOOT_ID {
            -2i16
        } else {
            0
        },
        None => 0,
    }
}

pub fn get_plus_two() -> (res: CustomEmoji)
    ensures
        !res.animated,
        res.id == PLUS_TWO_ID,
        res.name@ == "p2"@,
{
    CustomEmoji { animated: false, id: PLUS_TWO_ID, name: String::from_str("p2") }
}

pub fn get_minus_two() -> (res: CustomEmoji)
    ensures
        !res.animated,
        res.id == MINUS_TWO_ID,
        res.name@ == "m2"@,
{
    CustomEmoji { animated: false, id: MINUS_TWO_ID, name: String::from_str("m2") }
}

pub fn get_manny() -> (res: CustomEmoji)
    ensures
        !res.animated,
        res.id == MANNY_ID,
        res.name@ == "manny"@,
{
    CustomEmoji { animated: false, id: MANNY_ID, name: String::from_str("manny") }
}

pub fn get_doot() -> (res: CustomEmoji)
    ensures
        !res.animated,
        res.id == DOOT_ID,
        res.name@ == "doot"@,
{
    CustomEmoji { animated: false, id: DOOT_ID, name: String::from_str("doot") }
}

/// The emoji for `emoji_name` in the environment `current_env`.
pub fn get_emoji(emoji_name: &str, current_env: &str) -> (res: CustomEmoji)
    ensures
        !res.animated,
        (res.id, res.name@) == emoji_choice(emoji_name@, current_env@),
{
    if text_eq("live", current_env) {
        if text_eq(emoji_name, "minus_two") {
            get_minus_two()
        } else {
            get_plus_two()
        }
    } else {
        if text_eq(emoji_name, "minus_two") {
            get_doot()
        } else {
            get_manny()
        }
    }
}

/// The points a reaction with this custom emoji id (`None` for a unicode
/// emoji) is worth.
pub fn points_from_reaction(emoji_id: Option<u64>) -> (res: i16)
    ensures
        res == reaction_points(emoji_id),
{
    match emoji_id {
        Some(id) => {
            if id == PLUS_TWO_ID || id == MANNY_ID {
                2
            } else if id == MINUS_TWO_ID || id == DOOT_ID {
                -2
            } else {
                0
            }
        },
        None => 0,
    }
}

/// The `Display` of serenity's `ReactionType::Custom`, built from the emoji's
/// fields: `<:`, or `<a:` when animated, then the name, `:`, the id in decimal
/// and `>`. `EmojiId::new` panics on id 0, hence the requirement.
#[verifier::external_body]
pub fn emoji_text(emoji: &CustomEmoji) -> (res: String)
    requires
        emoji.id != 0,
    ensures
        res@ == emoji_markup(emoji.animated, emoji.id, emoji.name@),
{
    serenity::model::channel::ReactionType::Custom {
        animated: emoji.animated,
        id: serenity::model::id::EmojiId::new(emoji.id),
        name: Some(emoji.name.clone()),
    }.to_string()
}

/// A reaction with the plus emoji of any environment is worth 2 points and
/// one with the minus emoji -2: the emojis the bot hands out are the ones it counts.
pub proof fn lemma_bot_emojis_score(env: Seq<char>)
    ensures
        reaction_points(Some(emoji_choice("plus_two"@, env).0)) == 2,
        reaction_points(Some(emoji_choice("minus_two"@, env).0)) == -2,
{
    reveal_strlit("plus_two");
    reveal_strlit("minus_two");
    assert("plus_two"@[0] != "minus_two"@[0]);
}

} // verus!
