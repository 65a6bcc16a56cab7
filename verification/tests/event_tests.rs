use rustbot::config::Secrets;
use rustbot::events::{BotAction, get_time_out_time, on_message, plan_message, reaction_add, reaction_remove};
use rustbot::emoji::{DOOT_ID, MINUS_TWO_ID, PLUS_TWO_ID};
use rustbot::ledger::{DbOp, UserField};

fn secrets() -> Secrets {
    Secrets {
        discord_token: "SECRET-REDACTED".to_string(),
        environment: "live".to_string(),
        live_bot_user_id: "999".to_string(),
        testing_bot_user_id: "998".to_string(),
    }
}

fn add(user: &str, field: UserField, amount: i64) -> DbOp {
    DbOp::AddToUser { user_id: user.to_string(), field, amount }
}

#[test]
fn plus_two_reaction_scores_the_author() {
    assert_eq!(
        reaction_add("r", "a", Some(PLUS_TWO_ID)),
        vec![add("r", UserField::PlusTwoGiven, 1), add("a", UserField::PlusTwoReceived, 1), add("a", UserField::Score, 2)]
    );
    assert_eq!(
        reaction_add("r", "a", Some(DOOT_ID)),
        vec![add("r", UserField::MinusTwoGiven, 1), add("a", UserField::MinusTwoReceived, 1), add("a", UserField::Score, -2)]
    );
    assert_eq!(reaction_add("r", "a", None), vec![add("a", UserField::Score, 0)]);
}

#[test]
fn own_reactions_count_for_nothing() {
    assert!(reaction_add("a", "a", Some(PLUS_TWO_ID)).is_empty());
    assert!(reaction_remove("a", "a", Some(MINUS_TWO_ID)).is_empty());
}

#[test]
fn removing_a_reaction_undoes_it() {
    for emoji in [Some(PLUS_TWO_ID), Some(MINUS_TWO_ID), Some(7), None] {
        let added = reaction_add("r", "a", emoji);
        let removed = reaction_remove("r", "a", emoji);
        assert_eq!(added.len(), removed.len());
        for (x, y) in added.iter().zip(removed.iter()) {
            match (x, y) {
                (
                    DbOp::AddToUser { user_id: u1, field: f1, amount: d1 },
                    DbOp::AddToUser { user_id: u2, field: f2, amount: d2 },
                ) => {
                    assert_eq!(u1, u2);
                    assert_eq!(f1, f2);
                    assert_eq!(*d1, -*d2);
                },
                _ => panic!("reactions only add to counters"),
            }
        }
    }
}

#[test]
fn a_bomb_costs_twenty_points() {
    let actions = plan_message("5", "five", &secrets(), 3, false, 3, 0);
    assert_eq!(
        actions,
        vec![
            BotAction::Write(DbOp::CreateUser { user_id: "5".to_string(), user_name: "five".to_string() }),
            BotAction::TimeOutAuthor,
            BotAction::Write(DbOp::ResetShopCount { short_name: "mine".to_string() }),
            BotAction::Write(add("5", UserField::BombsExploded, 1)),
            BotAction::Write(add("5", UserField::PlusTwoReceived, -20)),
            BotAction::Write(add("999", UserField::PlusTwoReceived, 20)),
            BotAction::Write(add("5", UserField::Score, -40)),
            BotAction::Write(add("999", UserField::Score, 40)),
            BotAction::Reply(
                "<:p2:924536822472802337> oh nyo, >w< wooks wike somebwody got bwown up and wost 20 pwoints. "
                    .to_string()
            ),
        ]
    );
}

#[test]
fn no_bomb_above_the_count_and_lucky_images_rotate() {
    let actions = plan_message("5", "five", &secrets(), 3, true, 4, 7);
    assert_eq!(
        actions,
        vec![
            BotAction::Write(DbOp::CreateUser { user_id: "5".to_string(), user_name: "five".to_string() }),
            BotAction::RotateAttachedImage,
        ]
    );
    assert_eq!(plan_message("5", "five", &secrets(), 3, true, 4, 8).len(), 1);
    assert_eq!(plan_message("5", "five", &secrets(), 3, false, 4, 7).len(), 1);
}

#[test]
fn the_bot_is_never_bombed() {
    let actions = plan_message("999", "bot", &secrets(), 300, true, 0, 7);
    assert_eq!(
        actions,
        vec![BotAction::Write(DbOp::CreateUser { user_id: "999".to_string(), user_name: "bot".to_string() })]
    );
}

#[test]
fn every_message_creates_its_author() {
    let actions = on_message("5", "five", &secrets(), 300, false);
    assert_eq!(actions[0], BotAction::Write(DbOp::CreateUser { user_id: "5".to_string(), user_name: "five".to_string() }));
    assert!(actions.contains(&BotAction::TimeOutAuthor));
    let none = on_message("5", "five", &secrets(), -1, false);
    assert_eq!(none.len(), 1);
}

#[test]
fn time_out_lasts_ten_minutes() {
    assert_eq!(get_time_out_time(1_700_000_000), 1_700_000_600);
}
