use rustbot::commands::{
    BuyOutcome, JudgeOutcome, TradeOutcome, TradeStep, begin_trade, emoji_in_text, has_been_judged,
    help_query, insufficient_balance_message, judge_emojis, judged_post, not_enough_message, pick_judgement,
    plan_buy, plan_judge, settle_trade, smash_reply, target_user, trade_message,
};
use rustbot::config::Secrets;
use rustbot::emoji::{DOOT_ID, MANNY_ID, get_emoji};
use rustbot::ledger::{DbOp, UserField};
use rustbot::text::AmountError;

fn secrets() -> Secrets {
    Secrets {
        discord_token: "SECRET-REDACTED".to_string(),
        environment: "".to_string(),
        live_bot_user_id: "999".to_string(),
        testing_bot_user_id: "998".to_string(),
    }
}

fn add(user: &str, field: UserField, amount: i64) -> DbOp {
    DbOp::AddToUser { user_id: user.to_string(), field, amount }
}

#[test]
fn negative_trades_are_refused() {
    assert_eq!(begin_trade("-1"), TradeStep::Refuse);
    assert_eq!(begin_trade("0"), TradeStep::CheckBalance(0));
    assert_eq!(begin_trade("10"), TradeStep::CheckBalance(10));
    assert_eq!(begin_trade("ten"), TradeStep::InvalidAmount(AmountError::InvalidDigit));
    assert_eq!(begin_trade("40000"), TradeStep::InvalidAmount(AmountError::PosOverflow));
    assert_eq!(begin_trade(""), TradeStep::InvalidAmount(AmountError::Empty));
    assert_eq!(begin_trade("-40000"), TradeStep::InvalidAmount(AmountError::NegOverflow));
}

#[test]
fn trades_need_the_balance() {
    assert_eq!(settle_trade("m", "a", "alice", "b", "bob", "5", 5, 4), TradeOutcome::Insufficient);
    assert_eq!(
        settle_trade("m", "a", "alice", "b", "bob", "+5", 5, 5),
        TradeOutcome::Approved(vec![
            add("a", UserField::PlusTwoReceived, -5),
            add("b", UserField::PlusTwoReceived, 5),
            add("a", UserField::Score, -10),
            add("b", UserField::Score, 10),
            DbOp::AddTradeLog {
                message_id: "m".to_string(),
                from_user: "alice".to_string(),
                receiving_user: "bob".to_string(),
                traded: "+5".to_string(),
            },
        ])
    );
}

#[test]
fn trade_replies() {
    assert_eq!(
        insufficient_balance_message("alice", 3, "live"),
        "alice only has 3 <:p2:924536822472802337>. Not enough to continue this transaction."
    );
    assert_eq!(
        trade_message("alice", "bob", "2", "testing", -4, 10),
        "alice has traded bob 2 <:manny:929987409360343051>. The updated scores are alice: -4 and bob: 10"
    );
    assert_eq!(emoji_in_text("minus_two", "live"), "<:m2:924536784191365120>");
}

#[test]
fn buying_pays_the_bot_and_counts_the_item() {
    assert_eq!(plan_buy("a", &secrets(), 9, 10, "mine"), BuyOutcome::NotEnough);
    assert_eq!(
        plan_buy("a", &secrets(), 10, 10, "mine"),
        BuyOutcome::Bought(vec![
            add("a", UserField::PlusTwoReceived, -10),
            add("998", UserField::PlusTwoReceived, 10),
            add("a", UserField::Score, -20),
            add("998", UserField::Score, 20),
            DbOp::AddToShopItem { short_name: "mine".to_string(), current_increase: 1, total_increase: 1 },
        ])
    );
    assert_eq!(not_enough_message("testing"), "Not Enough <:manny:929987409360343051>");
}

#[test]
fn judging_needs_a_new_reply() {
    let judgement = get_emoji("minus_two", "testing");
    assert_eq!(plan_judge(false, 0, "1", "owner", "caller", &judgement), JudgeOutcome::NotAReply);
    assert_eq!(plan_judge(true, 1, "1", "owner", "caller", &judgement), JudgeOutcome::AlreadyJudged);
    assert_eq!(
        plan_judge(true, 0, "1", "owner", "caller", &judgement),
        JudgeOutcome::Judge(judged_post("1", "owner", "caller", "<:doot:929985012554682469>"))
    );
    assert!(has_been_judged(1));
    assert!(!has_been_judged(0));
}

#[test]
fn judgements_are_plus_or_minus() {
    let emojis = judge_emojis("testing");
    assert_eq!((emojis[0].id, emojis[1].id), (MANNY_ID, DOOT_ID));
    let mut seen_plus = false;
    let mut seen_minus = false;
    for _ in 0..200 {
        let id = pick_judgement("testing").id;
        assert!(id == MANNY_ID || id == DOOT_ID);
        seen_plus |= id == MANNY_ID;
        seen_minus |= id == DOOT_ID;
    }
    assert!(seen_plus && seen_minus);
}

#[test]
fn smash_or_pass() {
    assert_eq!(smash_reply(true), "Smash");
    assert_eq!(smash_reply(false), "Pass");
}

#[test]
fn help_for_other_commands() {
    assert_eq!(help_query("help", Some("trade".to_string())), Some("trade".to_string()));
    assert_eq!(help_query("help", None), None);
    assert_eq!(help_query("shop", Some("buy".to_string())), Some("shop buy".to_string()));
    assert_eq!(help_query("shop", None), Some("shop".to_string()));
}

#[test]
fn replies_target_the_referenced_author() {
    assert_eq!(target_user(1, None), 1);
    assert_eq!(target_user(1, Some(2)), 2);
}
