use rustbot::ledger::{
    DbOp, UserField, create_in_db, do_transaction, gave_minus_two, increase_bombs_exploded, minus_two, plus_two,
    received_plus_two, reset_count, score_update, set_alias, set_bombs_exploded, take_plus_two, update_shop_count,
};

fn add(user: &str, field: UserField, amount: i64) -> DbOp {
    DbOp::AddToUser { user_id: user.to_string(), field, amount }
}

fn total(ops: &[DbOp], wanted: UserField) -> i64 {
    ops.iter()
        .map(|op| match op {
            DbOp::AddToUser { field, amount, .. } if *field == wanted => *amount,
            _ => 0,
        })
        .sum()
}

#[test]
fn transaction_moves_plus_twos_and_points() {
    let ops = do_transaction("giver", "receiver", 5);
    assert_eq!(
        ops,
        vec![
            add("giver", UserField::PlusTwoReceived, -5),
            add("receiver", UserField::PlusTwoReceived, 5),
            add("giver", UserField::Score, -10),
            add("receiver", UserField::Score, 10),
        ]
    );
    assert_eq!(total(&ops, UserField::Score), 0);
    assert_eq!(total(&ops, UserField::PlusTwoReceived), 0);
    let edge = do_transaction("a", "b", 16383);
    assert_eq!(edge[2], add("a", UserField::Score, -32766));
}

#[test]
fn counters_step_by_one() {
    assert_eq!(gave_minus_two("u", false), add("u", UserField::MinusTwoGiven, 1));
    assert_eq!(received_plus_two("u", true), add("u", UserField::PlusTwoReceived, -1));
    assert_eq!(
        plus_two("g", "r", false),
        vec![add("g", UserField::PlusTwoGiven, 1), add("r", UserField::PlusTwoReceived, 1)]
    );
    assert_eq!(
        minus_two("g", "r", true),
        vec![add("g", UserField::MinusTwoGiven, -1), add("r", UserField::MinusTwoReceived, -1)]
    );
    assert_eq!(score_update("u", -2), add("u", UserField::Score, -2));
    assert_eq!(take_plus_two("u", 3), add("u", UserField::PlusTwoReceived, -3));
    assert_eq!(increase_bombs_exploded("u"), add("u", UserField::BombsExploded, 1));
}

#[test]
fn other_writes_carry_their_values() {
    assert_eq!(
        create_in_db("1", "name"),
        DbOp::CreateUser { user_id: "1".to_string(), user_name: "name".to_string() }
    );
    assert_eq!(set_bombs_exploded("1", 4), DbOp::SetBombsExploded { user_id: "1".to_string(), count: 4 });
    assert_eq!(reset_count("mine"), DbOp::ResetShopCount { short_name: "mine".to_string() });
    assert_eq!(
        update_shop_count("mine", 1, 1),
        DbOp::AddToShopItem { short_name: "mine".to_string(), current_increase: 1, total_increase: 1 }
    );
    assert_eq!(
        set_alias("whip", "Abyssal whip"),
        DbOp::SetAlias { alias: "whip".to_string(), item: "Abyssal whip".to_string() }
    );
}

#[test]
fn trading_with_oneself_nets_nothing() {
    let ops = do_transaction("same", "same", 7);
    assert_eq!(total(&ops, UserField::Score), 0);
    assert_eq!(total(&ops, UserField::PlusTwoReceived), 0);
    assert!(ops.iter().all(|op| matches!(op, DbOp::AddToUser { user_id, .. } if user_id == "same")));
}
