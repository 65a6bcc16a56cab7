use rustbot::display::{
    BombData, ItemInfo, ItemInfoVec, UserInfo, UserInfoVec, bomb_count_message, leaderboard_reply, shop_fields,
    shop_header, shop_row,
};

fn user(name: &str, score: i64) -> UserInfo {
    UserInfo { user_name: name.to_string(), score }
}

fn item(short: &str, name: &str, price: &str) -> ItemInfo {
    ItemInfo {
        item_name: name.to_string(),
        short_name: short.to_string(),
        price: price.to_string(),
        description: format!("about {name}"),
    }
}

#[test]
fn users_are_shown_with_scores() {
    assert_eq!(user("alice", 12).to_display_string(), " - alice > 12\n");
    let users = UserInfoVec(vec![user("alice", 12), user("bob", -3)]);
    assert_eq!(users.to_display_string(), "alice12,  - bob > -3\n");
    assert_eq!(UserInfoVec(vec![user("solo", 0)]).to_display_string(), " - solo > 0\n");
}

#[test]
fn leaderboard_numbers_each_place() {
    let users = UserInfoVec(vec![user("alice", 12), user("bob", 5)]);
    assert_eq!(leaderboard_reply(&users), "1 - alice > 12\n2 - bob > 5\n");
    assert_eq!(leaderboard_reply(&UserInfoVec(vec![])), "");
}

#[test]
fn shop_rows_are_aligned() {
    let expected = format!("{:<15}{:^70}{:>15}", "mine", "Mine", "5");
    assert_eq!(shop_row("mine", "Mine", "5"), expected);
    assert_eq!(item("mine", "Mine", "5").to_display_string(), expected);
    let (titles, rule) = shop_header();
    assert_eq!(titles, format!("{:<15}{:^70}{:>15}", "Symbol", "Item", "Price"));
    assert_eq!(rule, format!("{:-<75}", ""));
}

#[test]
fn shop_listing_leaves_out_the_last_item() {
    let items = ItemInfoVec(vec![item("a", "A", "3"), item("b", "B", "2"), item("c", "C", "1")]);
    let expected = format!("{}{}", shop_row("a", "A", "3"), shop_row("b", "B", "2"));
    assert_eq!(items.to_display_string(), expected);
    let fields = shop_fields(&items);
    assert_eq!(fields.len(), 3);
    assert_eq!(fields[2], (shop_row("c", "C", "1"), "about C".to_string(), false));
}

#[test]
fn bomb_counts() {
    let data = BombData { user_name: "bob".to_string(), bombs_exploded: 3 };
    assert_eq!(bomb_count_message(&data), "bob has stepped on 3 bombs.");
}
