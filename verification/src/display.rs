//! The records the bot shows (users and their scores, shop items, bomb
//! counts) and the text it shows them as.

use vstd::prelude::*;
use crate::text::{
    decimal, digits_value, lemma_decimal_reads_back, i64_text, pad_center, pad_end, pad_start, padded_center, padded_end, padded_start, signed_decimal,
    u64_text,
};

verus! {

/// Column widths of the shop table.
pub const SHORT_NAME_COL_WIDTH: usize = 15;
pub const ITEM_COL_WIDTH: usize = 70;
pub const PRICE_COL_WIDTH: usize = 15;
/// Width of the rule under the shop table's header.
pub const SHOP_RULE_WIDTH: usize = 75;

/// A user and their score.
#[derive(Debug, PartialEq, Eq)]
pub struct UserInfo {
    pub user_name: String,
    pub score: i64,
}

/// Users and their scores, best first.
#[derive(Debug, PartialEq, Eq)]
pub struct UserInfoVec(pub Vec<UserInfo>);

/// A user and the number of bombs they stepped on.
#[derive(Debug, PartialEq, Eq)]
pub struct BombData {
    pub user_name: String,
    pub bombs_exploded: i64,
}

/// An item of the shop.
#[derive(Debug, PartialEq, Eq)]
pub struct ItemInfo {
    pub item_name: String,
    pub short_name: String,
    pub price: String,
    pub description: String,
}

/// The items of the shop, dearest first.
#[derive(Debug, PartialEq, Eq)]
pub struct ItemInfoVec(pub Vec<ItemInfo>);

/// ` - name > score` and a line break.
pub open spec fn user_info_text(user: UserInfo) -> Seq<char> {
    " - "@ + user.user_name@ + " > "@ + signed_decimal(user.score as int) + "\n"@
}

/// Each user as `namescore, `.
pub open spec fn name_score_list(users: Seq<UserInfo>) -> Seq<char>
    decreases users.len(),
{
    if users.len() == 0 {
        Seq::empty()
    } else {
        name_score_list(users.drop_last()) + users.last().user_name@ + signed_decimal(users.last().score as int) + ", "@
    }
}

/// All users but the last as `namescore, `, then the last one in full.
pub open spec fn user_info_vec_text(users: Seq<UserInfo>) -> Seq<char> {
    name_score_list(users.drop_last()) + user_info_text(users.last())
}

/// Each user with their place before them: `1 - name > score` and so on.
pub open spec fn leaderboard_text(users: Seq<UserInfo>) -> Seq<char>
    decreases users.len(),
{
    if users.len() == 0 {
        Seq::empty()
    } else {
        leaderboard_text(users.drop_last()) + decimal(users.len()) + user_info_text(users.last())
    }
}

/// The leaderboard numbers its users by place: its lines, in order, are each
/// user's place (1 for the first, and so on up to the number of users) as a
/// decimal numeral, then ` - name > score`. The numeral of place `i + 1` reads
/// back as `i + 1`.
pub proof fn lemma_leaderboard_places(users: Seq<UserInfo>)
    ensures
        leaderboard_text(users.take(0)) == Seq::<char>::empty(),
        forall|i: int| 0 <= i < users.len() ==> #[trigger] leaderboard_text(users.take(i + 1))
            == leaderboard_text(users.take(i)) + decimal((i + 1) as nat) + user_info_text(users[i]),
        forall|i: nat| #[trigger] digits_value(decimal(i + 1)) == i + 1,
        leaderboard_text(users.take(users.len() as int)) == leaderboard_text(users),
{
    assert(users.take(users.len() as int) =~= users);
    assert forall|i: int| 0 <= i < users.len() implies #[trigger] leaderboard_text(users.take(i + 1))
        == leaderboard_text(users.take(i)) + decimal((i + 1) as nat) + user_info_text(users[i]) by {
        assert(users.take(i + 1).drop_last() =~= users.take(i));
    }
    assert forall|i: nat| #[trigger] digits_value(decimal(i + 1)) == i + 1 by {
        lemma_decimal_reads_back(i + 1);
    }
}

/// A row of the shop table: the symbol left aligned, the item centred and
/// the price right aligned in their columns.
pub open spec fn shop_row_text(short_name: Seq<char>, item_name: Seq<char>, price: Seq<char>) -> Seq<char> {
    padded_end(short_name, SHORT_NAME_COL_WIDTH as nat) + padded_center(item_name, ITEM_COL_WIDTH as nat)
        + padded_start(price, PRICE_COL_WIDTH as nat)
}

/// The shop rows of all items.
pub open spec fn item_rows_text(items: Seq<ItemInfo>) -> Seq<char>
    decreases items.len(),
{
    if items.len() == 0 {
        Seq::empty()
    } else {
        item_rows_text(items.drop_last()) + shop_row_text(
            items.last().short_name@,
            items.last().item_name@,
            items.last().price@,
        )
    }
}

impl UserInfo {
    /// The user as ` - name > score` and a line break.
    pub fn to_display_string(&self) -> (res: String)
        ensures
            res@ == user_info_text(*self),
    {
        let mut res = String::from_str(" - ");
        res.append(self.user_name.as_str());
        res.append(" > ");
        let score = i64_text(self.score);
        res.append(score.as_str());
        res.append("\n");
        res
    }
}

impl UserInfoVec {
    /// All users but the last as `namescore, `, then the last one in full.
    /// There must be at least one user.
    pub fn to_display_string(&self) -> (res: String)
        requires
            self.0@.len() > 0,
        ensures
            res@ == user_info_vec_text(self.0@),
    {
        let n = self.0.len();
        let mut res = String::new();
        let mut i: usize = 0;
        while i < n - 1
            invariant
                n == self.0@.len(),
                n > 0,
                i <= n - 1,
                res@ == name_score_list(self.0@.take(i as int)),
            decreases n - 1 - i,
        {
            let user = &self.0[i];
            res.append(user.user_name.as_str());
            let score = i64_text(user.score);
            res.append(score.as_str());
            res.append(", ");
            assert(self.0@.take(i + 1).drop_last() =~= self.0@.take(i as int));
            i = i + 1;
        }
        assert(self.0@.take((n - 1) as int) =~= self.0@.drop_last());
        let last = self.0[n - 1].to_display_string();
        res.append(last.as_str());
        res
    }
}

/// The leaderboard reply: each user with their place before them.
pub fn leaderboard_reply(top_scores: &UserInfoVec) -> (res: String)
    ensures
        res@ == leaderboard_text(top_scores.0@),
{
    let n = top_scores.0.len();
    let mut res = String::new();
    let mut i: usize = 0;
    while i < n
        invariant
            n == top_scores.0@.len(),
            i <= n,
            res@ == leaderboard_text(top_scores.0@.take(i as int)),
        decreases n - i,
    {
        let place = u64_text((i + 1) as u64);
        res.append(place.as_str());
        let line = top_scores.0[i].to_display_string();
        res.append(line.as_str());
        assert(top_scores.0@.take(i + 1).drop_last() =~= top_scores.0@.take(i as int));
        i = i + 1;
    }
    assert(top_scores.0@.take(n as int) =~= top_scores.0@);
    res
}

/// A row of the shop table.
pub fn shop_row(short_name: &str, item_name: &str, price: &str) -> (res: String)
    ensures
        res@ == shop_row_text(short_name@, item_name@, price@),
{
    let mut res = pad_end(short_name, SHORT_NAME_COL_WIDTH);
    let item = pad_center(item_name, ITEM_COL_WIDTH);
    res.append(item.as_str());
    let price_text = pad_start(price, PRICE_COL_WIDTH);
    res.append(price_text.as_str());
    res
}

impl ItemInfo {
    /// The item as a row of the shop table.
    pub fn to_display_string(&self) -> (res: String)
        ensures
            res@ == shop_row_text(self.short_name@, self.item_name@, self.price@),
    {
        shop_row(self.short_name.as_str(), self.item_name.as_str(), self.price.as_str())
    }
}

impl ItemInfoVec {
    /// The rows of every item but the last. There must be at least one item.
    pub fn to_display_string(&self) -> (res: String)
        requires
            self.0@.len() > 0,
        ensures
            res@ == item_rows_text(self.0@.drop_last()),
    {
        let n = self.0.len();
        let mut res = String::new();
        let mut i: usize = 0;
        while i < n - 1
            invariant
                n == self.0@.len(),
                n > 0,
                i <= n - 1,
                res@ == item_rows_text(self.0@.take(i as int)),
            decreases n - 1 - i,
        {
            let row = self.0[i].to_display_string();
            res.append(row.as_str());
            assert(self.0@.take(i + 1).drop_last() =~= self.0@.take(i as int));
            i = i + 1;
        }
        assert(self.0@.take((n - 1) as int) =~= self.0@.drop_last());
        res
    }
}

/// A field of the shop's table: the item's row, its description, not inline.
pub open spec fn shop_field_view(item: ItemInfo) -> (Seq<char>, Seq<char>, bool) {
    (shop_row_text(item.short_name@, item.item_name@, item.price@), item.description@, false)
}

/// The fields of the shop's table, one for each item in order.
pub fn shop_fields(items: &ItemInfoVec) -> (res: Vec<(String, String, bool)>)
    ensures
        res@.len() == items.0@.len(),
        forall|i: int|
            0 <= i < res@.len() ==> (#[trigger] res@[i].0@, res@[i].1@, res@[i].2) == shop_field_view(items.0@[i]),
{
    let n = items.0.len();
    let mut res: Vec<(String, String, bool)> = Vec::new();
    let mut i: usize = 0;
    while i < n
        invariant
            n == items.0@.len(),
            i <= n,
            res@.len() == i,
            forall|j: int|
                0 <= j < i ==> (#[trigger] res@[j].0@, res@[j].1@, res@[j].2) == shop_field_view(items.0@[j]),
        decreases n - i,
    {
        let item = &items.0[i];
        let row = item.to_display_string();
        res.push((row, item.description.clone(), false));
        i = i + 1;
    }
    res
}

/// `n` dashes.
pub open spec fn dashes(n: nat) -> Seq<char> {
    Seq::new(n, |_i: int| '-')
}

/// The header of the shop's table: the column titles, and a rule of dashes.
pub fn shop_header() -> (res: (String, String))
    ensures
        res.0@ == shop_row_text("Symbol"@, "Item"@, "Price"@),
        res.1@ == dashes(SHOP_RULE_WIDTH as nat),
{
    let titles = shop_row("Symbol", "Item", "Price");
    let mut rule = String::new();
    let mut i: usize = 0;
    while i < SHOP_RULE_WIDTH
        invariant
            i <= SHOP_RULE_WIDTH,
            rule@ == dashes(i as nat),
        decreases SHOP_RULE_WIDTH - i,
    {
        crate::text::push_char(&mut rule, '-');
        assert(dashes((i + 1) as nat) =~= dashes(i as nat).push('-'));
        i = i + 1;
    }
    (titles, rule)
}

/// `name has stepped on n bombs.`
pub fn bomb_count_message(bomb_data: &BombData) -> (res: String)
    ensures
        res@ == bomb_data.user_name@ + " has stepped on "@ + signed_decimal(bomb_data.bombs_exploded as int)
            + " bombs."@,
{
    let mut res = String::from_str(bomb_data.user_name.as_str());
    res.append(" has stepped on ");
    let count = i64_text(bomb_data.bombs_exploded);
    res.append(count.as_str());
    res.append(" bombs.");
    res
}

} // verus!
