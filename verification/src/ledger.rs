//! The bot's database writes as values, and what each does to the tables.
//!
//! Every write the bot makes to its database is a [`DbOp`]; the caller runs it
//! as the matching SQL statement. [`apply_op`] states what the statement does
//! to the `user`, `shop_items` and `ge_aliases` tables, and the laws at the end
//! of this file follow from it.

use vstd::prelude::*;

verus! {

/// A counted column of the `user` table.
#[derive(Clone, Copy, PartialEq, Eq, Debug, Structural)]
pub enum UserField {
    Score,
    PlusTwoGiven,
    PlusTwoReceived,
    MinusTwoGiven,
    MinusTwoReceived,
    BombsExploded,
}

/// One write to the database.
#[derive(Debug, PartialEq, Eq)]
pub enum DbOp {
    /// `INSERT OR IGNORE INTO user` with every counter at zero.
    CreateUser { user_id: String, user_name: String },
    /// `UPDATE user SET field = field + amount WHERE user_id = ?`.
    AddToUser { user_id: String, field: UserField, amount: i64 },
    /// `UPDATE user SET bombs_exploded = amount WHERE user_id = ?`.
    SetBombsExploded { user_id: String, count: i16 },
    /// `UPDATE shop_items SET current_amount = current_amount + ?, total_amount = total_amount + ?`.
    AddToShopItem { short_name: String, current_increase: i16, total_increase: i16 },
    /// `UPDATE shop_items SET current_amount = 1 WHERE short_name = ?`.
    ResetShopCount { short_name: String },
    /// `INSERT INTO tradeLogs`.
    AddTradeLog { message_id: String, from_user: String, receiving_user: String, traded: String },
    /// `INSERT INTO judgedPosts`.
    AddJudgedPost { message_id: String, message_owner: String, command_caller: String, result: String },
    /// `INSERT INTO ge_aliases ... ON CONFLICT(alias) DO UPDATE SET item = excluded.item`.
    SetAlias { alias: String, item: String },
}

/// A write to the database over mathematical values.
pub enum OpView {
    CreateUser { user_id: Seq<char>, user_name: Seq<char> },
    AddToUser { user_id: Seq<char>, field: UserField, amount: int },
    SetBombsExploded { user_id: Seq<char>, count: int },
    AddToShopItem { short_name: Seq<char>, current_increase: int, total_increase: int },
    ResetShopCount { short_name: Seq<char> },
    AddTradeLog { message_id: Seq<char>, from_user: Seq<char>, receiving_user: Seq<char>, traded: Seq<char> },
    AddJudgedPost { message_id: Seq<char>, message_owner: Seq<char>, command_caller: Seq<char>, result: Seq<char> },
    SetAlias { alias: Seq<char>, item: Seq<char> },
}

impl View for DbOp {
    type V = OpView;

    open spec fn view(&self) -> OpView {
        match self {
            DbOp::CreateUser { user_id, user_name } => OpView::CreateUser { user_id: user_id@, user_name: user_name@ },
            DbOp::AddToUser { user_id, field, amount } => OpView::AddToUser { user_id: user_id@, field: *field, amount: *amount as int },
            DbOp::SetBombsExploded { user_id, count } => OpView::SetBombsExploded { user_id: user_id@, count: *count as int },
            DbOp::AddToShopItem { short_name, current_increase, total_increase } => OpView::AddToShopItem {
                short_name: short_name@,
                current_increase: *current_increase as int,
                total_increase: *total_increase as int,
            },
            DbOp::ResetShopCount { short_name } => OpView::ResetShopCount { short_name: short_name@ },
            DbOp::AddTradeLog { message_id, from_user, receiving_user, traded } => OpView::AddTradeLog {
                message_id: message_id@,
                from_user: from_user@,
                receiving_user: receiving_user@,
                traded: traded@,
            },
            DbOp::AddJudgedPost { message_id, message_owner, command_caller, result } => OpView::AddJudgedPost {
                message_id: message_id@,
                message_owner: message_owner@,
                command_caller: command_caller@,
                result: result@,
            },
            DbOp::SetAlias { alias, item } => OpView::SetAlias { alias: alias@, item: item@ },
        }
    }
}

/// The views of a sequence of writes.
pub open spec fn ops_view(ops: Seq<DbOp>) -> Seq<OpView> {
    ops.map_values(|o: DbOp| o@)
}

/// A row of the `user` table.
#[verifier::ext_equal]
pub struct UserRow {
    pub user_name: Seq<char>,
    pub score: int,
    pub plus_two_given: int,
    pub plus_two_received: int,
    pub minus_two_given: int,
    pub minus_two_received: int,
    pub bombs_exploded: int,
}

/// The counters of a row of the `shop_items` table.
#[verifier::ext_equal]
pub struct ShopRow {
    pub current_amount: int,
    pub total_amount: int,
}

/// A row of the `tradeLogs` table.
pub struct TradeLogRow {
    pub message_id: Seq<char>,
    pub from_user: Seq<char>,
    pub receiving_user: Seq<char>,
    pub amount: Seq<char>,
}

/// A row of the `judgedPosts` table.
pub struct JudgedPostRow {
    pub message_id: Seq<char>,
    pub message_owner: Seq<char>,
    pub command_caller: Seq<char>,
    pub result: Seq<char>,
}

/// The tables that the bot's writes change: users, shop items and aliases
/// keyed by user id, item symbol and alias; trade logs and judged posts in
/// the order they were written.
#[verifier::ext_equal]
pub struct Tables {
    pub users: Map<Seq<char>, UserRow>,
    pub shop: Map<Seq<char>, ShopRow>,
    pub aliases: Map<Seq<char>, Seq<char>>,
    pub trade_logs: Seq<TradeLogRow>,
    pub judged_posts: Seq<JudgedPostRow>,
}

/// The number of judged-post rows for a message.
pub open spec fn judged_count(rows: Seq<JudgedPostRow>, message_id: Seq<char>) -> nat
    decreases rows.len(),
{
    if rows.len() == 0 {
        0
    } else {
        judged_count(rows.drop_last(), message_id) + if rows.last().message_id == message_id { 1nat } else { 0nat }
    }
}

/// The value of a counted column.
pub open spec fn field_value(row: UserRow, field: UserField) -> int {
    match field {
        UserField::Score => row.score,
        UserField::PlusTwoGiven => row.plus_two_given,
        UserField::PlusTwoReceived => row.plus_two_received,
        UserField::MinusTwoGiven => row.minus_two_given,
        UserField::MinusTwoReceived => row.minus_two_received,
        UserField::BombsExploded => row.bombs_exploded,
    }
}

/// `row` with `amount` added to one counted column.
pub open spec fn add_to_field(row: UserRow, field: UserField, amount: int) -> UserRow {
    match field {
        UserField::Score => UserRow { score: row.score + amount, ..row },
        UserField::PlusTwoGiven => UserRow { plus_two_given: row.plus_two_given + amount, ..row },
        UserField::PlusTwoReceived => UserRow { plus_two_received: row.plus_two_received + amount, ..row },
        UserField::MinusTwoGiven => UserRow { minus_two_given: row.minus_two_given + amount, ..row },
        UserField::MinusTwoReceived => UserRow { minus_two_received: row.minus_two_received + amount, ..row },
        UserField::BombsExploded => UserRow { bombs_exploded: row.bombs_exploded + amount, ..row },
    }
}

/// The row that a new user starts with (the schema's default of 0 is taken
/// for `bombs_exploded`, which the insert leaves out).
pub open spec fn new_user_row(user_name: Seq<char>) -> UserRow {
    UserRow {
        user_name,
        score: 0,
        plus_two_given: 0,
        plus_two_received: 0,
        minus_two_given: 0,
        minus_two_received: 0,
        bombs_exploded: 0,
    }
}

/// What one write does to the tables. An update of a row that does not exist
/// changes nothing.
pub open spec fn apply_op(t: Tables, op: OpView) -> Tables {
    match op {
        OpView::CreateUser { user_id, user_name } => if t.users.contains_key(user_id) {
            t
        } else {
            Tables { users: t.users.insert(user_id, new_user_row(user_name)), ..t }
        },
        OpView::AddToUser { user_id, field, amount } => if t.users.contains_key(user_id) {
            Tables { users: t.users.insert(user_id, add_to_field(t.users[user_id], field, amount)), ..t }
        } else {
            t
        },
        OpView::SetBombsExploded { user_id, count } => if t.users.contains_key(user_id) {
            Tables { users: t.users.insert(user_id, UserRow { bombs_exploded: count, ..t.users[user_id] }), ..t }
        } else {
            t
        },
        OpView::AddToShopItem { short_name, current_increase, total_increase } => if t.shop.contains_key(short_name) {
            Tables {
                shop: t.shop.insert(
                    short_name,
                    ShopRow {
                        current_amount: t.shop[short_name].current_amount + current_increase,
                        total_amount: t.shop[short_name].total_amount + total_increase,
                    },
                ),
                ..t
            }
        } else {
            t
        },
        OpView::ResetShopCount { short_name } => if t.shop.contains_key(short_name) {
            Tables { shop: t.shop.insert(short_name, ShopRow { current_amount: 1, ..t.shop[short_name] }), ..t }
        } else {
            t
        },
        OpView::SetAlias { alias, item } => Tables { aliases: t.aliases.insert(alias, item), ..t },
        OpView::AddTradeLog { message_id, from_user, receiving_user, traded } => Tables {
            trade_logs: t.trade_logs.push(TradeLogRow { message_id, from_user, receiving_user, amount: traded }),
            ..t
        },
        OpView::AddJudgedPost { message_id, message_owner, command_caller, result } => Tables {
            judged_posts: t.judged_posts.push(JudgedPostRow { message_id, message_owner, command_caller, result }),
            ..t
        },
    }
}

/// What a sequence of writes does, in order.
pub open spec fn apply_ops(t: Tables, ops: Seq<OpView>) -> Tables
    decreases ops.len(),
{
    if ops.len() == 0 {
        t
    } else {
        apply_ops(apply_op(t, ops[0]), ops.skip(1))
    }
}

/// The write that adds `amount` to a counted column of a user.
pub open spec fn add_view(user_id: Seq<char>, field: UserField, amount: int) -> OpView {
    OpView::AddToUser { user_id, field, amount }
}

/// The writes of a trade of `amount` plus twos from `giver` to `receiver`.
pub open spec fn transaction_view(giver: Seq<char>, receiver: Seq<char>, amount: int) -> Seq<OpView> {
    seq![
        add_view(giver, UserField::PlusTwoReceived, -amount),
        add_view(receiver, UserField::PlusTwoReceived, amount),
        add_view(giver, UserField::Score, amount * -2),
        add_view(receiver, UserField::Score, amount * 2),
    ]
}

/// Adds `points` to the score of a user.
pub fn score_update(user_id: &str, points: i16) -> (op: DbOp)
    ensures
        op@ == add_view(user_id@, UserField::Score, points as int),
{
    DbOp::AddToUser { user_id: String::from_str(user_id), field: UserField::Score, amount: points as i64 }
}

/// One for each of the counters: +1, or -1 when the reaction was removed.
pub open spec fn counter_step(removed: bool) -> int {
    if removed { -1 } else { 1 }
}

/// Counts a plus two given by a user (taken back when `removed`).
pub fn gave_plus_two(user_id: &str, removed: bool) -> (op: DbOp)
    ensures
        op@ == add_view(user_id@, UserField::PlusTwoGiven, counter_step(removed)),
{
    let increase: i64 = if removed { -1 } else { 1 };
    DbOp::AddToUser { user_id: String::from_str(user_id), field: UserField::PlusTwoGiven, amount: increase }
}

/// Counts a minus two given by a user (taken back when `removed`).
pub fn gave_minus_two(user_id: &str, removed: bool) -> (op: DbOp)
    ensures
        op@ == add_view(user_id@, UserField::MinusTwoGiven, counter_step(removed)),
{
    let increase: i64 = if removed { -1 } else { 1 };
    DbOp::AddToUser { user_id: String::from_str(user_id), field: UserField::MinusTwoGiven, amount: increase }
}

/// Counts a plus two received by a user (taken back when `removed`).
pub fn received_plus_two(user_id: &str, removed: bool) -> (op: DbOp)
    ensures
        op@ == add_view(user_id@, UserField::PlusTwoReceived, counter_step(removed)),
{
    let increase: i64 = if removed { -1 } else { 1 };
    DbOp::AddToUser { user_id: String::from_str(user_id), field: UserField::PlusTwoReceived, amount: increase }
}

/// Counts a minus two received by a user (taken back when `removed`).
pub fn received_minus_two(user_id: &str, removed: bool) -> (op: DbOp)
    ensures
        op@ == add_view(user_id@, UserField::MinusTwoReceived, counter_step(removed)),
{
    let increase: i64 = if removed { -1 } else { 1 };
    DbOp::AddToUser { user_id: String::from_str(user_id), field: UserField::MinusTwoReceived, amount: increase }
}

/// The counters of a plus two from `giver_id` to `received_id`.
pub fn plus_two(giver_id: &str, received_id: &str, removed: bool) -> (ops: Vec<DbOp>)
    ensures
        ops_view(ops@) == seq![
            add_view(giver_id@, UserField::PlusTwoGiven, counter_step(removed)),
            add_view(received_id@, UserField::PlusTwoReceived, counter_step(removed)),
        ],
{
    let mut ops = Vec::new();
    ops.push(gave_plus_two(giver_id, removed));
    ops.push(received_plus_two(received_id, removed));
    assert(ops_view(ops@) =~= seq![
        add_view(giver_id@, UserField::PlusTwoGiven, counter_step(removed)),
        add_view(received_id@, UserField::PlusTwoReceived, counter_step(removed)),
    ]);
    ops
}

/// The counters of a minus two from `giver_id` to `received_id`.
pub fn minus_two(giver_id: &str, received_id: &str, removed: bool) -> (ops: Vec<DbOp>)
    ensures
        ops_view(ops@) == seq![
            add_view(giver_id@, UserField::MinusTwoGiven, counter_step(removed)),
            add_view(received_id@, UserField::MinusTwoReceived, counter_step(removed)),
        ],
{
    let mut ops = Vec::new();
    ops.push(gave_minus_two(giver_id, removed));
    ops.push(received_minus_two(received_id, removed));
    assert(ops_view(ops@) =~= seq![
        add_view(giver_id@, UserField::MinusTwoGiven, counter_step(removed)),
        add_view(received_id@, UserField::MinusTwoReceived, counter_step(removed)),
    ]);
    ops
}

/// Gives a user `amount_given` plus twos directly.
pub fn give_plus_two(user_id: &str, amount_given: i16) -> (op: DbOp)
    ensures
        op@ == add_view(user_id@, UserField::PlusTwoReceived, amount_given as int),
{
    DbOp::AddToUser { user_id: String::from_str(user_id), field: UserField::PlusTwoReceived, amount: amount_given as i64 }
}

/// Takes `amount_taken` plus twos from a user directly.
pub fn take_plus_two(user_id: &str, amount_taken: i16) -> (op: DbOp)
    ensures
        op@ == add_view(user_id@, UserField::PlusTwoReceived, -(amount_taken as int)),
{
    let amount: i64 = -(amount_taken as i64);
    DbOp::AddToUser { user_id: String::from_str(user_id), field: UserField::PlusTwoReceived, amount }
}

/// Sets the number of times a user has stepped on a bomb.
pub fn set_bombs_exploded(user_id: &str, amount: i16) -> (op: DbOp)
    ensures
        op@ == (OpView::SetBombsExploded { user_id: user_id@, count: amount as int }),
{
    DbOp::SetBombsExploded { user_id: String::from_str(user_id), count: amount }
}

/// Counts one more bomb that a user stepped on.
pub fn increase_bombs_exploded(user_id: &str) -> (op: DbOp)
    ensures
        op@ == add_view(user_id@, UserField::BombsExploded, 1),
{
    DbOp::AddToUser { user_id: String::from_str(user_id), field: UserField::BombsExploded, amount: 1 }
}

/// Creates a user unless one with that id exists.
pub fn create_in_db(user_id: &str, user_name: &str) -> (op: DbOp)
    ensures
        op@ == (OpView::CreateUser { user_id: user_id@, user_name: user_name@ }),
{
    DbOp::CreateUser { user_id: String::from_str(user_id), user_name: String::from_str(user_name) }
}

/// Records a trade in the trade log.
pub fn add_trade_log(message_id: &str, from_user: &str, receiving_user: &str, amount: &str) -> (op: DbOp)
    ensures
        op@ == (OpView::AddTradeLog {
            message_id: message_id@,
            from_user: from_user@,
            receiving_user: receiving_user@,
            traded: amount@,
        }),
{
    DbOp::AddTradeLog {
        message_id: String::from_str(message_id),
        from_user: String::from_str(from_user),
        receiving_user: String::from_str(receiving_user),
        traded: String::from_str(amount),
    }
}

/// Puts the current count of a shop item back to 1.
pub fn reset_count(item: &str) -> (op: DbOp)
    ensures
        op@ == (OpView::ResetShopCount { short_name: item@ }),
{
    DbOp::ResetShopCount { short_name: String::from_str(item) }
}

/// Adds to the current and total counts of a shop item.
pub fn update_shop_count(item_name: &str, current_increase: i16, total_increase: i16) -> (op: DbOp)
    ensures
        op@ == (OpView::AddToShopItem {
            short_name: item_name@,
            current_increase: current_increase as int,
            total_increase: total_increase as int,
        }),
{
    DbOp::AddToShopItem { short_name: String::from_str(item_name), current_increase, total_increase }
}

/// Points an alias at an item, replacing what it pointed at before.
pub fn set_alias(alias: &str, item: &str) -> (op: DbOp)
    ensures
        op@ == (OpView::SetAlias { alias: alias@, item: item@ }),
{
    DbOp::SetAlias { alias: String::from_str(alias), item: String::from_str(item) }
}

/// Moves `amount` plus twos from `giver_id` to `receiver_id`, with two points
/// of score for each. The amount is doubled in an `i16`, hence its range.
pub fn do_transaction(giver_id: &str, receiver_id: &str, amount: i16) -> (ops: Vec<DbOp>)
    requires
        -16383 <= amount <= 16383,
    ensures
        ops_view(ops@) == transaction_view(giver_id@, receiver_id@, amount as int),
{
    let mut ops = Vec::new();
    ops.push(take_plus_two(giver_id, amount));
    ops.push(give_plus_two(receiver_id, amount));
    ops.push(score_update(giver_id, amount * -2));
    ops.push(score_update(receiver_id, amount * 2));
    assert(ops_view(ops@) =~= transaction_view(giver_id@, receiver_id@, amount as int));
    ops
}


/// Running two sequences of writes one after the other is running the
/// concatenation.
pub proof fn lemma_apply_ops_concat(t: Tables, first: Seq<OpView>, second: Seq<OpView>)
    ensures
        apply_ops(t, first + second) == apply_ops(apply_ops(t, first), second),
    decreases first.len(),
{
    if first.len() == 0 {
        assert(first + second =~= second);
    } else {
        assert((first + second).skip(1) =~= first.skip(1) + second);
        lemma_apply_ops_concat(apply_op(t, first[0]), first.skip(1), second);
    }
}

/// Running a single write.
pub proof fn lemma_apply_ops_single(t: Tables, op: OpView)
    ensures
        apply_ops(t, seq![op]) == apply_op(t, op),
{
    reveal_with_fuel(apply_ops, 2);
    assert(seq![op].skip(1) =~= Seq::<OpView>::empty());
}

/// Running two writes.
pub proof fn lemma_apply_ops_two(t: Tables, a: OpView, b: OpView)
    ensures
        apply_ops(t, seq![a, b]) == apply_op(apply_op(t, a), b),
{
    assert(seq![a, b] =~= seq![a] + seq![b]);
    lemma_apply_ops_concat(t, seq![a], seq![b]);
    lemma_apply_ops_single(t, a);
    lemma_apply_ops_single(apply_op(t, a), b);
}

/// Running three writes.
pub proof fn lemma_apply_ops_three(t: Tables, a: OpView, b: OpView, c: OpView)
    ensures
        apply_ops(t, seq![a, b, c]) == apply_op(apply_op(apply_op(t, a), b), c),
{
    assert(seq![a, b, c] =~= seq![a, b] + seq![c]);
    lemma_apply_ops_concat(t, seq![a, b], seq![c]);
    lemma_apply_ops_two(t, a, b);
    lemma_apply_ops_single(apply_op(apply_op(t, a), b), c);
}

/// Adding an amount to a counter and then taking it away again leaves the
/// tables as they were.
pub proof fn lemma_add_then_subtract(t: Tables, user_id: Seq<char>, field: UserField, amount: int)
    ensures
        apply_op(apply_op(t, add_view(user_id, field, amount)), add_view(user_id, field, -amount)) == t,
{
    let t1 = apply_op(t, add_view(user_id, field, amount));
    let t2 = apply_op(t1, add_view(user_id, field, -amount));
    if t.users.contains_key(user_id) {
        assert(add_to_field(add_to_field(t.users[user_id], field, amount), field, -amount) =~= t.users[user_id]);
        assert(t2.users =~= t.users);
    }
    assert(t2 =~= t);
}

/// Two additions to counters can be made in either order.
pub proof fn lemma_adds_commute(
    t: Tables,
    u1: Seq<char>,
    f1: UserField,
    d1: int,
    u2: Seq<char>,
    f2: UserField,
    d2: int,
)
    ensures
        apply_op(apply_op(t, add_view(u1, f1, d1)), add_view(u2, f2, d2)) == apply_op(
            apply_op(t, add_view(u2, f2, d2)),
            add_view(u1, f1, d1),
        ),
{
    let a = apply_op(apply_op(t, add_view(u1, f1, d1)), add_view(u2, f2, d2));
    let b = apply_op(apply_op(t, add_view(u2, f2, d2)), add_view(u1, f1, d1));
    if u1 == u2 && t.users.contains_key(u1) {
        assert(add_to_field(add_to_field(t.users[u1], f1, d1), f2, d2) =~= add_to_field(
            add_to_field(t.users[u1], f2, d2),
            f1,
            d1,
        ));
    }
    assert(a.users =~= b.users);
    assert(a =~= b);
}

/// A trade moves `amount` plus twos, and twice as many points of score, from
/// the giver to the receiver, and changes nothing else: what the giver loses
/// the receiver gains.
pub proof fn lemma_transaction_moves_points(t: Tables, giver: Seq<char>, receiver: Seq<char>, amount: int)
    requires
        t.users.contains_key(giver),
        t.users.contains_key(receiver),
        giver != receiver,
    ensures
        ({
            let after = apply_ops(t, transaction_view(giver, receiver, amount));
            &&& after.users.dom() == t.users.dom()
            &&& after.users[giver] == UserRow {
                score: t.users[giver].score - 2 * amount,
                plus_two_received: t.users[giver].plus_two_received - amount,
                ..t.users[giver]
            }
            &&& after.users[receiver] == UserRow {
                score: t.users[receiver].score + 2 * amount,
                plus_two_received: t.users[receiver].plus_two_received + amount,
                ..t.users[receiver]
            }
            &&& after.users[giver].score + after.users[receiver].score == t.users[giver].score
                + t.users[receiver].score
            &&& after.users[giver].plus_two_received + after.users[receiver].plus_two_received
                == t.users[giver].plus_two_received + t.users[receiver].plus_two_received
            &&& forall|k: Seq<char>|
                k != giver && k != receiver && t.users.contains_key(k) ==> after.users[k]
                    == t.users[k]
            &&& after.shop == t.shop
            &&& after.aliases == t.aliases
        }),
{
    let ops = transaction_view(giver, receiver, amount);
    let t1 = apply_op(t, ops[0]);
    let t2 = apply_op(t1, ops[1]);
    let t3 = apply_op(t2, ops[2]);
    let t4 = apply_op(t3, ops[3]);
    assert(ops =~= seq![ops[0]] + seq![ops[1]] + seq![ops[2]] + seq![ops[3]]);
    lemma_apply_ops_concat(t, seq![ops[0]] + seq![ops[1]] + seq![ops[2]], seq![ops[3]]);
    lemma_apply_ops_concat(t, seq![ops[0]] + seq![ops[1]], seq![ops[2]]);
    lemma_apply_ops_concat(t, seq![ops[0]], seq![ops[1]]);
    lemma_apply_ops_single(t, ops[0]);
    lemma_apply_ops_single(t1, ops[1]);
    lemma_apply_ops_single(t2, ops[2]);
    lemma_apply_ops_single(t3, ops[3]);
    assert(apply_ops(t, ops) == t4);
    assert(t4.users.dom() =~= t.users.dom());
    assert(t4.users[giver] =~= UserRow {
        score: t.users[giver].score - 2 * amount,
        plus_two_received: t.users[giver].plus_two_received - amount,
        ..t.users[giver]
    });
    assert(t4.users[receiver] =~= UserRow {
        score: t.users[receiver].score + 2 * amount,
        plus_two_received: t.users[receiver].plus_two_received + amount,
        ..t.users[receiver]
    });
}

/// The writes of a trade leave the trade log and the judged posts alone.
pub proof fn lemma_transaction_keeps_logs(t: Tables, giver: Seq<char>, receiver: Seq<char>, amount: int)
    ensures
        apply_ops(t, transaction_view(giver, receiver, amount)).trade_logs == t.trade_logs,
        apply_ops(t, transaction_view(giver, receiver, amount)).judged_posts == t.judged_posts,
        apply_ops(t, transaction_view(giver, receiver, amount)).aliases == t.aliases,
{
    let ops = transaction_view(giver, receiver, amount);
    assert(ops =~= seq![ops[0]] + seq![ops[1]] + seq![ops[2]] + seq![ops[3]]);
    lemma_apply_ops_concat(t, seq![ops[0]] + seq![ops[1]] + seq![ops[2]], seq![ops[3]]);
    lemma_apply_ops_concat(t, seq![ops[0]] + seq![ops[1]], seq![ops[2]]);
    lemma_apply_ops_concat(t, seq![ops[0]], seq![ops[1]]);
    let t1 = apply_op(t, ops[0]);
    let t2 = apply_op(t1, ops[1]);
    let t3 = apply_op(t2, ops[2]);
    lemma_apply_ops_single(t, ops[0]);
    lemma_apply_ops_single(t1, ops[1]);
    lemma_apply_ops_single(t2, ops[2]);
    lemma_apply_ops_single(t3, ops[3]);
}

/// A trade with oneself changes nothing.
pub proof fn lemma_self_transaction_changes_nothing(t: Tables, user: Seq<char>, amount: int)
    ensures
        apply_ops(t, transaction_view(user, user, amount)) == t,
{
    let ops = transaction_view(user, user, amount);
    assert(ops =~= seq![ops[0]] + seq![ops[1]] + seq![ops[2]] + seq![ops[3]]);
    lemma_apply_ops_concat(t, seq![ops[0]] + seq![ops[1]] + seq![ops[2]], seq![ops[3]]);
    lemma_apply_ops_concat(t, seq![ops[0]] + seq![ops[1]], seq![ops[2]]);
    lemma_apply_ops_concat(t, seq![ops[0]], seq![ops[1]]);
    let t1 = apply_op(t, ops[0]);
    let t2 = apply_op(t1, ops[1]);
    let t3 = apply_op(t2, ops[2]);
    lemma_apply_ops_single(t, ops[0]);
    lemma_apply_ops_single(t1, ops[1]);
    lemma_apply_ops_single(t2, ops[2]);
    lemma_apply_ops_single(t3, ops[3]);
    lemma_add_then_subtract(t, user, UserField::PlusTwoReceived, -amount);
    assert(-(-amount) == amount);
    lemma_add_then_subtract(t2, user, UserField::Score, amount * -2);
    assert(-(amount * -2) == amount * 2);
}

/// Creating a user that exists changes nothing; creating one twice is
/// creating it once.
pub proof fn lemma_create_user_idempotent(t: Tables, user_id: Seq<char>, user_name: Seq<char>)
    ensures
        t.users.contains_key(user_id) ==> apply_op(t, OpView::CreateUser { user_id, user_name }) == t,
        apply_op(t, OpView::CreateUser { user_id, user_name }).users.contains_key(user_id),
        apply_op(apply_op(t, OpView::CreateUser { user_id, user_name }), OpView::CreateUser { user_id, user_name })
            == apply_op(t, OpView::CreateUser { user_id, user_name }),
{
}

/// After an alias is set, it points at the item it was set to, and every
/// other alias is unchanged.
pub proof fn lemma_alias_read_after_write(t: Tables, alias: Seq<char>, item: Seq<char>, other: Seq<char>)
    ensures
        apply_op(t, OpView::SetAlias { alias, item }).aliases.contains_key(alias),
        apply_op(t, OpView::SetAlias { alias, item }).aliases[alias] == item,
        other != alias ==> (apply_op(t, OpView::SetAlias { alias, item }).aliases.contains_key(other)
            == t.aliases.contains_key(other)),
        other != alias && t.aliases.contains_key(other) ==> apply_op(
            t,
            OpView::SetAlias { alias, item },
        ).aliases[other] == t.aliases[other],
{
}

} // verus!
