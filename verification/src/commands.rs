//! The decisions of the bot's commands: trading plus twos, buying from the
//! shop, judging a post, smash or pass, help, and whose data a command shows.

use vstd::prelude::*;
use crate::config::{Secrets, get_current_bot_id};
use crate::emoji::{CustomEmoji, emoji_choice, emoji_markup, emoji_text, get_emoji};
use crate::events::{bot_id, random_below};
use crate::ledger::{
    DbOp, JudgedPostRow, OpView, ShopRow, Tables, TradeLogRow, UserRow, add_trade_log, apply_ops, do_transaction,
    judged_count, lemma_apply_ops_concat, lemma_apply_ops_single, lemma_transaction_keeps_logs,
    lemma_transaction_moves_points, ops_view, transaction_view, update_shop_count,
};
use crate::text::{AmountError, i64_text, parse_error_allowed, parse_i16, parsed_i16, signed_decimal, text_eq};

verus! {

/// How Discord writes the named emoji of an environment.
pub open spec fn named_emoji_markup(emoji_name: Seq<char>, env: Seq<char>) -> Seq<char> {
    let e = emoji_choice(emoji_name, env);
    emoji_markup(false, e.0, e.1)
}

/// The text of the named emoji of an environment, as a message writes it.
pub fn emoji_in_text(emoji_name: &str, env: &str) -> (res: String)
    ensures
        res@ == named_emoji_markup(emoji_name@, env@),
{
    let e = get_emoji(emoji_name, env);
    emoji_text(&e)
}

/// The first step of a trade: an amount that is not an `i16` is an error
/// (with the reason), a negative one is refused at once, any other needs the
/// trader's balance of plus twos.
#[derive(Debug, PartialEq, Eq)]
pub enum TradeStep {
    InvalidAmount(AmountError),
    Refuse,
    CheckBalance(i16),
}

/// The outcome of a trade once the balance is known.
#[derive(Debug, PartialEq, Eq)]
pub enum TradeOutcome {
    /// The trader has fewer plus twos than the amount.
    Insufficient,
    /// The trade goes ahead with these writes.
    Approved(Vec<DbOp>),
}

/// Reads the amount of a trade: an error unless it is an `i16`, refused when
/// it is negative, and otherwise the amount to check against the balance.
pub fn begin_trade(amount_text: &str) -> (step: TradeStep)
    ensures
        (step is InvalidAmount) == (parsed_i16(amount_text@) is None),
        step matches TradeStep::InvalidAmount(e) ==> parse_error_allowed(amount_text@, e),
        (step is Refuse) == (parsed_i16(amount_text@) matches Some(n) && n < 0),
        step matches TradeStep::CheckBalance(n) ==> parsed_i16(amount_text@) == Some(n) && n >= 0,
{
    match parse_i16(amount_text) {
        Err(e) => TradeStep::InvalidAmount(e),
        Ok(amount) => if amount < 0 {
            TradeStep::Refuse
        } else {
            TradeStep::CheckBalance(amount)
        },
    }
}

/// The writes of a trade: the plus twos and twice as many points move, and
/// the trade log gains a row (message, the traders' names, the amount as
/// typed).
pub open spec fn trade_view(
    message_id: Seq<char>,
    from_user_id: Seq<char>,
    from_name: Seq<char>,
    receiving_user_id: Seq<char>,
    receiving_name: Seq<char>,
    amount_text: Seq<char>,
    amount: int,
) -> Seq<OpView> {
    transaction_view(from_user_id, receiving_user_id, amount).push(
        OpView::AddTradeLog {
            message_id,
            from_user: from_name,
            receiving_user: receiving_name,
            traded: amount_text,
        },
    )
}

/// Settles a trade of `amount` plus twos from `from_user_id`, who has
/// `balance`, to `receiving_user_id`: refused when the balance is short,
/// otherwise the plus twos and twice as many points move and the trade is
/// logged. The amount is doubled in an `i16`, which overflows above 16383.
pub fn settle_trade(
    message_id: &str,
    from_user_id: &str,
    from_name: &str,
    receiving_user_id: &str,
    receiving_name: &str,
    amount_text: &str,
    amount: i16,
    balance: i64,
) -> (res: TradeOutcome)
    requires
        0 <= amount,
        balance >= amount ==> amount <= 16383,
    ensures
        (res is Insufficient) == (balance < amount),
        res matches TradeOutcome::Approved(ops) ==> ops_view(ops@) == trade_view(
            message_id@,
            from_user_id@,
            from_name@,
            receiving_user_id@,
            receiving_name@,
            amount_text@,
            amount as int,
        ),
{
    if balance < amount as i64 {
        return TradeOutcome::Insufficient;
    }
    let mut ops = do_transaction(from_user_id, receiving_user_id, amount);
    let ghost moved = ops_view(ops@);
    ops.push(add_trade_log(message_id, from_name, receiving_name, amount_text));
    assert(ops_view(ops@) =~= moved.push(
        OpView::AddTradeLog {
            message_id: message_id@,
            from_user: from_name@,
            receiving_user: receiving_name@,
            traded: amount_text@,
        },
    ));
    TradeOutcome::Approved(ops)
}

/// A trade moves the plus twos and twice as many points from the trader to
/// the receiver, changes no other user, and adds exactly its row to the trade
/// log.
pub proof fn lemma_trade_effect(
    t: Tables,
    message_id: Seq<char>,
    from_user_id: Seq<char>,
    from_name: Seq<char>,
    receiving_user_id: Seq<char>,
    receiving_name: Seq<char>,
    amount_text: Seq<char>,
    amount: int,
)
    requires
        t.users.contains_key(from_user_id),
        t.users.contains_key(receiving_user_id),
        from_user_id != receiving_user_id,
    ensures
        ({
            let after = apply_ops(
                t,
                trade_view(message_id, from_user_id, from_name, receiving_user_id, receiving_name, amount_text, amount),
            );
            &&& after.users.dom() == t.users.dom()
            &&& after.users[from_user_id] == UserRow {
                score: t.users[from_user_id].score - 2 * amount,
                plus_two_received: t.users[from_user_id].plus_two_received - amount,
                ..t.users[from_user_id]
            }
            &&& after.users[receiving_user_id] == UserRow {
                score: t.users[receiving_user_id].score + 2 * amount,
                plus_two_received: t.users[receiving_user_id].plus_two_received + amount,
                ..t.users[receiving_user_id]
            }
            &&& forall|k: Seq<char>|
                k != from_user_id && k != receiving_user_id && t.users.contains_key(k) ==> after.users[k]
                    == t.users[k]
            &&& after.trade_logs == t.trade_logs.push(
                TradeLogRow { message_id, from_user: from_name, receiving_user: receiving_name, amount: amount_text },
            )
            &&& after.shop == t.shop
            &&& after.judged_posts == t.judged_posts
        }),
{
    let log = OpView::AddTradeLog {
        message_id,
        from_user: from_name,
        receiving_user: receiving_name,
        traded: amount_text,
    };
    let moved = transaction_view(from_user_id, receiving_user_id, amount);
    assert(moved.push(log) =~= moved + seq![log]);
    lemma_apply_ops_concat(t, moved, seq![log]);
    lemma_transaction_moves_points(t, from_user_id, receiving_user_id, amount);
    lemma_apply_ops_single(apply_ops(t, moved), log);
    lemma_transaction_keeps_logs(t, from_user_id, receiving_user_id, amount);
}

/// The reply when the trader is short of plus twos.
pub open spec fn insufficient_reply(author_name: Seq<char>, balance: int, env: Seq<char>) -> Seq<char> {
    author_name + " only has "@ + signed_decimal(balance) + " "@ + named_emoji_markup("plus_two"@, env)
        + ". Not enough to continue this transaction."@
}

/// The reply when the trader is short of plus twos.
pub fn insufficient_balance_message(author_name: &str, balance: i64, env: &str) -> (res: String)
    ensures
        res@ == insufficient_reply(author_name@, balance as int, env@),
{
    let mut res = String::from_str(author_name);
    res.append(" only has ");
    let count = i64_text(balance);
    res.append(count.as_str());
    res.append(" ");
    let emoji = emoji_in_text("plus_two", env);
    res.append(emoji.as_str());
    res.append(". Not enough to continue this transaction.");
    res
}

/// The reply after a trade, with both traders' new scores.
pub open spec fn trade_reply(
    from_name: Seq<char>,
    receiving_name: Seq<char>,
    amount_text: Seq<char>,
    env: Seq<char>,
    from_score: int,
    receiving_score: int,
) -> Seq<char> {
    from_name + " has traded "@ + receiving_name + " "@ + amount_text + " "@ + named_emoji_markup("plus_two"@, env)
        + ". The updated scores are "@ + from_name + ": "@ + signed_decimal(from_score) + " and "@
        + receiving_name + ": "@ + signed_decimal(receiving_score)
}

/// The reply after a trade, with both traders' new scores.
pub fn trade_message(
    from_name: &str,
    receiving_name: &str,
    amount_text: &str,
    env: &str,
    from_score: i64,
    receiving_score: i64,
) -> (res: String)
    ensures
        res@ == trade_reply(from_name@, receiving_name@, amount_text@, env@, from_score as int, receiving_score as int),
{
    let mut res = String::from_str(from_name);
    res.append(" has traded ");
    res.append(receiving_name);
    res.append(" ");
    res.append(amount_text);
    res.append(" ");
    let emoji = emoji_in_text("plus_two", env);
    res.append(emoji.as_str());
    res.append(". The updated scores are ");
    res.append(from_name);
    res.append(": ");
    let from_text = i64_text(from_score);
    res.append(from_text.as_str());
    res.append(" and ");
    res.append(receiving_name);
    res.append(": ");
    let receiving_text = i64_text(receiving_score);
    res.append(receiving_text.as_str());
    res
}

/// The outcome of buying from the shop.
#[derive(Debug, PartialEq, Eq)]
pub enum BuyOutcome {
    /// The buyer has fewer plus twos than the price.
    NotEnough,
    /// The item is bought with these writes.
    Bought(Vec<DbOp>),
}

/// Buys the shop item `short_name` at `price` for `buyer_id`, who has
/// `balance` plus twos: the price is paid to the bot as a trade (the price
/// taken as an `i16`, truncating as `as` does) and the item's current and total
/// counts go up by one. The doubled price must fit an `i16`.
pub fn plan_buy(buyer_id: &str, secrets: &Secrets, balance: i64, price: i64, short_name: &str) -> (res: BuyOutcome)
    requires
        balance >= price ==> -16383 <= price as i16 <= 16383,
    ensures
        (res is NotEnough) == (balance < price),
        res matches BuyOutcome::Bought(ops) ==> ops_view(ops@) == transaction_view(
            buyer_id@,
            bot_id(*secrets),
            (price as i16) as int,
        ).push(OpView::AddToShopItem { short_name: short_name@, current_increase: 1, total_increase: 1 }),
{
    if balance < price {
        return BuyOutcome::NotEnough;
    }
    let current_bot_id = get_current_bot_id(secrets);
    let mut ops = do_transaction(buyer_id, current_bot_id.as_str(), price as i16);
    let ghost paid = ops_view(ops@);
    ops.push(update_shop_count(short_name, 1, 1));
    assert(ops_view(ops@) =~= paid.push(
        OpView::AddToShopItem { short_name: short_name@, current_increase: 1, total_increase: 1 },
    ));
    BuyOutcome::Bought(ops)
}

/// A purchase pays the bot twice the price in points and the price in plus
/// twos, and counts one more of the item, current and in total.
pub proof fn lemma_purchase_effect(t: Tables, buyer: Seq<char>, bot: Seq<char>, price: int, short_name: Seq<char>)
    requires
        t.users.contains_key(buyer),
        t.users.contains_key(bot),
        buyer != bot,
        t.shop.contains_key(short_name),
    ensures
        ({
            let after = apply_ops(
                t,
                transaction_view(buyer, bot, price).push(
                    OpView::AddToShopItem { short_name, current_increase: 1, total_increase: 1 },
                ),
            );
            &&& after.users[buyer] == UserRow {
                score: t.users[buyer].score - 2 * price,
                plus_two_received: t.users[buyer].plus_two_received - price,
                ..t.users[buyer]
            }
            &&& after.users[bot] == UserRow {
                score: t.users[bot].score + 2 * price,
                plus_two_received: t.users[bot].plus_two_received + price,
                ..t.users[bot]
            }
            &&& after.shop[short_name] == ShopRow {
                current_amount: t.shop[short_name].current_amount + 1,
                total_amount: t.shop[short_name].total_amount + 1,
            }
        }),
{
    let add = OpView::AddToShopItem { short_name, current_increase: 1, total_increase: 1 };
    let paid = transaction_view(buyer, bot, price);
    assert(paid.push(add) =~= paid + seq![add]);
    lemma_apply_ops_concat(t, paid, seq![add]);
    lemma_transaction_moves_points(t, buyer, bot, price);
    lemma_apply_ops_single(apply_ops(t, paid), add);
}

/// The reply when the buyer is short of plus twos.
pub fn not_enough_message(env: &str) -> (res: String)
    ensures
        res@ == "Not Enough "@ + named_emoji_markup("plus_two"@, env@),
{
    let mut res = String::from_str("Not Enough ");
    let emoji = emoji_in_text("plus_two", env);
    res.append(emoji.as_str());
    res
}

/// What the judge command does.
#[derive(Debug, PartialEq, Eq)]
pub enum JudgeOutcome {
    /// The command was not a reply to a post.
    NotAReply,
    /// The post was judged before.
    AlreadyJudged,
    /// The post is judged now, and the judgement recorded with this write.
    Judge(DbOp),
}

/// A post is judged when the judged posts hold at least one row for it.
pub fn has_been_judged(matching_rows: usize) -> (res: bool)
    ensures
        res == (matching_rows >= 1),
{
    matching_rows >= 1
}

/// The emojis a judgement is drawn from: the plus and the minus emoji.
pub fn judge_emojis(env: &str) -> (res: Vec<CustomEmoji>)
    ensures
        res@.len() == 2,
        (res@[0].id, res@[0].name@) == emoji_choice("plus_two"@, env@),
        (res@[1].id, res@[1].name@) == emoji_choice("minus_two"@, env@),
        !res@[0].animated && !res@[1].animated,
{
    let mut res = Vec::new();
    res.push(get_emoji("plus_two", env));
    res.push(get_emoji("minus_two", env));
    res
}

/// A judgement drawn at random from `judge_emojis`: a +2 or a -2.
pub fn pick_judgement(env: &str) -> (res: CustomEmoji)
    ensures
        !res.animated,
        (res.id, res.name@) == emoji_choice("plus_two"@, env@) || (res.id, res.name@) == emoji_choice(
            "minus_two"@,
            env@,
        ),
{
    let mut emojis = judge_emojis(env);
    let i = random_below(2);
    if i == 0 {
        emojis.swap_remove(0)
    } else {
        emojis.swap_remove(1)
    }
}

/// The write that records a judgement.
pub fn judged_post(message_id: &str, message_owner: &str, command_caller: &str, result: &str) -> (op: DbOp)
    ensures
        op@ == (OpView::AddJudgedPost {
            message_id: message_id@,
            message_owner: message_owner@,
            command_caller: command_caller@,
            result: result@,
        }),
{
    DbOp::AddJudgedPost {
        message_id: String::from_str(message_id),
        message_owner: String::from_str(message_owner),
        command_caller: String::from_str(command_caller),
        result: String::from_str(result),
    }
}

/// The writes of a judgement: a post that is replied to and has no judged
/// row yet gets one, recording the judgement's emoji as written in a message;
/// otherwise nothing is written.
pub open spec fn judge_writes(
    is_reply: bool,
    matching_rows: int,
    message_id: Seq<char>,
    message_owner: Seq<char>,
    command_caller: Seq<char>,
    judgement: (bool, u64, Seq<char>),
) -> Seq<OpView> {
    if is_reply && matching_rows == 0 {
        seq![
            OpView::AddJudgedPost {
                message_id,
                message_owner,
                command_caller,
                result: emoji_markup(judgement.0, judgement.1, judgement.2),
            },
        ]
    } else {
        seq![]
    }
}

/// Judges only a post the command replies to, and only when the judged
/// posts hold no row for it (`matching_rows`).
pub fn plan_judge(
    is_reply: bool,
    matching_rows: usize,
    message_id: &str,
    message_owner: &str,
    command_caller: &str,
    judgement: &CustomEmoji,
) -> (res: JudgeOutcome)
    requires
        judgement.id != 0,
    ensures
        (res is NotAReply) == !is_reply,
        (res is AlreadyJudged) == (is_reply && matching_rows >= 1),
        res matches JudgeOutcome::Judge(op) ==> is_reply && matching_rows == 0 && seq![op@] == judge_writes(
            is_reply,
            matching_rows as int,
            message_id@,
            message_owner@,
            command_caller@,
            (judgement.animated, judgement.id, judgement.name@),
        ),
{
    if !is_reply {
        JudgeOutcome::NotAReply
    } else if has_been_judged(matching_rows) {
        JudgeOutcome::AlreadyJudged
    } else {
        let result = emoji_text(judgement);
        JudgeOutcome::Judge(judged_post(message_id, message_owner, command_caller, result.as_str()))
    }
}

/// Adding a row for another message leaves a message's count as it is, and
/// one for the message adds one.
proof fn lemma_judged_count_push(rows: Seq<JudgedPostRow>, row: JudgedPostRow, message_id: Seq<char>)
    ensures
        judged_count(rows.push(row), message_id) == judged_count(rows, message_id) + if row.message_id
            == message_id {
            1nat
        } else {
            0nat
        },
{
    assert(rows.push(row).drop_last() =~= rows);
}

/// Judging never records a post twice: the judgement's writes leave the
/// post with one judged row when it had none, and unchanged when it had some.
pub proof fn lemma_judge_never_duplicates(
    t: Tables,
    is_reply: bool,
    message_id: Seq<char>,
    message_owner: Seq<char>,
    command_caller: Seq<char>,
    judgement: (bool, u64, Seq<char>),
)
    ensures
        ({
            let before = judged_count(t.judged_posts, message_id);
            let after = apply_ops(
                t,
                judge_writes(is_reply, before as int, message_id, message_owner, command_caller, judgement),
            );
            &&& judged_count(after.judged_posts, message_id) == if is_reply && before == 0 {
                1nat
            } else {
                before
            }
            &&& judged_count(after.judged_posts, message_id) <= 1 <== before <= 1
            &&& after.users == t.users
        }),
{
    let before = judged_count(t.judged_posts, message_id);
    if is_reply && before == 0 {
        let op = OpView::AddJudgedPost {
            message_id,
            message_owner,
            command_caller,
            result: emoji_markup(judgement.0, judgement.1, judgement.2),
        };
        lemma_apply_ops_single(t, op);
        lemma_judged_count_push(
            t.judged_posts,
            JudgedPostRow { message_id, message_owner, command_caller, result: emoji_markup(judgement.0, judgement.1, judgement.2) },
            message_id,
        );
    } else {
        reveal_with_fuel(apply_ops, 1);
    }
}

/// The smash-or-pass verdict of a coin flip: `Smash` or `Pass`.
pub fn smash_reply(smash: bool) -> (res: String)
    ensures
        res@ == (if smash { "Smash"@ } else { "Pass"@ }),
{
    if smash {
        String::from_str("Smash")
    } else {
        String::from_str("Pass")
    }
}

/// What help is asked for when a command other than `help` leads to the help
/// menu: that command's name, followed by a space and the asked-for text
/// when there is some.
pub fn help_query(invoked_command_name: &str, command: Option<String>) -> (res: Option<String>)
    ensures
        invoked_command_name@ == "help"@ ==> res == command,
        invoked_command_name@ != "help"@ ==> res is Some && res->0@ == (match command {
            Some(c) => invoked_command_name@ + " "@ + c@,
            None => invoked_command_name@,
        }),
{
    if text_eq(invoked_command_name, "help") {
        return command;
    }
    match command {
        Some(c) => {
            let mut res = String::from_str(invoked_command_name);
            res.append(" ");
            res.append(c.as_str());
            Some(res)
        },
        None => Some(String::from_str(invoked_command_name)),
    }
}

/// Whose data a command shows: the author of the message it replies to, or
/// else the caller.
pub fn target_user(author_id: u64, referenced_author_id: Option<u64>) -> (res: u64)
    ensures
        res == (match referenced_author_id {
            Some(id) => id,
            None => author_id,
        }),
{
    match referenced_author_id {
        Some(id) => id,
        None => author_id,
    }
}

} // verus!
