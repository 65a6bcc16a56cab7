//! What the bot does when a message is posted or a reaction is added or
//! removed: the decisions, as the writes and replies they lead to.

use vstd::prelude::*;
use crate::config::{Secrets, env_name, get_current_bot_id, get_env, is_bot};
use crate::emoji::{emoji_choice, emoji_markup, emoji_text, get_emoji, points_from_reaction, reaction_points};
use crate::ledger::{
    DbOp, OpView, Tables, UserField, add_view, apply_op, apply_ops, lemma_add_then_subtract, lemma_adds_commute,
    UserRow, lemma_apply_ops_concat, lemma_apply_ops_single, lemma_apply_ops_three, lemma_apply_ops_two,
    lemma_transaction_moves_points, counter_step, create_in_db, do_transaction, increase_bombs_exploded,
    ops_view, reset_count, score_update, transaction_view,
};
use crate::text::{signed_decimal, i64_text, text_eq};

verus! {

/// The range of the roll against the number of active bombs.
pub const MAX_BOMB_RANGE: i64 = 300;
/// The points a user loses to the bot when stepping on a bomb.
pub const BOMB_POINTS_LOST: i16 = 20;
/// How long a user who stepped on a bomb is timed out, in seconds.
pub const TIME_OUT_SECONDS: i64 = 600;
/// The roll (out of 0 to 100) on which a posted image is rotated.
pub const LUCKY_NUMBER: i64 = 7;

/// One thing the bot does in answer to an event.
#[derive(Debug, PartialEq, Eq)]
pub enum BotAction {
    /// A write to the database.
    Write(DbOp),
    /// Time the author out until `get_time_out_time` of now.
    TimeOutAuthor,
    /// Reply to the message with this text.
    Reply(String),
    /// Post the message's image turned upside down.
    RotateAttachedImage,
}

/// An action over mathematical values.
pub enum ActionView {
    Write(OpView),
    TimeOutAuthor,
    Reply(Seq<char>),
    RotateAttachedImage,
}

impl View for BotAction {
    type V = ActionView;

    open spec fn view(&self) -> ActionView {
        match self {
            BotAction::Write(op) => ActionView::Write(op@),
            BotAction::TimeOutAuthor => ActionView::TimeOutAuthor,
            BotAction::Reply(text) => ActionView::Reply(text@),
            BotAction::RotateAttachedImage => ActionView::RotateAttachedImage,
        }
    }
}

/// The views of a sequence of actions.
pub open spec fn actions_view(actions: Seq<BotAction>) -> Seq<ActionView> {
    actions.map_values(|a: BotAction| a@)
}

/// Writes as actions.
pub open spec fn writes(ops: Seq<OpView>) -> Seq<ActionView> {
    ops.map_values(|o: OpView| ActionView::Write(o))
}

/// The writes for a reaction of `reactor` with an emoji on a message of
/// `author`, or for taking it back (`removed`). Reacting to one's own message
/// counts for nothing.
pub open spec fn reaction_ops(reactor: Seq<char>, author: Seq<char>, emoji_id: Option<u64>, removed: bool) -> Seq<OpView> {
    if reactor == author {
        seq![]
    } else {
        let points = reaction_points(emoji_id) as int;
        let counters = if points == 2 {
            seq![
                add_view(reactor, UserField::PlusTwoGiven, counter_step(removed)),
                add_view(author, UserField::PlusTwoReceived, counter_step(removed)),
            ]
        } else if points == -2 {
            seq![
                add_view(reactor, UserField::MinusTwoGiven, counter_step(removed)),
                add_view(author, UserField::MinusTwoReceived, counter_step(removed)),
            ]
        } else {
            seq![]
        };
        counters.push(add_view(author, UserField::Score, if removed { -points } else { points }))
    }
}

/// The writes when `reactor_id` reacts to a message of `author_id` with the
/// custom emoji `emoji_id` (`None` for a unicode emoji).
pub fn reaction_add(reactor_id: &str, author_id: &str, emoji_id: Option<u64>) -> (ops: Vec<DbOp>)
    ensures
        ops_view(ops@) == reaction_ops(reactor_id@, author_id@, emoji_id, false),
{
    reaction_writes(reactor_id, author_id, emoji_id, false)
}

/// The writes when `reactor_id` takes back a reaction to a message of `author_id`.
pub fn reaction_remove(reactor_id: &str, author_id: &str, emoji_id: Option<u64>) -> (ops: Vec<DbOp>)
    ensures
        ops_view(ops@) == reaction_ops(reactor_id@, author_id@, emoji_id, true),
{
    reaction_writes(reactor_id, author_id, emoji_id, true)
}

fn reaction_writes(reactor_id: &str, author_id: &str, emoji_id: Option<u64>, removed: bool) -> (ops: Vec<DbOp>)
    ensures
        ops_view(ops@) == reaction_ops(reactor_id@, author_id@, emoji_id, removed),
{
    let mut ops: Vec<DbOp> = Vec::new();
    if text_eq(reactor_id, author_id) {
        assert(ops_view(ops@) =~= reaction_ops(reactor_id@, author_id@, emoji_id, removed));
        return ops;
    }
    let score = points_from_reaction(emoji_id);
    if score == 2 {
        let mut counters = crate::ledger::plus_two(reactor_id, author_id, removed);
        ops.append(&mut counters);
    }
    if score == -2 {
        let mut counters = crate::ledger::minus_two(reactor_id, author_id, removed);
        ops.append(&mut counters);
    }
    let points: i16 = if removed { -score } else { score };
    ops.push(score_update(author_id, points));
    assert(ops_view(ops@) =~= reaction_ops(reactor_id@, author_id@, emoji_id, removed));
    ops
}

/// The reply when someone steps on a bomb, with the bot's plus emoji.
pub open spec fn bomb_reply(env: Seq<char>) -> Seq<char> {
    let emoji = emoji_choice("winner"@, env);
    emoji_markup(false, emoji.0, emoji.1) + " oh nyo, >w< wooks wike somebwody got bwown up and wost "@
        + signed_decimal(BOMB_POINTS_LOST as int) + " pwoints. "@
}

/// Whether `id` is one of the bot's own user ids.
pub open spec fn is_bot_id(id: Seq<char>, secrets: Secrets) -> bool {
    id == secrets.testing_bot_user_id@ || id == secrets.live_bot_user_id@
}

/// The user id of the running bot.
pub open spec fn bot_id(secrets: Secrets) -> Seq<char> {
    if env_name(secrets.environment@) == "live"@ {
        secrets.live_bot_user_id@
    } else {
        secrets.testing_bot_user_id@
    }
}

/// What the bot does with a message: it makes sure its author has a row;
/// unless the author is the bot, a roll at or under the number of active
/// bombs (`mine`) blows the author up (timed out, the bombs reset to 1, one
/// more bomb counted, the points paid to the bot, and a reply), and an image
/// whose roll is the lucky number is rotated.
pub open spec fn message_plan(
    author_id: Seq<char>,
    author_name: Seq<char>,
    secrets: Secrets,
    bombs: int,
    has_attachments: bool,
    bomb_roll: int,
    rotate_roll: int,
) -> Seq<ActionView> {
    let create = seq![ActionView::Write(OpView::CreateUser { user_id: author_id, user_name: author_name })];
    if is_bot_id(author_id, secrets) {
        create
    } else {
        create + bomb_actions(author_id, secrets, bombs, bomb_roll) + rotate_actions(has_attachments, rotate_roll)
    }
}

/// The writes when `author` steps on a bomb: the active bombs go back to 1,
/// one more bomb is counted for the author, and the author pays the bot.
pub open spec fn bomb_writes(author: Seq<char>, bot: Seq<char>) -> Seq<OpView> {
    seq![
        OpView::ResetShopCount { short_name: "mine"@ },
        add_view(author, UserField::BombsExploded, 1),
    ] + transaction_view(author, bot, BOMB_POINTS_LOST as int)
}

/// What stepping on a bomb does, when the roll is at or under the number of bombs.
pub open spec fn bomb_actions(author_id: Seq<char>, secrets: Secrets, bombs: int, bomb_roll: int) -> Seq<ActionView> {
    if bomb_roll <= bombs {
        seq![ActionView::TimeOutAuthor] + writes(bomb_writes(author_id, bot_id(secrets))) + seq![
            ActionView::Reply(bomb_reply(env_name(secrets.environment@))),
        ]
    } else {
        seq![]
    }
}

/// The rotation of an attached image, on the lucky roll.
pub open spec fn rotate_actions(has_attachments: bool, rotate_roll: int) -> Seq<ActionView> {
    if has_attachments && rotate_roll == LUCKY_NUMBER {
        seq![ActionView::RotateAttachedImage]
    } else {
        seq![]
    }
}

/// The actions for a message, given the two rolls.
pub fn plan_message(
    author_id: &str,
    author_name: &str,
    secrets: &Secrets,
    bombs: i64,
    has_attachments: bool,
    bomb_roll: i64,
    rotate_roll: i64,
) -> (actions: Vec<BotAction>)
    ensures
        actions_view(actions@) == message_plan(
            author_id@,
            author_name@,
            *secrets,
            bombs as int,
            has_attachments,
            bomb_roll as int,
            rotate_roll as int,
        ),
{
    let mut actions: Vec<BotAction> = Vec::new();
    actions.push(BotAction::Write(create_in_db(author_id, author_name)));
    let ghost create = actions_view(actions@);
    if is_bot(author_id, secrets) {
        assert(actions_view(actions@) =~= message_plan(
            author_id@, author_name@, *secrets, bombs as int, has_attachments, bomb_roll as int, rotate_roll as int));
        return actions;
    }
    let ghost before_bomb = actions_view(actions@);
    if bomb_roll <= bombs {
        let current_bot_id = get_current_bot_id(secrets);
        actions.push(BotAction::TimeOutAuthor);
        actions.push(BotAction::Write(reset_count("mine")));
        actions.push(BotAction::Write(increase_bombs_exploded(author_id)));
        let ops = do_transaction(author_id, current_bot_id.as_str(), BOMB_POINTS_LOST);
        let ghost before_ops = actions_view(actions@);
        assert(current_bot_id@ == bot_id(*secrets));
        let mut i: usize = 0;
        while i < ops.len()
            invariant
                i <= ops.len(),
                actions_view(actions@) == before_ops + writes(ops_view(ops@).take(i as int)),
            decreases ops.len() - i,
        {
            let op = clone_op(&ops[i]);
            let ghost prev = actions_view(actions@);
            actions.push(BotAction::Write(op));
            assert(actions_view(actions@) =~= prev.push(ActionView::Write(ops@[i as int]@)));
            assert(writes(ops_view(ops@).take(i + 1)) =~= writes(ops_view(ops@).take(i as int)).push(
                ActionView::Write(ops@[i as int]@),
            ));
            assert(actions_view(actions@) =~= before_ops + writes(ops_view(ops@).take(i + 1)));
            i = i + 1;
        }
        assert(ops_view(ops@).take(ops.len() as int) =~= ops_view(ops@));
        let env = get_env(secrets);
        let winner = get_emoji("winner", env.as_str());
        let mut reply = emoji_text(&winner);
        reply.append(" oh nyo, >w< wooks wike somebwody got bwown up and wost ");
        let points = i64_text(BOMB_POINTS_LOST as i64);
        reply.append(points.as_str());
        reply.append(" pwoints. ");
        assert(reply@ == bomb_reply(env_name(secrets.environment@)));
        let ghost before_reply = actions_view(actions@);
        actions.push(BotAction::Reply(reply));
        assert(actions_view(actions@) =~= before_reply.push(ActionView::Reply(bomb_reply(env_name(secrets.environment@)))));
        assert(before_ops =~= before_bomb + seq![
            ActionView::TimeOutAuthor,
            ActionView::Write(OpView::ResetShopCount { short_name: "mine"@ }),
            ActionView::Write(add_view(author_id@, UserField::BombsExploded, 1)),
        ]);
        assert(writes(bomb_writes(author_id@, bot_id(*secrets))) =~= seq![
            ActionView::Write(OpView::ResetShopCount { short_name: "mine"@ }),
            ActionView::Write(add_view(author_id@, UserField::BombsExploded, 1)),
        ] + writes(transaction_view(author_id@, bot_id(*secrets), BOMB_POINTS_LOST as int)));
    }
    let ghost before_rotate = actions_view(actions@);
    assert(before_rotate =~= create + bomb_actions(author_id@, *secrets, bombs as int, bomb_roll as int));
    if has_attachments && rotate_roll == LUCKY_NUMBER {
        actions.push(BotAction::RotateAttachedImage);
    }
    assert(actions_view(actions@) =~= before_rotate + rotate_actions(has_attachments, rotate_roll as int));
    assert(actions_view(actions@) =~= message_plan(
        author_id@, author_name@, *secrets, bombs as int, has_attachments, bomb_roll as int, rotate_roll as int));
    actions
}

/// A copy of a write.
fn clone_op(op: &DbOp) -> (res: DbOp)
    ensures
        res@ == op@,
{
    match op {
        DbOp::CreateUser { user_id, user_name } => DbOp::CreateUser { user_id: user_id.clone(), user_name: user_name.clone() },
        DbOp::AddToUser { user_id, field, amount } => DbOp::AddToUser { user_id: user_id.clone(), field: *field, amount: *amount },
        DbOp::SetBombsExploded { user_id, count } => DbOp::SetBombsExploded { user_id: user_id.clone(), count: *count },
        DbOp::AddToShopItem { short_name, current_increase, total_increase } => DbOp::AddToShopItem {
            short_name: short_name.clone(),
            current_increase: *current_increase,
            total_increase: *total_increase,
        },
        DbOp::ResetShopCount { short_name } => DbOp::ResetShopCount { short_name: short_name.clone() },
        DbOp::AddTradeLog { message_id, from_user, receiving_user, traded } => DbOp::AddTradeLog {
            message_id: message_id.clone(),
            from_user: from_user.clone(),
            receiving_user: receiving_user.clone(),
            traded: traded.clone(),
        },
        DbOp::AddJudgedPost { message_id, message_owner, command_caller, result } => DbOp::AddJudgedPost {
            message_id: message_id.clone(),
            message_owner: message_owner.clone(),
            command_caller: command_caller.clone(),
            result: result.clone(),
        },
        DbOp::SetAlias { alias, item } => DbOp::SetAlias { alias: alias.clone(), item: item.clone() },
    }
}

/// `Rng::random_range` of rand over `0..bound`: a number drawn at random,
/// at least 0 and below `bound` (rand panics on an empty range).
#[verifier::external_body]
pub(crate) fn random_below(bound: i64) -> (r: i64)
    requires
        bound > 0,
    ensures
        0 <= r < bound,
{
    rand::Rng::random_range(&mut rand::rng(), 0..bound)
}

/// What the bot does with a message of `author_id`, given the number of
/// active bombs: it rolls against the bombs, and for a message with an
/// attachment against the lucky number, and acts as `message_plan` says for
/// the rolls drawn.
pub fn on_message(
    author_id: &str,
    author_name: &str,
    secrets: &Secrets,
    bombs: i64,
    has_attachments: bool,
) -> (actions: Vec<BotAction>)
    ensures
        exists|bomb_roll: int, rotate_roll: int|
            0 <= bomb_roll < MAX_BOMB_RANGE && 0 <= rotate_roll <= 100 && actions_view(actions@)
                == message_plan(
                author_id@,
                author_name@,
                *secrets,
                bombs as int,
                has_attachments,
                bomb_roll,
                rotate_roll,
            ),
{
    let bomb_roll = random_below(MAX_BOMB_RANGE);
    let rotate_roll = if has_attachments { random_below(101) } else { 0 };
    let actions = plan_message(author_id, author_name, secrets, bombs, has_attachments, bomb_roll, rotate_roll);
    assert(0 <= bomb_roll < MAX_BOMB_RANGE && 0 <= rotate_roll <= 100 && actions_view(actions@)
        == message_plan(author_id@, author_name@, *secrets, bombs as int, has_attachments, bomb_roll as int, rotate_roll as int));
    actions
}

/// When the time out of a user who stepped on a bomb ends: ten minutes
/// after `now` (seconds since the epoch).
pub fn get_time_out_time(now: i64) -> (res: i64)
    requires
        now <= i64::MAX - TIME_OUT_SECONDS,
    ensures
        res == now + TIME_OUT_SECONDS,
{
    now + TIME_OUT_SECONDS
}


/// Three additions to counters followed by the three opposite additions
/// leave the tables as they were.
proof fn lemma_three_adds_cancel(
    t: Tables,
    u1: Seq<char>,
    f1: UserField,
    d1: int,
    u2: Seq<char>,
    f2: UserField,
    d2: int,
    u3: Seq<char>,
    f3: UserField,
    d3: int,
)
    ensures
        apply_ops(
            apply_ops(t, seq![add_view(u1, f1, d1), add_view(u2, f2, d2), add_view(u3, f3, d3)]),
            seq![add_view(u1, f1, -d1), add_view(u2, f2, -d2), add_view(u3, f3, -d3)],
        ) == t,
{
    let x1 = add_view(u1, f1, d1);
    let x2 = add_view(u2, f2, d2);
    let x3 = add_view(u3, f3, d3);
    let y1 = add_view(u1, f1, -d1);
    let y2 = add_view(u2, f2, -d2);
    let y3 = add_view(u3, f3, -d3);
    lemma_apply_ops_three(t, x1, x2, x3);
    let s1 = apply_op(t, x1);
    let s2 = apply_op(s1, x2);
    let s3 = apply_op(s2, x3);
    lemma_apply_ops_three(s3, y1, y2, y3);
    lemma_adds_commute(s2, u3, f3, d3, u1, f1, -d1);
    lemma_adds_commute(s1, u2, f2, d2, u1, f1, -d1);
    lemma_add_then_subtract(t, u1, f1, d1);
    lemma_adds_commute(apply_op(t, x2), u3, f3, d3, u2, f2, -d2);
    lemma_add_then_subtract(t, u2, f2, d2);
    lemma_add_then_subtract(t, u3, f3, d3);
}

/// Taking back a reaction undoes it: adding a reaction and then removing it
/// leaves every score and counter as it was.
pub proof fn lemma_reaction_remove_undoes_add(t: Tables, reactor: Seq<char>, author: Seq<char>, emoji_id: Option<u64>)
    ensures
        apply_ops(
            apply_ops(t, reaction_ops(reactor, author, emoji_id, false)),
            reaction_ops(reactor, author, emoji_id, true),
        ) == t,
{
    reveal_with_fuel(apply_ops, 2);
    if reactor == author {
        assert(apply_ops(t, seq![]) == t);
    } else {
        let p = reaction_points(emoji_id) as int;
        if p == 2 {
            assert(reaction_ops(reactor, author, emoji_id, false) =~= seq![
                add_view(reactor, UserField::PlusTwoGiven, 1),
                add_view(author, UserField::PlusTwoReceived, 1),
                add_view(author, UserField::Score, 2),
            ]);
            assert(reaction_ops(reactor, author, emoji_id, true) =~= seq![
                add_view(reactor, UserField::PlusTwoGiven, -1),
                add_view(author, UserField::PlusTwoReceived, -1),
                add_view(author, UserField::Score, -2),
            ]);
            lemma_three_adds_cancel(t, reactor, UserField::PlusTwoGiven, 1, author, UserField::PlusTwoReceived, 1,
                author, UserField::Score, 2);
        } else if p == -2 {
            assert(reaction_ops(reactor, author, emoji_id, false) =~= seq![
                add_view(reactor, UserField::MinusTwoGiven, 1),
                add_view(author, UserField::MinusTwoReceived, 1),
                add_view(author, UserField::Score, -2),
            ]);
            assert(reaction_ops(reactor, author, emoji_id, true) =~= seq![
                add_view(reactor, UserField::MinusTwoGiven, -1),
                add_view(author, UserField::MinusTwoReceived, -1),
                add_view(author, UserField::Score, 2),
            ]);
            lemma_three_adds_cancel(t, reactor, UserField::MinusTwoGiven, 1, author, UserField::MinusTwoReceived, 1,
                author, UserField::Score, -2);
        } else {
            assert(reaction_ops(reactor, author, emoji_id, false) =~= seq![add_view(author, UserField::Score, p)]);
            assert(reaction_ops(reactor, author, emoji_id, true) =~= seq![add_view(author, UserField::Score, -p)]);
            lemma_apply_ops_single(t, add_view(author, UserField::Score, p));
            lemma_apply_ops_single(apply_op(t, add_view(author, UserField::Score, p)), add_view(author, UserField::Score, -p));
            lemma_add_then_subtract(t, author, UserField::Score, p);
        }
    }
}

/// A +2 reaction from another user gives the message's author two points and
/// counts one plus two given and one received; a -2 reaction takes two points
/// and counts a minus two each way; any other emoji, or a reaction to one's own
/// message, changes no score.
pub proof fn lemma_reaction_scores(t: Tables, reactor: Seq<char>, author: Seq<char>, emoji_id: Option<u64>)
    requires
        t.users.contains_key(reactor),
        t.users.contains_key(author),
    ensures
        ({
            let after = apply_ops(t, reaction_ops(reactor, author, emoji_id, false));
            let p = reaction_points(emoji_id) as int;
            &&& reactor == author ==> after == t
            &&& reactor != author ==> after.users[author].score == t.users[author].score + p
            &&& reactor != author && p == 2 ==> after.users[reactor].plus_two_given
                == t.users[reactor].plus_two_given + 1 && after.users[author].plus_two_received
                == t.users[author].plus_two_received + 1
            &&& reactor != author && p == -2 ==> after.users[reactor].minus_two_given
                == t.users[reactor].minus_two_given + 1 && after.users[author].minus_two_received
                == t.users[author].minus_two_received + 1
            &&& reactor != author ==> after.users[reactor].score == t.users[reactor].score
        }),
{
    reveal_with_fuel(apply_ops, 2);
    let p = reaction_points(emoji_id) as int;
    if reactor != author {
        if p == 2 {
            assert(reaction_ops(reactor, author, emoji_id, false) =~= seq![
                add_view(reactor, UserField::PlusTwoGiven, 1),
                add_view(author, UserField::PlusTwoReceived, 1),
                add_view(author, UserField::Score, 2),
            ]);
            lemma_apply_ops_three(t, add_view(reactor, UserField::PlusTwoGiven, 1),
                add_view(author, UserField::PlusTwoReceived, 1), add_view(author, UserField::Score, 2));
        } else if p == -2 {
            assert(reaction_ops(reactor, author, emoji_id, false) =~= seq![
                add_view(reactor, UserField::MinusTwoGiven, 1),
                add_view(author, UserField::MinusTwoReceived, 1),
                add_view(author, UserField::Score, -2),
            ]);
            lemma_apply_ops_three(t, add_view(reactor, UserField::MinusTwoGiven, 1),
                add_view(author, UserField::MinusTwoReceived, 1), add_view(author, UserField::Score, -2));
        } else {
            assert(reaction_ops(reactor, author, emoji_id, false) =~= seq![add_view(author, UserField::Score, p)]);
            lemma_apply_ops_single(t, add_view(author, UserField::Score, p));
        }
    }
}


/// A reaction by another user, or taking it back, touches exactly three
/// things: the reactor's given counter of the emoji's kind, the author's
/// received counter of that kind (one up, or one down when taken back; no
/// counter for an emoji that scores nothing) and the author's score (the
/// emoji's points, or minus them when taken back). Every other column of
/// those two users, every other user, the shop, the aliases and the logs stay
/// as they were; in particular a -2 never touches a plus-two wallet.
pub proof fn lemma_reaction_touches_only_its_counters(
    t: Tables,
    reactor: Seq<char>,
    author: Seq<char>,
    emoji_id: Option<u64>,
    removed: bool,
)
    requires
        t.users.contains_key(reactor),
        t.users.contains_key(author),
        reactor != author,
    ensures
        ({
            let after = apply_ops(t, reaction_ops(reactor, author, emoji_id, removed));
            let p = reaction_points(emoji_id) as int;
            let step: int = if removed { -1 } else { 1 };
            let plus: int = if p == 2 { step } else { 0 };
            let minus: int = if p == -2 { step } else { 0 };
            &&& after.users.dom() == t.users.dom()
            &&& after.users[author] == UserRow {
                score: t.users[author].score + p * step,
                plus_two_received: t.users[author].plus_two_received + plus,
                minus_two_received: t.users[author].minus_two_received + minus,
                ..t.users[author]
            }
            &&& after.users[reactor] == UserRow {
                plus_two_given: t.users[reactor].plus_two_given + plus,
                minus_two_given: t.users[reactor].minus_two_given + minus,
                ..t.users[reactor]
            }
            &&& forall|u: Seq<char>| u != reactor && u != author ==> #[trigger] after.users.get(u) == t.users.get(u)
            &&& after.shop == t.shop
            &&& after.aliases == t.aliases
            &&& after.trade_logs == t.trade_logs
            &&& after.judged_posts == t.judged_posts
        }),
{
    let p = reaction_points(emoji_id) as int;
    let step: int = if removed { -1 } else { 1 };
    let score = add_view(author, UserField::Score, if removed { -p } else { p });
    assert(counter_step(removed) == step);
    if p == 2 {
        let a = add_view(reactor, UserField::PlusTwoGiven, step);
        let b = add_view(author, UserField::PlusTwoReceived, step);
        assert(reaction_ops(reactor, author, emoji_id, removed) =~= seq![a, b, score]);
        lemma_apply_ops_three(t, a, b, score);
    } else if p == -2 {
        let a = add_view(reactor, UserField::MinusTwoGiven, step);
        let b = add_view(author, UserField::MinusTwoReceived, step);
        assert(reaction_ops(reactor, author, emoji_id, removed) =~= seq![a, b, score]);
        lemma_apply_ops_three(t, a, b, score);
    } else {
        assert(reaction_ops(reactor, author, emoji_id, removed) =~= seq![score]);
        lemma_apply_ops_single(t, score);
    }
    let after = apply_ops(t, reaction_ops(reactor, author, emoji_id, removed));
    assert(after.users.dom() =~= t.users.dom());
    assert(after.users[author] =~= UserRow {
        score: t.users[author].score + p * step,
        plus_two_received: t.users[author].plus_two_received + (if p == 2 { step } else { 0 }),
        minus_two_received: t.users[author].minus_two_received + (if p == -2 { step } else { 0 }),
        ..t.users[author]
    });
    assert(after.users[reactor] =~= UserRow {
        plus_two_given: t.users[reactor].plus_two_given + (if p == 2 { step } else { 0 }),
        minus_two_given: t.users[reactor].minus_two_given + (if p == -2 { step } else { 0 }),
        ..t.users[reactor]
    });
}

/// A message's image is rotated exactly when the author is not the bot, the
/// message has attachments and the rotate roll is 7: on every other roll, and
/// for the bot's own messages, the plan holds no rotation.
pub proof fn lemma_rotation_only_on_seven(
    author_id: Seq<char>,
    author_name: Seq<char>,
    secrets: Secrets,
    bombs: int,
    has_attachments: bool,
    bomb_roll: int,
    rotate_roll: int,
)
    ensures
        message_plan(author_id, author_name, secrets, bombs, has_attachments, bomb_roll, rotate_roll).contains(
            ActionView::RotateAttachedImage,
        ) <==> (!is_bot_id(author_id, secrets) && has_attachments && rotate_roll == 7),
{
    let plan = message_plan(author_id, author_name, secrets, bombs, has_attachments, bomb_roll, rotate_roll);
    let create = seq![ActionView::Write(OpView::CreateUser { user_id: author_id, user_name: author_name })];
    let bomb = bomb_actions(author_id, secrets, bombs, bomb_roll);
    let rotate = rotate_actions(has_attachments, rotate_roll);
    assert forall|i: int| 0 <= i < bomb.len() implies bomb[i] != ActionView::RotateAttachedImage by {
        if bomb_roll <= bombs {
            let w = writes(bomb_writes(author_id, bot_id(secrets)));
            let r = seq![ActionView::Reply(bomb_reply(env_name(secrets.environment@)))];
            assert(bomb == seq![ActionView::TimeOutAuthor] + w + r);
            if 1 <= i < 1 + w.len() {
                assert(bomb[i] == w[i - 1]);
            }
        }
    }
    if is_bot_id(author_id, secrets) {
        assert(plan == create);
        assert(!plan.contains(ActionView::RotateAttachedImage));
    } else {
        assert(plan == create + bomb + rotate);
        if has_attachments && rotate_roll == 7 {
            assert(plan[plan.len() - 1] == ActionView::RotateAttachedImage);
        } else {
            assert(rotate.len() == 0);
            assert forall|i: int| 0 <= i < plan.len() implies plan[i] != ActionView::RotateAttachedImage by {
                if i >= 1 {
                    assert(plan[i] == bomb[i - 1]);
                }
            }
        }
    }
}

/// Every message first makes sure its author has a row; the author is timed
/// out (stepped on a bomb) exactly when the author is not the bot and the
/// bomb roll is at or under the number of active bombs.
pub proof fn lemma_bomb_only_at_or_under_count(
    author_id: Seq<char>,
    author_name: Seq<char>,
    secrets: Secrets,
    bombs: int,
    has_attachments: bool,
    bomb_roll: int,
    rotate_roll: int,
)
    ensures
        ({
            let plan = message_plan(author_id, author_name, secrets, bombs, has_attachments, bomb_roll, rotate_roll);
            &&& plan.len() >= 1
            &&& plan[0] == ActionView::Write(OpView::CreateUser { user_id: author_id, user_name: author_name })
            &&& plan.contains(ActionView::TimeOutAuthor) <==> (!is_bot_id(author_id, secrets) && bomb_roll <= bombs)
        }),
{
    let plan = message_plan(author_id, author_name, secrets, bombs, has_attachments, bomb_roll, rotate_roll);
    let create = seq![ActionView::Write(OpView::CreateUser { user_id: author_id, user_name: author_name })];
    let bomb = bomb_actions(author_id, secrets, bombs, bomb_roll);
    let rotate = rotate_actions(has_attachments, rotate_roll);
    assert forall|i: int| 0 <= i < rotate.len() implies rotate[i] != ActionView::TimeOutAuthor by {}
    if is_bot_id(author_id, secrets) {
        assert(plan == create);
        assert(!plan.contains(ActionView::TimeOutAuthor));
    } else {
        assert(plan == create + bomb + rotate);
        assert(plan[0] == create[0]);
        if bomb_roll <= bombs {
            assert(plan[1] == ActionView::TimeOutAuthor);
        } else {
            assert(bomb.len() == 0);
            assert forall|i: int| 0 <= i < plan.len() implies plan[i] != ActionView::TimeOutAuthor by {
                if i >= 1 {
                    assert(plan[i] == rotate[i - 1]);
                }
            }
        }
    }
}

/// Stepping on a bomb puts the active bombs back to 1, counts one more bomb
/// for the author, and moves 20 plus twos and 40 points from the author to
/// the bot.
pub proof fn lemma_bomb_effect(t: Tables, author: Seq<char>, bot: Seq<char>)
    requires
        t.users.contains_key(author),
        t.users.contains_key(bot),
        author != bot,
        t.shop.contains_key("mine"@),
    ensures
        ({
            let after = apply_ops(t, bomb_writes(author, bot));
            &&& after.shop["mine"@].current_amount == 1
            &&& after.shop["mine"@].total_amount == t.shop["mine"@].total_amount
            &&& after.users[author] == UserRow {
                score: t.users[author].score - 40,
                plus_two_received: t.users[author].plus_two_received - 20,
                bombs_exploded: t.users[author].bombs_exploded + 1,
                ..t.users[author]
            }
            &&& after.users[bot] == UserRow {
                score: t.users[bot].score + 40,
                plus_two_received: t.users[bot].plus_two_received + 20,
                ..t.users[bot]
            }
        }),
{
    let reset = OpView::ResetShopCount { short_name: "mine"@ };
    let count = add_view(author, UserField::BombsExploded, 1);
    lemma_apply_ops_concat(t, seq![reset, count], transaction_view(author, bot, BOMB_POINTS_LOST as int));
    lemma_apply_ops_two(t, reset, count);
    let mid = apply_op(apply_op(t, reset), count);
    lemma_transaction_moves_points(mid, author, bot, BOMB_POINTS_LOST as int);
}

} // verus!
