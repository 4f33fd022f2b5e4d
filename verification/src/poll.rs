//! Polls: their options, their buttons, the votes they accept and the
//! results they show.
use vstd::prelude::*;
use crate::text::{decimal, decimal_text, signed_decimal, push_signed_decimal};
use crate::random::is_v4_uuid;

verus! {

/// The custom id data of an option's button.
#[derive(Debug, Clone, Copy, PartialEq, Eq)]
pub struct PollOptionCustomId {
    /// The id of the `poll_option` row
    pub id: u128,
    /// The id of the `poll` row
    pub poll_id: u128,
    /// The option number
    pub option: i8,
}

/// The custom id data of a poll's `Clear Votes` button.
#[derive(Debug, Clone, Copy, PartialEq, Eq)]
pub struct PollClearCustomId {
    /// The id of the `poll` row
    pub poll_id: u128,
}

/// The number of options of a poll, as the `options` argument gives it.
#[derive(Debug, Clone, Copy, PartialEq, Eq)]
pub struct PollOptions(pub i8);

/// Why an argument could not be read.
#[derive(Debug, Clone)]
pub struct ArgumentError {
    pub argument_name: String,
    pub argument_type: String,
    pub error: String,
    pub required: bool,
}

/// The fewest options a poll can have.
pub open spec fn min_options() -> int {
    2
}

/// The most options a poll can have.
pub open spec fn max_options() -> int {
    24
}

impl PollOptions {
    /// Reads the number of options: it must lie between 2 and 24.
    pub fn parse(value: i8) -> (res: Result<PollOptions, ArgumentError>)
        ensures
            res is Ok <==> min_options() <= value <= max_options(),
            res matches Ok(p) ==> p.0 == value,
            res matches Err(e) ==> {
                &&& e.argument_name@ == "options"@
                &&& e.argument_type@ == "PollOptions"@
                &&& e.error@ == "Polls must have between 2 and 25 options."@
                &&& e.required
            },
    {
        if value < 2 || value > 24 {
            Err(
                ArgumentError {
                    argument_name: String::from_str("options"),
                    argument_type: String::from_str("PollOptions"),
                    error: String::from_str("Polls must have between 2 and 25 options."),
                    required: true,
                },
            )
        } else {
            Ok(PollOptions(value))
        }
    }

    /// The least and the greatest number of options that the command offers.
    pub fn limits() -> (res: (i64, i64))
        ensures
            res.0 == min_options(),
            res.1 == max_options(),
    {
        (2, 24)
    }
}

/// The style of a button.
#[derive(Debug, Clone, Copy, PartialEq, Eq)]
pub enum ButtonStyle {
    Secondary,
    Danger,
}

/// A button of a poll's message.
pub struct PollButton {
    pub custom_id: u128,
    pub label: String,
    pub emoji: Option<char>,
    pub style: ButtonStyle,
}

/// A button as plain values: custom id, label, emoji, style.
pub type ButtonView = (u128, Seq<char>, Option<char>, ButtonStyle);

pub open spec fn button_view(b: PollButton) -> ButtonView {
    (b.custom_id, b.label@, b.emoji, b.style)
}

pub open spec fn row_view(r: Vec<PollButton>) -> Seq<ButtonView> {
    r@.map_values(|b: PollButton| button_view(b))
}

pub open spec fn rows_view(rows: Seq<Vec<PollButton>>) -> Seq<Seq<ButtonView>> {
    rows.map_values(|r: Vec<PollButton>| row_view(r))
}

/// The button of option `o` (counted from 1).
pub open spec fn option_button(o: int, button_ids: Seq<u128>, emojis: Seq<char>) -> ButtonView {
    (button_ids[o - 1], decimal(o as nat), Some(emojis[o - 1]), ButtonStyle::Secondary)
}

/// The rows of the first `k` option buttons: five to a row, in order.
pub open spec fn option_rows(k: int, button_ids: Seq<u128>, emojis: Seq<char>) -> Seq<Seq<ButtonView>>
    decreases k,
{
    if k <= 0 {
        Seq::empty()
    } else {
        let prev = option_rows(k - 1, button_ids, emojis);
        let b = option_button(k, button_ids, emojis);
        if (k - 1) % 5 == 0 {
            prev.push(seq![b])
        } else {
            prev.update(prev.len() - 1, prev.last().push(b))
        }
    }
}

/// The `Clear Votes` button.
pub open spec fn clear_button(custom_id: u128) -> ButtonView {
    (custom_id, "Clear Votes"@, None, ButtonStyle::Danger)
}

/// The rows of a poll's message: the option buttons, and the `Clear Votes`
/// button at the end of the last row, or in a row of its own when the last
/// row already holds five buttons.
pub open spec fn poll_rows(n: int, button_ids: Seq<u128>, emojis: Seq<char>, clear_id: u128) -> Seq<Seq<ButtonView>> {
    let rows = option_rows(n, button_ids, emojis);
    if rows.last().len() == 5 {
        rows.push(seq![clear_button(clear_id)])
    } else {
        rows.update(rows.len() - 1, rows.last().push(clear_button(clear_id)))
    }
}

/// The shape of the option rows: one row per five options, all of them full
/// but the last, which holds the rest.
pub proof fn lemma_option_rows_shape(k: int, button_ids: Seq<u128>, emojis: Seq<char>)
    requires
        k >= 0,
    ensures
        option_rows(k, button_ids, emojis).len() == (k + 4) / 5,
        forall|r: int|
            0 <= r < (k + 4) / 5 ==> #[trigger] option_rows(k, button_ids, emojis)[r].len() == (
            if r < (k + 4) / 5 - 1 {
                5
            } else {
                k - 5 * r
            }),
        forall|r: int, c: int|
            0 <= r < (k + 4) / 5 && 0 <= c < option_rows(k, button_ids, emojis)[r].len()
                ==> #[trigger] option_rows(k, button_ids, emojis)[r][c] == option_button(
                5 * r + c + 1,
                button_ids,
                emojis,
            ),
    decreases k,
{
    if k > 0 {
        lemma_option_rows_shape(k - 1, button_ids, emojis);
    }
}

/// An option of a poll as stored: the custom id of its button, and what
/// that custom id stands for.
pub struct PollOptionEntry {
    pub custom_id: u128,
    pub data: PollOptionCustomId,
}

/// The entries of the options, in order.
pub open spec fn option_entries(n: int, poll_id: u128, option_ids: Seq<u128>, button_ids: Seq<u128>) -> Seq<(u128, PollOptionCustomId)> {
    Seq::new(
        n as nat,
        |i: int| (button_ids[i], PollOptionCustomId { id: option_ids[i], poll_id, option: (i + 1) as i8 }),
    )
}

/// The word for one vote or several.
pub open spec fn votes_word(votes: i8) -> Seq<char> {
    if votes == 1 {
        "vote"@
    } else {
        "votes"@
    }
}

/// The text of a poll's message.
pub open spec fn poll_description_text(author_name: Seq<char>, votes: i8) -> Seq<char> {
    "@"@ + author_name + " created a new poll!\nVote for up to `"@ + signed_decimal(votes as int)
        + "` option"@ + (if votes == 1 {
        ""@
    } else {
        "s"@
    }) + " by clicking the buttons below.\n### Information\n\n- If you've already voted, and you'd like to change your "@
        + votes_word(votes)
        + ":\n  - votes = 1: click a different option\n  - votes > 1: click the trash can button to reset your votes\n- If you want to clear your "@
        + votes_word(votes)
        + ", click the trash can button.\n- If you have multiple votes, you can vote for the same option multiple times.\n"@
}

/// Writes the text of a poll's message.
pub fn poll_description(author_name: &str, votes: i8) -> (res: String)
    ensures
        res@ == poll_description_text(author_name@, votes),
{
    let mut res = String::new();
    res.append("@");
    res.append(author_name);
    res.append(" created a new poll!\nVote for up to `");
    push_signed_decimal(&mut res, votes as i64);
    res.append("` option");
    if votes == 1 {
        res.append("");
    } else {
        res.append("s");
    }
    res.append(" by clicking the buttons below.\n### Information\n\n- If you've already voted, and you'd like to change your ");
    if votes == 1 {
        res.append("vote");
    } else {
        res.append("votes");
    }
    res.append(":\n  - votes = 1: click a different option\n  - votes > 1: click the trash can button to reset your votes\n- If you want to clear your ");
    if votes == 1 {
        res.append("vote");
    } else {
        res.append("votes");
    }
    res.append(", click the trash can button.\n- If you have multiple votes, you can vote for the same option multiple times.\n");
    assert(res@ =~= poll_description_text(author_name@, votes));
    res
}

/// Everything a new poll consists of: its id, the votes each user may cast,
/// the rows of buttons of its message, its options as stored, its
/// `Clear Votes` button as stored, and the text of its message.
pub struct PollPlan {
    pub poll_id: u128,
    pub votes: i8,
    pub rows: Vec<Vec<PollButton>>,
    pub entries: Vec<PollOptionEntry>,
    pub clear_id: u128,
    pub clear: PollClearCustomId,
    pub description: String,
}

pub open spec fn entries_view(entries: Seq<PollOptionEntry>) -> Seq<(u128, PollOptionCustomId)> {
    entries.map_values(|e: PollOptionEntry| (e.custom_id, e.data))
}

/// A poll as plain values.
pub type PollView = (u128, i8, Seq<Seq<ButtonView>>, Seq<(u128, PollOptionCustomId)>, u128, PollClearCustomId, Seq<char>);

pub open spec fn plan_view(p: PollPlan) -> PollView {
    (p.poll_id, p.votes, rows_view(p.rows@), entries_view(p.entries@), p.clear_id, p.clear, p.description@)
}

/// The poll with `n` options that `author_name` creates, `votes` votes per
/// user, given its ids and the emojis of its buttons (one per option).
pub open spec fn poll_plan(
    n: int,
    votes: i8,
    author_name: Seq<char>,
    poll_id: u128,
    option_ids: Seq<u128>,
    button_ids: Seq<u128>,
    clear_id: u128,
    emojis: Seq<char>,
) -> PollView {
    (
        poll_id,
        votes,
        poll_rows(n, button_ids, emojis, clear_id),
        option_entries(n, poll_id, option_ids, button_ids),
        clear_id,
        PollClearCustomId { poll_id },
        poll_description_text(author_name, votes),
    )
}

/// Lays out a poll with `n` options from the ids and emojis it is given.
pub fn build_poll(
    n: i8,
    votes: i8,
    author_name: &str,
    poll_id: u128,
    option_ids: &Vec<u128>,
    button_ids: &Vec<u128>,
    clear_id: u128,
    emojis: &Vec<char>,
) -> (res: PollPlan)
    requires
        n >= 1,
        option_ids@.len() == n,
        button_ids@.len() == n,
        emojis@.len() == n,
    ensures
        plan_view(res) == poll_plan(
            n as int,
            votes,
            author_name@,
            poll_id,
            option_ids@,
            button_ids@,
            clear_id,
            emojis@,
        ),
{
    let count = n as usize;
    let mut done: Vec<Vec<PollButton>> = Vec::new();
    let mut cur: Vec<PollButton> = Vec::new();
    let mut entries: Vec<PollOptionEntry> = Vec::new();
    let mut k: usize = 0;
    while k < count
        invariant
            count == n as int,
            n >= 1,
            option_ids@.len() == n,
            button_ids@.len() == n,
            emojis@.len() == n,
            k <= count,
            cur@.len() == k % 5,
            option_rows(k as int, button_ids@, emojis@) == (if cur@.len() == 0 {
                rows_view(done@)
            } else {
                rows_view(done@).push(row_view(cur))
            }),
            entries_view(entries@) == option_entries(k as int, poll_id, option_ids@, button_ids@),
        decreases count - k,
    {
        let o: i8 = (k + 1) as i8;
        let label = decimal_text((k + 1) as u64);
        let b = PollButton {
            custom_id: button_ids[k],
            label,
            emoji: Some(emojis[k]),
            style: ButtonStyle::Secondary,
        };
        assert(button_view(b) == option_button(k + 1, button_ids@, emojis@));
        let ghost d0 = rows_view(done@);
        let ghost c0 = row_view(cur);
        cur.push(b);
        assert(row_view(cur) =~= c0.push(button_view(b)));
        assert(option_rows(k + 1, button_ids@, emojis@) =~= d0.push(row_view(cur))) by {
            if k % 5 == 0 {
                assert(c0.len() == 0);
                assert(row_view(cur) =~= seq![option_button(k + 1, button_ids@, emojis@)]);
            }
        }
        if cur.len() == 5 {
            let full = cur;
            cur = Vec::new();
            done.push(full);
            assert(rows_view(done@) =~= d0.push(row_view(full)));
        }
        let ghost e0 = entries_view(entries@);
        let e = PollOptionEntry {
            custom_id: button_ids[k],
            data: PollOptionCustomId { id: option_ids[k], poll_id, option: o },
        };
        entries.push(e);
        assert(entries_view(entries@) =~= e0.push((e.custom_id, e.data)));
        assert(entries_view(entries@) =~= option_entries(k + 1, poll_id, option_ids@, button_ids@));
        k = k + 1;
    }
    proof {
        lemma_option_rows_shape(n as int, button_ids@, emojis@);
    }
    let clear = PollButton {
        custom_id: clear_id,
        label: String::from_str("Clear Votes"),
        emoji: None,
        style: ButtonStyle::Danger,
    };
    let ghost rows = option_rows(n as int, button_ids@, emojis@);
    if cur.len() == 0 {
        let mut last: Vec<PollButton> = Vec::new();
        last.push(clear);
        assert(row_view(last) =~= seq![clear_button(clear_id)]);
        let ghost before = rows_view(done@);
        done.push(last);
        assert(rows_view(done@) =~= before.push(seq![clear_button(clear_id)]));
    } else {
        let ghost prev_cur = row_view(cur);
        cur.push(clear);
        assert(row_view(cur) =~= prev_cur.push(clear_button(clear_id)));
        let ghost before = rows_view(done@);
        done.push(cur);
        assert(rows_view(done@) =~= rows.update(
            rows.len() - 1,
            rows.last().push(clear_button(clear_id)),
        ));
    }
    let description = poll_description(author_name, votes);
    PollPlan {
        poll_id,
        votes,
        rows: done,
        entries,
        clear_id,
        clear: PollClearCustomId { poll_id },
        description,
    }
}

/// The emojis that a poll's buttons are labelled with, picked from at random.
pub open spec fn emoji_pool() -> Seq<char> {
    seq!['🍎', '🥑', '🍌', '🍒', '🍇', '🍏', '🥝', '🍋', '🥭', '🍈', '🍑', '🍐', '🍍', '🍓', '🍊', '🍅', '🍉', '🥥', '🌽', '🫑', '🍆', '🫒', '🥔', '🧅', '🧄', '🍠', '🌽']
}

/// The emojis that a poll's buttons are labelled with.
pub fn poll_emojis() -> (res: Vec<char>)
    ensures
        res@ == emoji_pool(),
{
    let mut v: Vec<char> = Vec::new();
    v.push('🍎');
    v.push('🥑');
    v.push('🍌');
    v.push('🍒');
    v.push('🍇');
    v.push('🍏');
    v.push('🥝');
    v.push('🍋');
    v.push('🥭');
    v.push('🍈');
    v.push('🍑');
    v.push('🍐');
    v.push('🍍');
    v.push('🍓');
    v.push('🍊');
    v.push('🍅');
    v.push('🍉');
    v.push('🥥');
    v.push('🌽');
    v.push('🫑');
    v.push('🍆');
    v.push('🫒');
    v.push('🥔');
    v.push('🧅');
    v.push('🧄');
    v.push('🍠');
    v.push('🌽');
    assert(v@ =~= emoji_pool());
    v
}

/// The votes per user that a poll gets: those asked for, else one.
pub open spec fn chosen_votes(votes: Option<i8>) -> i8 {
    match votes {
        Some(v) => v,
        None => 1,
    }
}

/// Whether a poll with `options` options may give each user `votes` votes:
/// at least one, and fewer than the options.
pub open spec fn votes_allowed(options: int, votes: int) -> bool {
    1 <= votes && votes <= options - 1
}

/// Each user may be given any number of votes from one up to one less than
/// the options: one fewer than the options is accepted, as many as the
/// options, or none, is refused.
pub proof fn law_votes_allowed_up_to_one_less(options: int, votes: int)
    ensures
        votes_allowed(options, votes) <==> (1 <= votes && votes < options),
        options >= 2 ==> votes_allowed(options, options - 1) && votes_allowed(options, 1),
        !votes_allowed(options, options),
        !votes_allowed(options, 0),
{
}

/// Why a poll was not created.
#[derive(Debug, Clone, Copy, PartialEq, Eq)]
pub enum PollError {
    /// The votes per user are not between one and one less than the options.
    InvalidVotes,
}

/// The reply to a poll that was not created.
pub fn poll_error_message(err: PollError) -> (res: String)
    ensures
        res@ == "Votes must be greater than `0` and at least one less than `options`."@,
{
    match err {
        PollError::InvalidVotes => String::from_str(
            "Votes must be greater than `0` and at least one less than `options`.",
        ),
    }
}

fn new_uuids(n: usize) -> (res: Vec<u128>)
    ensures
        res@.len() == n,
        forall|i: int| 0 <= i < n ==> is_v4_uuid(#[trigger] res@[i]),
{
    let mut v: Vec<u128> = Vec::new();
    let mut i: usize = 0;
    while i < n
        invariant
            i <= n,
            v@.len() == i,
            forall|j: int| 0 <= j < i ==> is_v4_uuid(#[trigger] v@[j]),
        decreases n - i,
    {
        v.push(crate::random::new_uuid());
        i = i + 1;
    }
    v
}

/// A poll laid out as `build_poll` does with some version-4 UUIDs as its
/// ids, and with emojis picked from the pool, each position at most once.
pub open spec fn is_new_poll(p: PollPlan, options: i8, votes: Option<i8>, author_name: Seq<char>) -> bool {
    &&& is_v4_uuid(p.poll_id)
    &&& is_v4_uuid(p.clear_id)
    &&& exists|option_ids: Seq<u128>, button_ids: Seq<u128>, emojis: Seq<char>|
        {
            &&& option_ids.len() == options
            &&& button_ids.len() == options
            &&& forall|i: int| 0 <= i < options ==> is_v4_uuid(#[trigger] option_ids[i])
            &&& forall|i: int| 0 <= i < options ==> is_v4_uuid(#[trigger] button_ids[i])
            &&& emojis.len() == options
            &&& emojis.to_multiset().subset_of(emoji_pool().to_multiset())
            &&& plan_view(p) == #[trigger] poll_plan(
                options as int,
                chosen_votes(votes),
                author_name,
                p.poll_id,
                option_ids,
                button_ids,
                p.clear_id,
                emojis,
            )
        }
}

/// Creates a poll with `options` options, of which each user may pick
/// `votes` (one when not given), made by `author_name`: fresh random ids,
/// and one emoji per option picked at random from the pool.
pub fn new_poll(options: i8, votes: Option<i8>, author_name: &str) -> (res: Result<PollPlan, PollError>)
    requires
        options > i8::MIN,
        votes_allowed(options as int, chosen_votes(votes) as int) ==> options <= emoji_pool().len(),
    ensures
        res is Ok <==> votes_allowed(options as int, chosen_votes(votes) as int),
        res is Ok <==> (1 <= chosen_votes(votes) && chosen_votes(votes) < options),
        res matches Err(e) ==> e == PollError::InvalidVotes,
        res matches Ok(p) ==> p.votes == chosen_votes(votes),
        res matches Ok(p) ==> is_new_poll(p, options, votes, author_name@),
{
    let per_user = match votes {
        Some(v) => v,
        None => 1,
    };
    if per_user < 1 || per_user > options - 1 {
        return Err(PollError::InvalidVotes);
    }
    let poll_id = crate::random::new_uuid();
    let option_ids = new_uuids(options as usize);
    let pool = poll_emojis();
    let emojis = crate::random::choose_chars(&pool, options as usize);
    let button_ids = new_uuids(options as usize);
    let clear_id = crate::random::new_uuid();
    assert(emoji_pool().len() == 27);
    assert(emojis@.len() == options);
    assert(emojis@.to_multiset().subset_of(emoji_pool().to_multiset()));
    let plan = build_poll(
        options,
        per_user,
        author_name,
        poll_id,
        &option_ids,
        &button_ids,
        clear_id,
        &emojis,
    );
    assert(plan_view(plan) == poll_plan(
        options as int,
        chosen_votes(votes),
        author_name@,
        plan.poll_id,
        option_ids@,
        button_ids@,
        plan.clear_id,
        emojis@,
    ));
    assert(is_new_poll(plan, options, votes, author_name@));
    Ok(plan)
}

} // verus!
