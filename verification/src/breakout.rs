//! Breakout rooms: splitting the people of a voice channel into rooms, and
//! bringing everyone back.
use vstd::prelude::*;
use crate::chunkify::{
    chunkify, blocks, overflow_chunks, full_chunks, RemainderStrategy, ChunkRemainder,
};
use crate::text::{decimal, push_decimal, str_eq, decimal_text};

verus! {

/// `No breakout rooms category set.`
pub fn no_category_message() -> (res: String)
    ensures
        res@ == "No breakout rooms category set."@,
{
    String::from_str("No breakout rooms category set.")
}

/// The rooms that `chunkify` makes of an ordering of the people.
pub open spec fn rooms_of(people: Seq<u64>, size: nat, strategy: RemainderStrategy) -> Seq<Seq<u64>> {
    match strategy {
        RemainderStrategy::Exclude => blocks(people, size, full_chunks(people.len(), size)),
        RemainderStrategy::Overflow => overflow_chunks(people, size),
    }
}

/// `Breakout Room {i}`
pub open spec fn room_name(i: nat) -> Seq<char> {
    "Breakout Room "@ + decimal(i)
}

/// The breakout rooms to create: the category to create them in, and for
/// each room its name and the people to move into it.
pub struct BreakoutPlan {
    pub category_id: String,
    pub names: Vec<String>,
    pub rooms: Vec<Vec<u64>>,
}

pub open spec fn rooms_view(rooms: Seq<Vec<u64>>) -> Seq<Seq<u64>> {
    rooms.map_values(|r: Vec<u64>| r@)
}

/// Why no breakout rooms were made: the reply to give.
pub open spec fn breakout_refusal(category_set: bool, channel: u64, people: nat, size: nat) -> Option<Seq<char>> {
    if !category_set {
        Some("No breakout rooms category set."@)
    } else if people < size {
        Some(
            "There are fewer people in <#"@ + decimal(channel as nat)
                + "> than the size of your breakout rooms."@,
        )
    } else {
        None
    }
}

/// Rooms are refused exactly when no category is set, or when there are
/// fewer people than a room holds: as many people as a room holds, or more,
/// always make rooms.
pub proof fn law_breakout_refused_only_when_too_few(category_set: bool, channel: u64, people: nat, size: nat)
    ensures
        breakout_refusal(category_set, channel, people, size) is None <==> (category_set && people >= size),
        category_set && people == size ==> breakout_refusal(category_set, channel, people, size) is None,
{
}

/// Splits the people in the voice channel `channel` into rooms of `size`,
/// in a random order, the people that do not fill a room dealt with as
/// `strategy` says. Refuses when no category for breakout rooms is set or
/// when there are fewer people than `size`.
pub fn plan_breakout_rooms(
    category: &Option<String>,
    channel: u64,
    people: Vec<u64>,
    size: u8,
    strategy: RemainderStrategy,
) -> (res: Result<BreakoutPlan, String>)
    requires
        category is Some ==> size > 0,
    ensures
        res is Ok <==> (category is Some && people@.len() >= size),
        match breakout_refusal(category is Some, channel, people@.len(), size as nat) {
            Some(reply) => res matches Err(m) && m@ == reply,
            None => res matches Ok(plan) && {
                &&& plan.category_id@ == category->0@
                &&& plan.names@.len() == plan.rooms@.len()
                &&& forall|i: int|
                    0 <= i < plan.names@.len() ==> #[trigger] plan.names@[i]@ == room_name(i as nat)
                &&& exists|order: Seq<u64>|
                    {
                        &&& order.to_multiset() == people@.to_multiset()
                        &&& rooms_view(plan.rooms@) == #[trigger] rooms_of(order, size as nat, strategy)
                    }
            },
        },
{
    let category_id = match category {
        None => {
            return Err(no_category_message());
        },
        Some(c) => c.clone(),
    };
    if people.len() < size as usize {
        let mut m = String::new();
        m.append("There are fewer people in <#");
        push_decimal(&mut m, channel);
        m.append("> than the size of your breakout rooms.");
        assert(m@ =~= "There are fewer people in <#"@ + decimal(channel as nat)
            + "> than the size of your breakout rooms."@);
        return Err(m);
    }
    let mut order = people;
    crate::random::shuffle_ids(&mut order);
    let ghost ov = order@;
    let ChunkRemainder { chunks, excluded: _ } = chunkify(order, size as usize, strategy);
    assert(rooms_view(chunks@) =~= rooms_of(ov, size as nat, strategy)) by {
        match strategy {
            RemainderStrategy::Exclude => {},
            RemainderStrategy::Overflow => {},
        }
    }
    let mut names: Vec<String> = Vec::new();
    let mut i: usize = 0;
    while i < chunks.len()
        invariant
            i <= chunks@.len(),
            names@.len() == i,
            forall|j: int| 0 <= j < i ==> #[trigger] names@[j]@ == room_name(j as nat),
        decreases chunks@.len() - i,
    {
        let mut n = String::new();
        n.append("Breakout Room ");
        push_decimal(&mut n, i as u64);
        assert(n@ =~= room_name(i as nat));
        names.push(n);
        i = i + 1;
    }
    Ok(BreakoutPlan { category_id, names, rooms: chunks })
}

/// `Pong!`: the reply once the rooms are made, or everyone is back.
pub fn breakout_done_message() -> (res: String)
    ensures
        res@ == "Pong!"@,
{
    String::from_str("Pong!")
}

/// A member's voice state: who, in which channel, and that channel's
/// parent category, if any.
pub struct VoiceState {
    pub user_id: u64,
    pub channel_id: u64,
    pub parent_id: Option<u64>,
}

/// Whether a voice state is in a channel of the breakout rooms category,
/// whose id is stored as text.
pub open spec fn in_category(st: VoiceState, category: Seq<char>) -> bool {
    match st.parent_id {
        Some(p) => decimal(p as nat) == category,
        None => false,
    }
}

/// The people to bring back: those in a channel of the category, in order.
pub open spec fn people_to_move(states: Seq<VoiceState>, category: Seq<char>) -> Seq<u64>
    decreases states.len(),
{
    if states.len() == 0 {
        Seq::empty()
    } else {
        let rest = people_to_move(states.drop_last(), category);
        if in_category(states.last(), category) {
            rest.push(states.last().user_id)
        } else {
            rest
        }
    }
}

/// The channels to delete: each channel of the category that someone is
/// in, once, in the order in which they are first met.
pub open spec fn rooms_to_delete(states: Seq<VoiceState>, category: Seq<char>) -> Seq<u64>
    decreases states.len(),
{
    if states.len() == 0 {
        Seq::empty()
    } else {
        let rest = rooms_to_delete(states.drop_last(), category);
        if in_category(states.last(), category) && !rest.contains(states.last().channel_id) {
            rest.push(states.last().channel_id)
        } else {
            rest
        }
    }
}

/// Who to bring back, and which rooms to delete.
pub struct CleanupPlan {
    pub moves: Vec<u64>,
    pub channels: Vec<u64>,
}

fn contains_id(v: &Vec<u64>, x: u64) -> (res: bool)
    ensures
        res == v@.contains(x),
{
    let mut i: usize = 0;
    while i < v.len()
        invariant
            i <= v@.len(),
            forall|j: int| 0 <= j < i ==> v@[j] != x,
        decreases v@.len() - i,
    {
        if v[i] == x {
            return true;
        }
        i = i + 1;
    }
    false
}

/// Finds, among the voice states of a guild, the people in breakout rooms
/// (channels under the category whose id is `category`) and the rooms.
pub fn plan_breakout_cleanup(states: &Vec<VoiceState>, category: &str) -> (res: CleanupPlan)
    ensures
        res.moves@ == people_to_move(states@, category@),
        res.channels@ == rooms_to_delete(states@, category@),
{
    let mut moves: Vec<u64> = Vec::new();
    let mut channels: Vec<u64> = Vec::new();
    let mut i: usize = 0;
    while i < states.len()
        invariant
            i <= states@.len(),
            moves@ == people_to_move(states@.take(i as int), category@),
            channels@ == rooms_to_delete(states@.take(i as int), category@),
        decreases states@.len() - i,
    {
        assert(states@.take(i + 1).drop_last() =~= states@.take(i as int));
        let inside = match states[i].parent_id {
            Some(p) => {
                let t = decimal_text(p);
                str_eq(t.as_str(), category)
            },
            None => false,
        };
        assert(inside == in_category(states@[i as int], category@));
        if inside {
            if !contains_id(&channels, states[i].channel_id) {
                channels.push(states[i].channel_id);
            }
            moves.push(states[i].user_id);
        }
        i = i + 1;
    }
    assert(states@.take(i as int) =~= states@);
    CleanupPlan { moves, channels }
}

/// No room is deleted twice, and every room deleted is in the category.
pub proof fn law_cleanup_rooms_distinct(states: Seq<VoiceState>, category: Seq<char>)
    ensures
        rooms_to_delete(states, category).no_duplicates(),
        forall|k: int|
            0 <= k < rooms_to_delete(states, category).len() ==> exists|i: int|
                0 <= i < states.len() && in_category(states[i], category) && states[i].channel_id
                    == #[trigger] rooms_to_delete(states, category)[k],
    decreases states.len(),
{
    if states.len() > 0 {
        let p = states.drop_last();
        law_cleanup_rooms_distinct(p, category);
        let r = rooms_to_delete(p, category);
        assert forall|k: int| 0 <= k < rooms_to_delete(states, category).len() implies exists|i: int|
            0 <= i < states.len() && in_category(states[i], category) && states[i].channel_id
                == #[trigger] rooms_to_delete(states, category)[k] by {
            if k < r.len() {
                let i = choose|i: int|
                    0 <= i < p.len() && in_category(p[i], category) && p[i].channel_id == r[k];
                assert(states[i] == p[i]);
            } else {
                assert(states[states.len() - 1] == states.last());
            }
        }
    }
}

} // verus!
