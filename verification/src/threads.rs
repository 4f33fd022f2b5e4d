//! Adding everyone who has a role to a thread.
use vstd::prelude::*;
use crate::text::{decimal, join, push_decimal};

verus! {

/// The items joined with `separator`, with the word `and` before the last:
/// `a`, `a and b`, and from three items on the separator then `and ` before
/// the last, as in `a, b, and c`.
pub open spec fn joined_with_and(items: Seq<Seq<char>>, separator: Seq<char>) -> Seq<char> {
    if items.len() == 0 {
        Seq::empty()
    } else if items.len() == 1 {
        items[0]
    } else if items.len() == 2 {
        items[0] + " and "@ + items[1]
    } else {
        join(items.drop_last(), separator) + separator + "and "@ + items.last()
    }
}

/// Joins the items with `separator`, with `and` before the last one.
pub fn join_with_and(items: &Vec<String>, separator: &str) -> (res: String)
    ensures
        res@ == joined_with_and(items@.map_values(|s: String| s@), separator@),
{
    let n = items.len();
    let ghost parts = items@.map_values(|s: String| s@);
    if n == 0 {
        return String::new();
    }
    if n == 1 {
        let mut res = String::new();
        res.append(items[0].as_str());
        assert(res@ =~= parts[0]);
        return res;
    }
    let mut res = String::new();
    let mut i: usize = 0;
    while i < n - 1
        invariant
            n == items@.len(),
            n >= 2,
            i <= n - 1,
            parts == items@.map_values(|s: String| s@),
            res@ == join(parts.take(i as int), separator@),
        decreases n - 1 - i,
    {
        assert(parts.take(i + 1).drop_last() =~= parts.take(i as int));
        if i > 0 {
            res.append(separator);
        }
        res.append(items[i].as_str());
        assert(res@ =~= join(parts.take(i + 1), separator@)) by {
            if i == 0 {
                assert(parts.take(1).len() == 1);
            }
        }
        i = i + 1;
    }
    assert(parts.take((n - 1) as int) =~= parts.drop_last());
    if n == 2 {
        res.append(" and ");
        res.append(items[n - 1].as_str());
        assert(parts.drop_last().len() == 1);
        assert(join(parts.drop_last(), separator@) == parts[0]);
        assert(res@ =~= joined_with_and(parts, separator@));
    } else {
        res.append(separator);
        res.append("and ");
        res.append(items[n - 1].as_str());
        assert(res@ =~= joined_with_and(parts, separator@));
    }
    res
}

/// A member of a guild: their user id and the ids of their roles.
pub struct Member {
    pub user_id: u64,
    pub roles: Vec<u64>,
}

/// The user ids of the members that have `role`, in order.
pub open spec fn ids_with_role(members: Seq<Member>, role: u64) -> Seq<u64>
    decreases members.len(),
{
    if members.len() == 0 {
        Seq::empty()
    } else {
        let rest = ids_with_role(members.drop_last(), role);
        if members.last().roles@.contains(role) {
            rest.push(members.last().user_id)
        } else {
            rest
        }
    }
}

fn has_role(roles: &Vec<u64>, role: u64) -> (res: bool)
    ensures
        res == roles@.contains(role),
{
    let mut i: usize = 0;
    while i < roles.len()
        invariant
            i <= roles@.len(),
            forall|j: int| 0 <= j < i ==> roles@[j] != role,
        decreases roles@.len() - i,
    {
        if roles[i] == role {
            return true;
        }
        i = i + 1;
    }
    false
}

/// Every member whose roles include `role`, wherever it stands among them,
/// is picked; and everyone picked is such a member.
pub proof fn law_members_with_role(members: Seq<Member>, role: u64)
    ensures
        forall|i: int|
            0 <= i < members.len() && #[trigger] members[i].roles@.contains(role) ==> ids_with_role(
                members,
                role,
            ).contains(members[i].user_id),
        forall|x: u64|
            #[trigger] ids_with_role(members, role).contains(x) ==> exists|i: int|
                0 <= i < members.len() && members[i].user_id == x && #[trigger] members[i].roles@.contains(
                    role,
                ),
        ids_with_role(members, role).len() <= members.len(),
    decreases members.len(),
{
    if members.len() > 0 {
        let p = members.drop_last();
        law_members_with_role(p, role);
        let r = ids_with_role(p, role);
        let last = members.last();
        assert forall|i: int|
            0 <= i < members.len() && #[trigger] members[i].roles@.contains(role) implies ids_with_role(
                members,
                role,
            ).contains(members[i].user_id) by {
            if i < members.len() - 1 {
                assert(p[i] == members[i]);
                assert(r.contains(p[i].user_id));
                let k = choose|k: int| 0 <= k < r.len() && r[k] == p[i].user_id;
                if last.roles@.contains(role) {
                    assert(r.push(last.user_id)[k] == members[i].user_id);
                }
            } else {
                assert(r.push(last.user_id)[r.len() as int] == last.user_id);
            }
        }
        assert forall|x: u64| #[trigger] ids_with_role(members, role).contains(x) implies exists|i: int|
            0 <= i < members.len() && members[i].user_id == x && #[trigger] members[i].roles@.contains(
                role,
            ) by {
            let t = ids_with_role(members, role);
            let k = choose|k: int| 0 <= k < t.len() && t[k] == x;
            if k < r.len() {
                assert(r[k] == x);
                assert(r.contains(x));
                let i = choose|i: int|
                    0 <= i < p.len() && p[i].user_id == x && #[trigger] p[i].roles@.contains(role);
                assert(members[i] == p[i]);
            } else {
                assert(members[members.len() - 1] == last);
            }
        }
    }
}

/// The members who have `role`.
pub fn members_with_role(members: &Vec<Member>, role: u64) -> (res: Vec<u64>)
    ensures
        res@ == ids_with_role(members@, role),
        forall|i: int|
            0 <= i < members@.len() && #[trigger] members@[i].roles@.contains(role) ==> res@.contains(
                members@[i].user_id,
            ),
        forall|x: u64|
            #[trigger] res@.contains(x) ==> exists|i: int|
                0 <= i < members@.len() && members@[i].user_id == x && #[trigger] members@[i].roles@.contains(
                    role,
                ),
{
    proof {
        law_members_with_role(members@, role);
    }
    let mut res: Vec<u64> = Vec::new();
    let mut i: usize = 0;
    while i < members.len()
        invariant
            i <= members@.len(),
            res@ == ids_with_role(members@.take(i as int), role),
        decreases members@.len() - i,
    {
        assert(members@.take(i + 1).drop_last() =~= members@.take(i as int));
        if has_role(&members[i].roles, role) {
            res.push(members[i].user_id);
        }
        i = i + 1;
    }
    assert(members@.take(i as int) =~= members@);
    res
}

/// `<@id>`: the mention of a user.
pub open spec fn user_mention(id: u64) -> Seq<char> {
    "<@"@ + decimal(id as nat) + ">"@
}

/// The mentions of the users.
pub open spec fn mentions(ids: Seq<u64>) -> Seq<Seq<char>> {
    ids.map_values(|id: u64| user_mention(id))
}

/// The mention of a user.
pub fn mention_text(id: u64) -> (res: String)
    ensures
        res@ == user_mention(id),
{
    let mut res = String::new();
    res.append("<@");
    push_decimal(&mut res, id);
    res.append(">");
    assert(res@ =~= user_mention(id));
    res
}

/// The reply to `add_role`: how many members were added, and who.
pub open spec fn add_role_reply(ids: Seq<u64>) -> Seq<char> {
    "Successfully added "@ + decimal(ids.len()) + " member"@ + (if ids.len() == 1 {
        ""@
    } else {
        "s"@
    }) + " to the thread: "@ + joined_with_and(mentions(ids), ", "@)
}

/// Writes the reply to `add_role` for the members that were added.
pub fn add_role_message(ids: &Vec<u64>) -> (res: String)
    ensures
        res@ == add_role_reply(ids@),
{
    let mut ms: Vec<String> = Vec::new();
    let mut i: usize = 0;
    while i < ids.len()
        invariant
            i <= ids@.len(),
            ms@.map_values(|s: String| s@) == mentions(ids@.take(i as int)),
        decreases ids@.len() - i,
    {
        let m = mention_text(ids[i]);
        let ghost before = ms@.map_values(|s: String| s@);
        ms.push(m);
        assert(ms@.map_values(|s: String| s@) =~= before.push(m@));
        assert(ids@.take(i + 1) =~= ids@.take(i as int).push(ids@[i as int]));
        assert(ms@.map_values(|s: String| s@) =~= mentions(ids@.take(i + 1)));
        i = i + 1;
    }
    assert(ids@.take(i as int) =~= ids@);
    let joined = join_with_and(&ms, ", ");
    let mut res = String::new();
    res.append("Successfully added ");
    push_decimal(&mut res, ids.len() as u64);
    res.append(" member");
    if ids.len() == 1 {
        res.append("");
    } else {
        res.append("s");
    }
    res.append(" to the thread: ");
    res.append(joined.as_str());
    assert(res@ =~= add_role_reply(ids@));
    res
}

} // verus!
