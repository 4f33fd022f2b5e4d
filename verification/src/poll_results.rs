//! The results that a poll's message shows, and what a vote or a clear does.
use vstd::prelude::*;
use crate::text::{decimal, signed_decimal, join, push_decimal, push_signed_decimal};

verus! {

/// A vote: the option it is for, and the user who cast it.
pub struct PollVote {
    pub option_id: u128,
    pub user_id: String,
}

/// A vote as plain values.
pub type VoteView = (u128, Seq<char>);

pub open spec fn vote_view(v: PollVote) -> VoteView {
    (v.option_id, v.user_id@)
}

pub open spec fn votes_view(vs: Seq<PollVote>) -> Seq<VoteView> {
    vs.map_values(|v: PollVote| vote_view(v))
}

/// The position of the group of option `key`, or -1 when there is none.
pub open spec fn group_index(groups: Seq<Seq<VoteView>>, key: u128) -> int
    decreases groups.len(),
{
    if groups.len() == 0 {
        -1
    } else {
        let i = group_index(groups.drop_last(), key);
        if i >= 0 {
            i
        } else if groups.last().len() > 0 && groups.last()[0].0 == key {
            groups.len() - 1
        } else {
            -1
        }
    }
}

/// The votes grouped by option: one group per option that has votes, in
/// the order in which the options first got a vote, each group in the
/// order of the votes.
pub open spec fn group_votes(votes: Seq<VoteView>) -> Seq<Seq<VoteView>>
    decreases votes.len(),
{
    if votes.len() == 0 {
        Seq::empty()
    } else {
        let g = group_votes(votes.drop_last());
        let v = votes.last();
        let i = group_index(g, v.0);
        if i >= 0 {
            g.update(i, g[i].push(v))
        } else {
            g.push(seq![v])
        }
    }
}

/// Where a group of `n` votes goes among groups sorted by size, largest
/// first: after every group that is at least as large.
pub open spec fn insert_point(sorted: Seq<Seq<VoteView>>, n: nat) -> int
    decreases sorted.len(),
{
    if sorted.len() == 0 {
        0
    } else if sorted.last().len() >= n {
        sorted.len() as int
    } else {
        insert_point(sorted.drop_last(), n)
    }
}

/// The groups sorted by size, largest first; groups of one size keep their
/// order (a stable sort).
pub open spec fn sort_by_size(groups: Seq<Seq<VoteView>>) -> Seq<Seq<VoteView>>
    decreases groups.len(),
{
    if groups.len() == 0 {
        Seq::empty()
    } else {
        let s = sort_by_size(groups.drop_last());
        s.insert(insert_point(s, groups.last().len()), groups.last())
    }
}

/// The position of the group of `user`'s votes, or -1 when there is none.
pub open spec fn user_group_index(groups: Seq<Seq<VoteView>>, user: Seq<char>) -> int
    decreases groups.len(),
{
    if groups.len() == 0 {
        -1
    } else {
        let i = user_group_index(groups.drop_last(), user);
        if i >= 0 {
            i
        } else if groups.last().len() > 0 && groups.last()[0].1 == user {
            groups.len() - 1
        } else {
            -1
        }
    }
}

/// The votes grouped by voter: one group per voter, in the order of their
/// first votes, each group in the order of the votes.
pub open spec fn group_by_user(votes: Seq<VoteView>) -> Seq<Seq<VoteView>>
    decreases votes.len(),
{
    if votes.len() == 0 {
        Seq::empty()
    } else {
        let g = group_by_user(votes.drop_last());
        let v = votes.last();
        let i = user_group_index(g, v.1);
        if i >= 0 {
            g.update(i, g[i].push(v))
        } else {
            g.push(seq![v])
        }
    }
}

/// The number of the option whose id is `id`: the first such option.
pub open spec fn option_number(options: Seq<(u128, i32)>, id: u128) -> Option<i32>
    decreases options.len(),
{
    if options.len() == 0 {
        None
    } else if options[0].0 == id {
        Some(options[0].1)
    } else {
        option_number(options.drop_first(), id)
    }
}

/// `<@user> (count)`: a voter, and the votes they cast for the option.
pub open spec fn voter_text(votes: Seq<VoteView>) -> Seq<char> {
    "<@"@ + votes[0].1 + "> ("@ + decimal(votes.len()) + ")"@
}

/// The voters of an option, each once with their votes: the most votes
/// first, then the earliest first vote.
pub open spec fn ranked_voters(group: Seq<VoteView>) -> Seq<Seq<VoteView>> {
    sort_by_size(group_by_user(group))
}

/// The line of one option: its number, its total, then its voters with
/// their counts, the first ten of them, then how many more there are:
/// `` `x.` (total): <@u> (n), <@v> (m) and k more``.
pub open spec fn result_line(number: i32, group: Seq<VoteView>) -> Seq<char> {
    let voters = ranked_voters(group);
    let shown = voters.take(if voters.len() < 10 { voters.len() as int } else { 10 });
    "`"@ + signed_decimal(number as int) + ".` ("@ + decimal(group.len()) + "): "@ + join(
        shown.map_values(|g: Seq<VoteView>| voter_text(g)),
        ", "@,
    ) + (if voters.len() > 10 {
        " and "@ + decimal((voters.len() - 10) as nat) + " more"@
    } else {
        ""@
    })
}

/// Whether every vote is for one of the options.
pub open spec fn votes_for_options(options: Seq<(u128, i32)>, votes: Seq<VoteView>) -> bool {
    forall|i: int| 0 <= i < votes.len() ==> (#[trigger] option_number(options, votes[i].0)) is Some
}

/// The results of a poll: one line per option that has votes, the options
/// with most votes first.
pub open spec fn results_text(options: Seq<(u128, i32)>, votes: Seq<VoteView>) -> Seq<char> {
    let groups = sort_by_size(group_votes(votes));
    join(
        groups.map_values(|g: Seq<VoteView>| result_line(option_number(options, g[0].0)->0, g)),
        "\n"@,
    )
}

pub open spec fn groups_view(groups: Seq<Vec<PollVote>>) -> Seq<Seq<VoteView>> {
    groups.map_values(|g: Vec<PollVote>| votes_view(g@))
}

/// Every group holds a vote.
pub open spec fn all_nonempty(groups: Seq<Seq<VoteView>>) -> bool {
    forall|i: int| 0 <= i < groups.len() ==> #[trigger] groups[i].len() > 0
}

proof fn lemma_group_index(groups: Seq<Seq<VoteView>>, key: u128)
    requires
        all_nonempty(groups),
    ensures
        -1 <= group_index(groups, key) < groups.len(),
        group_index(groups, key) >= 0 ==> groups[group_index(groups, key)][0].0 == key,
        forall|j: int|
            0 <= j < groups.len() && (group_index(groups, key) < 0 || j < group_index(groups, key))
                ==> #[trigger] groups[j][0].0 != key,
    decreases groups.len(),
{
    if groups.len() > 0 {
        lemma_group_index(groups.drop_last(), key);
        assert(groups.drop_last().len() == groups.len() - 1);
        assert forall|j: int| 0 <= j < groups.len() - 1 implies groups.drop_last()[j] == groups[j] by {}
    }
}

proof fn lemma_group_votes_nonempty(votes: Seq<VoteView>)
    ensures
        all_nonempty(group_votes(votes)),
    decreases votes.len(),
{
    if votes.len() > 0 {
        lemma_group_votes_nonempty(votes.drop_last());
        lemma_group_index(group_votes(votes.drop_last()), votes.last().0);
    }
}

fn copy_vote(v: &PollVote) -> (res: PollVote)
    ensures
        vote_view(res) == vote_view(*v),
{
    PollVote { option_id: v.option_id, user_id: v.user_id.clone() }
}

/// Groups the votes by option, as `group_votes` says.
pub fn group_poll_votes(votes: &Vec<PollVote>) -> (res: Vec<Vec<PollVote>>)
    ensures
        groups_view(res@) == group_votes(votes_view(votes@)),
{
    let ghost vs = votes_view(votes@);
    let mut groups: Vec<Vec<PollVote>> = Vec::new();
    let mut k: usize = 0;
    while k < votes.len()
        invariant
            k <= votes@.len(),
            vs == votes_view(votes@),
            groups_view(groups@) == group_votes(vs.take(k as int)),
        decreases votes@.len() - k,
    {
        let ghost g0 = groups_view(groups@);
        assert(vs.take(k + 1).drop_last() =~= vs.take(k as int));
        proof {
            lemma_group_votes_nonempty(vs.take(k as int));
            lemma_group_index(g0, votes@[k as int].option_id);
        }
        let key = votes[k].option_id;
        let mut i: usize = 0;
        let mut found = false;
        while i < groups.len()
            invariant
                i <= groups@.len(),
                g0 == groups_view(groups@),
                all_nonempty(g0),
                found ==> i < groups@.len() && g0[i as int][0].0 == key,
                forall|j: int| 0 <= j < i ==> #[trigger] g0[j][0].0 != key,
            ensures
                found ==> i < groups@.len() && g0[i as int][0].0 == key,
                !found ==> i == groups@.len(),
                forall|j: int| 0 <= j < i ==> #[trigger] g0[j][0].0 != key,
            decreases groups@.len() - i,
        {
            assert(g0[i as int].len() > 0);
            assert(groups@[i as int]@.len() > 0);
            if groups[i][0].option_id == key {
                found = true;
                break;
            }
            i = i + 1;
        }
        let v = copy_vote(&votes[k]);
        assert(vote_view(v) == vs.take(k + 1).last());
        if found {
            assert(group_index(g0, key) == i);
            let mut g: Vec<PollVote> = Vec::new();
            groups.set_and_swap(i, &mut g);
            let ghost gv = votes_view(g@);
            g.push(v);
            assert(votes_view(g@) =~= gv.push(vote_view(v)));
            groups.set_and_swap(i, &mut g);
            assert(groups_view(groups@) =~= g0.update(i as int, g0[i as int].push(vote_view(v))));
        } else {
            assert(group_index(g0, key) == -1);
            let mut g: Vec<PollVote> = Vec::new();
            g.push(v);
            assert(votes_view(g@) =~= seq![vote_view(v)]);
            groups.push(g);
            assert(groups_view(groups@) =~= g0.push(seq![vote_view(v)]));
        }
        k = k + 1;
    }
    assert(vs.take(k as int) =~= vs);
    groups
}

proof fn lemma_insert_point_bounds(sorted: Seq<Seq<VoteView>>, n: nat)
    ensures
        0 <= insert_point(sorted, n) <= sorted.len(),
    decreases sorted.len(),
{
    if sorted.len() > 0 {
        lemma_insert_point_bounds(sorted.drop_last(), n);
    }
}

/// Sorts groups by size, largest first, keeping the order of groups of one
/// size.
pub fn sort_groups_by_size(groups: Vec<Vec<PollVote>>) -> (res: Vec<Vec<PollVote>>)
    ensures
        groups_view(res@) == sort_by_size(groups_view(groups@)),
{
    let ghost gs = groups_view(groups@);
    let mut groups = groups;
    let mut sorted: Vec<Vec<PollVote>> = Vec::new();
    let mut k: usize = 0;
    while k < groups.len()
        invariant
            k <= groups@.len(),
            gs.len() == groups@.len(),
            forall|j: int| k <= j < gs.len() ==> #[trigger] gs[j] == votes_view(groups@[j]@),
            groups_view(sorted@) == sort_by_size(gs.take(k as int)),
        decreases groups@.len() - k,
    {
        let mut g: Vec<PollVote> = Vec::new();
        groups.set_and_swap(k, &mut g);
        assert(votes_view(g@) == gs[k as int]);
        let ghost sv = groups_view(sorted@);
        let n = g.len();
        let mut j = sorted.len();
        assert(sv.take(j as int) =~= sv);
        while j > 0 && sorted[j - 1].len() < n
            invariant
                j <= sorted@.len(),
                sv == groups_view(sorted@),
                n == g@.len(),
                insert_point(sv, n as nat) == insert_point(sv.take(j as int), n as nat),
            decreases j,
        {
            assert(sv.take(j as int).drop_last() =~= sv.take(j - 1));
            assert(sv.take(j as int).last() == sv[j - 1]);
            j = j - 1;
        }
        proof {
            if j > 0 {
                assert(sv.take(j as int).last() == sv[j - 1]);
            }
        }
        assert(insert_point(sv, n as nat) == j);
        sorted.insert(j, g);
        assert(gs.take(k + 1).drop_last() =~= gs.take(k as int));
        assert(groups_view(sorted@) =~= sv.insert(j as int, votes_view(g@)));
        k = k + 1;
    }
    assert(gs.take(k as int) =~= gs);
    sorted
}

proof fn lemma_user_group_index(groups: Seq<Seq<VoteView>>, user: Seq<char>)
    requires
        all_nonempty(groups),
    ensures
        -1 <= user_group_index(groups, user) < groups.len(),
        user_group_index(groups, user) >= 0 ==> groups[user_group_index(groups, user)][0].1 == user,
        forall|j: int|
            0 <= j < groups.len() && (user_group_index(groups, user) < 0 || j < user_group_index(
                groups,
                user,
            )) ==> #[trigger] groups[j][0].1 != user,
    decreases groups.len(),
{
    if groups.len() > 0 {
        lemma_user_group_index(groups.drop_last(), user);
        assert(groups.drop_last().len() == groups.len() - 1);
        assert forall|j: int| 0 <= j < groups.len() - 1 implies groups.drop_last()[j] == groups[j] by {}
    }
}

proof fn lemma_group_by_user_nonempty(votes: Seq<VoteView>)
    ensures
        all_nonempty(group_by_user(votes)),
    decreases votes.len(),
{
    if votes.len() > 0 {
        lemma_group_by_user_nonempty(votes.drop_last());
        lemma_user_group_index(group_by_user(votes.drop_last()), votes.last().1);
    }
}

/// Groups the votes by voter, as `group_by_user` says.
pub fn group_user_votes(votes: &Vec<PollVote>) -> (res: Vec<Vec<PollVote>>)
    ensures
        groups_view(res@) == group_by_user(votes_view(votes@)),
{
    let ghost vs = votes_view(votes@);
    let mut groups: Vec<Vec<PollVote>> = Vec::new();
    let mut k: usize = 0;
    while k < votes.len()
        invariant
            k <= votes@.len(),
            vs == votes_view(votes@),
            groups_view(groups@) == group_by_user(vs.take(k as int)),
        decreases votes@.len() - k,
    {
        let ghost g0 = groups_view(groups@);
        assert(vs.take(k + 1).drop_last() =~= vs.take(k as int));
        proof {
            lemma_group_by_user_nonempty(vs.take(k as int));
            lemma_user_group_index(g0, votes@[k as int].user_id@);
        }
        let key = votes[k].user_id.as_str();
        let mut i: usize = 0;
        let mut found = false;
        while i < groups.len()
            invariant
                i <= groups@.len(),
                g0 == groups_view(groups@),
                all_nonempty(g0),
                found ==> i < groups@.len() && g0[i as int][0].1 == key@,
                forall|j: int| 0 <= j < i ==> #[trigger] g0[j][0].1 != key@,
            ensures
                found ==> i < groups@.len() && g0[i as int][0].1 == key@,
                !found ==> i == groups@.len(),
                forall|j: int| 0 <= j < i ==> #[trigger] g0[j][0].1 != key@,
            decreases groups@.len() - i,
        {
            assert(g0[i as int].len() > 0);
            assert(groups@[i as int]@.len() > 0);
            if crate::text::str_eq(groups[i][0].user_id.as_str(), key) {
                found = true;
                break;
            }
            i = i + 1;
        }
        let v = copy_vote(&votes[k]);
        assert(vote_view(v) == vs.take(k + 1).last());
        if found {
            assert(user_group_index(g0, key@) == i);
            let mut g: Vec<PollVote> = Vec::new();
            groups.set_and_swap(i, &mut g);
            let ghost gv = votes_view(g@);
            g.push(v);
            assert(votes_view(g@) =~= gv.push(vote_view(v)));
            groups.set_and_swap(i, &mut g);
            assert(groups_view(groups@) =~= g0.update(i as int, g0[i as int].push(vote_view(v))));
        } else {
            assert(user_group_index(g0, key@) == -1);
            let mut g: Vec<PollVote> = Vec::new();
            g.push(v);
            assert(votes_view(g@) =~= seq![vote_view(v)]);
            groups.push(g);
            assert(groups_view(groups@) =~= g0.push(seq![vote_view(v)]));
        }
        k = k + 1;
    }
    assert(vs.take(k as int) =~= vs);
    groups
}

/// The number of the option whose id is `id`.
pub fn find_option_number(options: &Vec<(u128, i32)>, id: u128) -> (res: Option<i32>)
    ensures
        res == option_number(options@, id),
{
    let mut i: usize = 0;
    assert(options@.skip(0) =~= options@);
    while i < options.len()
        invariant
            i <= options@.len(),
            option_number(options@, id) == option_number(options@.skip(i as int), id),
        decreases options@.len() - i,
    {
        assert(options@.skip(i as int).drop_first() =~= options@.skip(i + 1));
        if options[i].0 == id {
            return Some(options[i].1);
        }
        i = i + 1;
    }
    None
}

proof fn lemma_group_members(vs: Seq<VoteView>)
    ensures
        forall|i: int, k: int|
            0 <= i < group_votes(vs).len() && 0 <= k < group_votes(vs)[i].len() ==> vs.contains(
                #[trigger] group_votes(vs)[i][k],
            ),
    decreases vs.len(),
{
    if vs.len() > 0 {
        let p = vs.drop_last();
        lemma_group_members(p);
        lemma_group_votes_nonempty(p);
        lemma_group_index(group_votes(p), vs.last().0);
        assert forall|i: int, k: int|
            0 <= i < group_votes(vs).len() && 0 <= k < group_votes(vs)[i].len() implies vs.contains(
                #[trigger] group_votes(vs)[i][k],
            ) by {
            let g = group_votes(p);
            let x = group_votes(vs)[i][k];
            if x == vs.last() {
                assert(vs[vs.len() - 1] == x);
            } else {
                assert(p.contains(x));
                let w = choose|w: int| 0 <= w < p.len() && p[w] == x;
                assert(vs[w] == x);
            }
        }
    }
}

proof fn lemma_sort_members(gs: Seq<Seq<VoteView>>)
    ensures
        sort_by_size(gs).len() == gs.len(),
        forall|i: int| 0 <= i < sort_by_size(gs).len() ==> gs.contains(#[trigger] sort_by_size(gs)[i]),
    decreases gs.len(),
{
    if gs.len() > 0 {
        let p = gs.drop_last();
        lemma_sort_members(p);
        let s = sort_by_size(p);
        lemma_insert_point_bounds(s, gs.last().len());
        assert forall|i: int| 0 <= i < sort_by_size(gs).len() implies gs.contains(
            #[trigger] sort_by_size(gs)[i],
        ) by {
            let x = sort_by_size(gs)[i];
            if x == gs.last() {
                assert(gs[gs.len() - 1] == x);
            } else {
                let q = insert_point(s, gs.last().len());
                let si = if i < q { i } else { i - 1 };
                assert(s[si] == x);
                assert(p.contains(x));
                let w = choose|w: int| 0 <= w < p.len() && p[w] == x;
                assert(gs[w] == x);
            }
        }
    }
}

/// The text of a voter: their mention and their number of votes.
fn voter_string(votes: &Vec<PollVote>) -> (res: String)
    requires
        votes@.len() > 0,
    ensures
        res@ == voter_text(votes_view(votes@)),
{
    let mut res = String::new();
    res.append("<@");
    res.append(votes[0].user_id.as_str());
    res.append("> (");
    push_decimal(&mut res, votes.len() as u64);
    res.append(")");
    assert(res@ =~= voter_text(votes_view(votes@)));
    res
}

/// Writes the line of one option of a poll's results.
pub fn result_line_text(number: i32, group: &Vec<PollVote>) -> (res: String)
    ensures
        res@ == result_line(number, votes_view(group@)),
{
    let ghost vs = votes_view(group@);
    let voters = sort_groups_by_size(group_user_votes(group));
    let ghost gs = groups_view(voters@);
    proof {
        lemma_group_by_user_nonempty(vs);
        lemma_sort_members(group_by_user(vs));
        assert forall|a: int| 0 <= a < gs.len() implies #[trigger] gs[a].len() > 0 by {
            assert(group_by_user(vs).contains(gs[a]));
            let w = choose|w: int| 0 <= w < group_by_user(vs).len() && group_by_user(vs)[w] == gs[a];
            assert(group_by_user(vs)[w].len() > 0);
        }
    }
    let n = voters.len();
    let shown = if n < 10 { n } else { 10 };
    let ghost sh = gs.take(shown as int);
    let mut texts: Vec<String> = Vec::new();
    let mut i: usize = 0;
    while i < shown
        invariant
            i <= shown <= voters@.len(),
            n == voters@.len(),
            gs == groups_view(voters@),
            all_nonempty(gs),
            sh == gs.take(shown as int),
            texts@.map_values(|t: String| t@) == sh.take(i as int).map_values(
                |g: Seq<VoteView>| voter_text(g),
            ),
        decreases shown - i,
    {
        assert(gs[i as int].len() > 0);
        assert(voters@[i as int]@.len() > 0);
        let t = voter_string(&voters[i]);
        let ghost before = texts@.map_values(|t: String| t@);
        texts.push(t);
        assert(texts@.map_values(|t: String| t@) =~= before.push(t@));
        assert(sh.take(i + 1) =~= sh.take(i as int).push(sh[i as int]));
        assert(texts@.map_values(|t: String| t@) =~= sh.take(i + 1).map_values(
            |g: Seq<VoteView>| voter_text(g),
        ));
        i = i + 1;
    }
    assert(sh.take(i as int) =~= sh);
    let joined = crate::text::join_strings(&texts, ", ");
    let total = group.len();
    let mut res = String::new();
    res.append("`");
    push_signed_decimal(&mut res, number as i64);
    res.append(".` (");
    push_decimal(&mut res, total as u64);
    res.append("): ");
    res.append(joined.as_str());
    assert(gs == ranked_voters(vs));
    assert(vs.len() == total);
    let ghost head = "`"@ + signed_decimal(number as int) + ".` ("@ + decimal(vs.len()) + "): "@ + join(
        sh.map_values(|g: Seq<VoteView>| voter_text(g)),
        ", "@,
    );
    assert(res@ =~= head);
    if n > 10 {
        res.append(" and ");
        push_decimal(&mut res, (n - 10) as u64);
        res.append(" more");
        assert(res@ =~= head + (" and "@ + decimal((n - 10) as nat) + " more"@));
    } else {
        proof {
            reveal_strlit("");
        }
        assert(res@ =~= head + ""@);
    }
    res
}

/// Whether every vote is for one of the options.
pub fn all_votes_for_options(options: &Vec<(u128, i32)>, votes: &Vec<PollVote>) -> (res: bool)
    ensures
        res == votes_for_options(options@, votes_view(votes@)),
{
    let ghost vs = votes_view(votes@);
    let mut i: usize = 0;
    while i < votes.len()
        invariant
            i <= votes@.len(),
            vs == votes_view(votes@),
            forall|j: int| 0 <= j < i ==> (#[trigger] option_number(options@, vs[j].0)) is Some,
        decreases votes@.len() - i,
    {
        if find_option_number(options, votes[i].option_id).is_none() {
            assert(option_number(options@, vs[i as int].0) is None);
            return false;
        }
        i = i + 1;
    }
    true
}

/// Writes the results of a poll from its options (id and number) and its
/// votes, as `results_text` says.
pub fn poll_results(options: &Vec<(u128, i32)>, votes: &Vec<PollVote>) -> (res: String)
    requires
        votes_for_options(options@, votes_view(votes@)),
    ensures
        res@ == results_text(options@, votes_view(votes@)),
{
    let ghost vs = votes_view(votes@);
    let groups = group_poll_votes(votes);
    let sorted = sort_groups_by_size(groups);
    let ghost gs = groups_view(sorted@);
    proof {
        lemma_group_members(vs);
        lemma_group_votes_nonempty(vs);
        lemma_sort_members(group_votes(vs));
    }
    let mut lines: Vec<String> = Vec::new();
    let mut i: usize = 0;
    while i < sorted.len()
        invariant
            i <= sorted@.len(),
            gs == groups_view(sorted@),
            gs == sort_by_size(group_votes(vs)),
            vs == votes_view(votes@),
            votes_for_options(options@, vs),
            all_nonempty(group_votes(vs)),
            forall|a: int, k: int|
                0 <= a < group_votes(vs).len() && 0 <= k < group_votes(vs)[a].len() ==> vs.contains(
                    #[trigger] group_votes(vs)[a][k],
                ),
            forall|a: int| 0 <= a < gs.len() ==> group_votes(vs).contains(#[trigger] gs[a]),
            lines@.map_values(|t: String| t@) == gs.take(i as int).map_values(
                |g: Seq<VoteView>| result_line(option_number(options@, g[0].0)->0, g),
            ),
        decreases sorted@.len() - i,
    {
        let ghost g = gs[i as int];
        proof {
            assert(group_votes(vs).contains(g));
            let w = choose|w: int| 0 <= w < group_votes(vs).len() && group_votes(vs)[w] == g;
            assert(g.len() > 0);
            assert(vs.contains(group_votes(vs)[w][0]));
            let u = choose|u: int| 0 <= u < vs.len() && vs[u] == g[0];
            assert(option_number(options@, vs[u].0) is Some);
        }
        assert(sorted@[i as int]@.len() > 0);
        let number = find_option_number(options, sorted[i][0].option_id);
        let number = number.unwrap();
        let line = result_line_text(number, &sorted[i]);
        let ghost before = lines@.map_values(|t: String| t@);
        lines.push(line);
        assert(lines@.map_values(|t: String| t@) =~= before.push(line@));
        assert(gs.take(i + 1) =~= gs.take(i as int).push(g));
        assert(lines@.map_values(|t: String| t@) =~= gs.take(i + 1).map_values(
            |g: Seq<VoteView>| result_line(option_number(options@, g[0].0)->0, g),
        ));
        i = i + 1;
    }
    assert(gs.take(i as int) =~= gs);
    crate::text::join_strings(&lines, "\n")
}

/// What a click on an option's button does with the clicking user's votes.
#[derive(Debug, Clone, Copy, PartialEq, Eq)]
pub enum VoteAction {
    /// The user has used up their votes and must clear them first.
    Reject,
    /// The user's one vote moves to this option.
    Replace,
    /// A new vote for this option is added.
    Insert,
}

/// The action for a user who already cast `existing` votes in a poll that
/// allows `votes_per_user`. A negative limit never rejects: the count is
/// compared with the limit taken as a `usize`, which makes it huge.
pub open spec fn vote_action_for(existing: nat, votes_per_user: int) -> VoteAction {
    if votes_per_user >= 0 && existing >= votes_per_user && votes_per_user != 1 {
        VoteAction::Reject
    } else if existing == 1 && votes_per_user == 1 {
        VoteAction::Replace
    } else {
        VoteAction::Insert
    }
}

/// Decides what a click on an option does.
pub fn vote_action(existing: usize, votes_per_user: i32) -> (res: VoteAction)
    ensures
        res == vote_action_for(existing as nat, votes_per_user as int),
        votes_per_user >= 2 && existing < votes_per_user ==> res == VoteAction::Insert,
        votes_per_user >= 2 && existing >= votes_per_user ==> res == VoteAction::Reject,
        votes_per_user == 1 && existing == 1 ==> res == VoteAction::Replace,
        existing == 0 && votes_per_user != 0 ==> res == VoteAction::Insert,
{
    if votes_per_user >= 0 && (existing as u64) >= (votes_per_user as u64) && votes_per_user != 1 {
        VoteAction::Reject
    } else if existing == 1 && votes_per_user == 1 {
        VoteAction::Replace
    } else {
        VoteAction::Insert
    }
}

/// How many votes the user holds after the action.
pub open spec fn votes_after(existing: nat, action: VoteAction) -> nat {
    match action {
        VoteAction::Reject => existing,
        VoteAction::Replace => existing,
        VoteAction::Insert => existing + 1,
    }
}

/// A user who holds no more votes than the poll allows never holds more
/// after clicking an option.
pub proof fn law_votes_within_limit(existing: nat, votes_per_user: int)
    requires
        votes_per_user >= 1,
        existing <= votes_per_user,
    ensures
        votes_after(existing, vote_action_for(existing, votes_per_user)) <= votes_per_user,
{
}

/// In a poll of one vote per user, a click on another option moves the
/// user's vote there.
pub proof fn law_single_vote_moves(existing: nat)
    requires
        existing == 1,
    ensures
        vote_action_for(existing, 1) == VoteAction::Replace,
{
}

/// What a click on an option does, by the votes the user already holds and
/// the poll's limit: below a limit of two or more votes, the click adds a
/// vote; at or above it, the click is refused; a user's first vote is
/// always added (unless the limit is zero); only in a poll of one vote per
/// user does a second click move the vote.
pub proof fn law_vote_action_by_limit(existing: nat, votes_per_user: int)
    ensures
        votes_per_user >= 2 && existing < votes_per_user ==> vote_action_for(existing, votes_per_user)
            == VoteAction::Insert,
        votes_per_user >= 2 && existing >= votes_per_user ==> vote_action_for(existing, votes_per_user)
            == VoteAction::Reject,
        existing == 0 && votes_per_user != 0 ==> vote_action_for(existing, votes_per_user)
            == VoteAction::Insert,
        vote_action_for(existing, votes_per_user) == VoteAction::Replace ==> votes_per_user == 1
            && existing == 1,
        votes_after(existing, vote_action_for(existing, votes_per_user)) == existing + 1 <==> (
        vote_action_for(existing, votes_per_user) == VoteAction::Insert),
{
}

/// `You have already voted the maximum number of times.` ...
pub fn max_votes_message() -> (res: String)
    ensures
        res@ == "You have already voted the maximum number of times.\nPlease click `Clear Votes` to clear your votes.\n"@,
{
    String::from_str(
        "You have already voted the maximum number of times.\nPlease click `Clear Votes` to clear your votes.\n",
    )
}

/// `Your vote has been tallied!`
pub fn vote_tallied_message() -> (res: String)
    ensures
        res@ == "Your vote has been tallied!"@,
{
    String::from_str("Your vote has been tallied!")
}

/// What a click on `Clear Votes` does: whether the user's votes are deleted,
/// and the reply.
pub struct ClearOutcome {
    pub delete: bool,
    pub message: String,
}

/// Decides what `Clear Votes` does for a user whose vote count the database
/// gave as `count` (no count counts as none).
pub fn clear_votes(count: Option<i64>) -> (res: ClearOutcome)
    ensures
        ({
            let c = match count {
                Some(c) => c,
                None => 0,
            };
            &&& res.delete == (c != 0)
            &&& res.message@ == (if c == 0 {
                "You have no votes to clear!"@
            } else {
                "Your `"@ + signed_decimal(c as int) + "` votes have been cleared!"@
            })
        }),
{
    let c = match count {
        Some(c) => c,
        None => 0,
    };
    if c == 0 {
        ClearOutcome { delete: false, message: String::from_str("You have no votes to clear!") }
    } else {
        let mut message = String::new();
        message.append("Your `");
        push_signed_decimal(&mut message, c);
        message.append("` votes have been cleared!");
        assert(message@ =~= "Your `"@ + signed_decimal(c as int) + "` votes have been cleared!"@);
        ClearOutcome { delete: true, message }
    }
}

proof fn lemma_insert_point(s: Seq<Seq<VoteView>>, n: nat)
    ensures
        0 <= insert_point(s, n) <= s.len(),
        forall|k: int| insert_point(s, n) <= k < s.len() ==> #[trigger] s[k].len() < n,
        insert_point(s, n) > 0 ==> s[insert_point(s, n) - 1].len() >= n,
    decreases s.len(),
{
    if s.len() > 0 {
        lemma_insert_point(s.drop_last(), n);
        assert forall|k: int| insert_point(s, n) <= k < s.len() implies #[trigger] s[k].len() < n by {
            if k < s.len() - 1 {
                assert(s.drop_last()[k] == s[k]);
            }
        }
    }
}

/// Whether groups are sorted by size, largest first.
pub open spec fn sorted_by_size(gs: Seq<Seq<VoteView>>) -> bool {
    forall|i: int, j: int| 0 <= i < j < gs.len() ==> #[trigger] gs[i].len() >= #[trigger] gs[j].len()
}

/// Sorting by size puts the largest groups first: the options of a poll's
/// results, and the voters of each line, come with most votes first.
pub proof fn law_results_sorted_by_votes(groups: Seq<Seq<VoteView>>)
    ensures
        sorted_by_size(sort_by_size(groups)),
    decreases groups.len(),
{
    if groups.len() > 0 {
        let p = groups.drop_last();
        law_results_sorted_by_votes(p);
        lemma_sort_members(p);
        let s = sort_by_size(p);
        let g = groups.last();
        let n = g.len();
        lemma_insert_point(s, n);
        let q = insert_point(s, n);
        let r = s.insert(q, g);
        assert forall|i: int, j: int| 0 <= i < j < r.len() implies #[trigger] r[i].len()
            >= #[trigger] r[j].len() by {
            if q > 0 {
                assert(s[q - 1].len() >= n);
            }
            if i < q && j < q {
                assert(r[i] == s[i] && r[j] == s[j]);
            } else if i < q && j == q {
                assert(r[i] == s[i]);
                if i < q - 1 {
                    assert(s[i].len() >= s[q - 1].len());
                }
            } else if i < q {
                assert(r[i] == s[i] && r[j] == s[j - 1]);
            } else if i == q {
                assert(r[j] == s[j - 1]);
                assert(s[j - 1].len() < n);
            } else {
                assert(r[i] == s[i - 1] && r[j] == s[j - 1]);
            }
        }
    }
}

/// The number of votes in the groups.
pub open spec fn total_votes(gs: Seq<Seq<VoteView>>) -> nat
    decreases gs.len(),
{
    if gs.len() == 0 {
        0
    } else {
        total_votes(gs.drop_last()) + gs.last().len()
    }
}

proof fn lemma_total_update(gs: Seq<Seq<VoteView>>, i: int, x: Seq<VoteView>)
    requires
        0 <= i < gs.len(),
    ensures
        total_votes(gs.update(i, x)) == total_votes(gs) - gs[i].len() + x.len(),
    decreases gs.len(),
{
    if i < gs.len() - 1 {
        lemma_total_update(gs.drop_last(), i, x);
        assert(gs.update(i, x).drop_last() =~= gs.drop_last().update(i, x));
    } else {
        assert(gs.update(i, x).drop_last() =~= gs.drop_last());
    }
}

proof fn lemma_total_insert(gs: Seq<Seq<VoteView>>, q: int, x: Seq<VoteView>)
    requires
        0 <= q <= gs.len(),
    ensures
        total_votes(gs.insert(q, x)) == total_votes(gs) + x.len(),
    decreases gs.len(),
{
    if q == gs.len() {
        assert(gs.insert(q, x) =~= gs.push(x));
        assert(gs.push(x).drop_last() =~= gs);
    } else {
        lemma_total_insert(gs.drop_last(), q, x);
        assert(gs.insert(q, x).drop_last() =~= gs.drop_last().insert(q, x));
    }
}

/// Every vote is counted in exactly one option's total: the totals of a
/// poll's results add up to the number of votes.
pub proof fn law_results_count_every_vote(votes: Seq<VoteView>)
    ensures
        total_votes(sort_by_size(group_votes(votes))) == votes.len(),
{
    lemma_group_total(votes);
    lemma_sort_total(group_votes(votes));
}

proof fn lemma_group_total(votes: Seq<VoteView>)
    ensures
        total_votes(group_votes(votes)) == votes.len(),
    decreases votes.len(),
{
    if votes.len() > 0 {
        let p = votes.drop_last();
        lemma_group_total(p);
        let g = group_votes(p);
        lemma_group_votes_nonempty(p);
        lemma_group_index(g, votes.last().0);
        let i = group_index(g, votes.last().0);
        if i >= 0 {
            lemma_total_update(g, i, g[i].push(votes.last()));
        } else {
            assert(g.push(seq![votes.last()]).drop_last() =~= g);
        }
    }
}

proof fn lemma_sort_total(gs: Seq<Seq<VoteView>>)
    ensures
        total_votes(sort_by_size(gs)) == total_votes(gs),
    decreases gs.len(),
{
    if gs.len() > 0 {
        let p = gs.drop_last();
        lemma_sort_total(p);
        let s = sort_by_size(p);
        lemma_insert_point(s, gs.last().len());
        lemma_total_insert(s, insert_point(s, gs.last().len()), gs.last());
    }
}

/// Whether each group holds the votes of one option, and no two groups are
/// of the same option.
pub open spec fn one_group_per_option(gs: Seq<Seq<VoteView>>) -> bool {
    &&& forall|i: int, k: int|
        0 <= i < gs.len() && 0 <= k < gs[i].len() ==> #[trigger] gs[i][k].0 == gs[i][0].0
    &&& forall|i: int, j: int|
        0 <= i < j < gs.len() ==> #[trigger] gs[i][0].0 != #[trigger] gs[j][0].0
}

/// Grouping gathers the votes for each option into one group, and each
/// vote into the group of its option.
pub proof fn law_one_group_per_option(votes: Seq<VoteView>)
    ensures
        one_group_per_option(group_votes(votes)),
        all_nonempty(group_votes(votes)),
    decreases votes.len(),
{
    lemma_group_votes_nonempty(votes);
    if votes.len() > 0 {
        let p = votes.drop_last();
        law_one_group_per_option(p);
        let g = group_votes(p);
        let v = votes.last();
        lemma_group_index(g, v.0);
        let r = group_votes(votes);
        assert forall|i: int, k: int| 0 <= i < r.len() && 0 <= k < r[i].len() implies #[trigger] r[i][k].0
            == r[i][0].0 by {
            if i < g.len() {
                assert(g[i].len() > 0);
            }
        }
        assert forall|i: int, j: int| 0 <= i < j < r.len() implies #[trigger] r[i][0].0
            != #[trigger] r[j][0].0 by {
            if i < g.len() {
                assert(g[i].len() > 0);
            }
            if j < g.len() {
                assert(g[j].len() > 0);
            }
        }
    }
}

/// Every group holds the votes of one voter, and no two groups share a voter.
pub open spec fn one_group_per_voter(gs: Seq<Seq<VoteView>>) -> bool {
    &&& forall|i: int, k: int|
        0 <= i < gs.len() && 0 <= k < gs[i].len() ==> #[trigger] gs[i][k].1 == gs[i][0].1
    &&& forall|i: int, j: int|
        0 <= i < j < gs.len() ==> #[trigger] gs[i][0].1 != #[trigger] gs[j][0].1
}

/// In a result line each voter is named once: grouping by voter gathers
/// all of a voter's votes into one group.
pub proof fn law_each_voter_once(votes: Seq<VoteView>)
    ensures
        one_group_per_voter(group_by_user(votes)),
        all_nonempty(group_by_user(votes)),
    decreases votes.len(),
{
    lemma_group_by_user_nonempty(votes);
    if votes.len() > 0 {
        let p = votes.drop_last();
        law_each_voter_once(p);
        let g = group_by_user(p);
        let v = votes.last();
        lemma_user_group_index(g, v.1);
        let r = group_by_user(votes);
        assert forall|i: int, k: int| 0 <= i < r.len() && 0 <= k < r[i].len() implies #[trigger] r[i][k].1
            == r[i][0].1 by {
            if i < g.len() {
                assert(g[i].len() > 0);
            }
        }
        assert forall|i: int, j: int| 0 <= i < j < r.len() implies #[trigger] r[i][0].1
            != #[trigger] r[j][0].1 by {
            if i < g.len() {
                assert(g[i].len() > 0);
            }
            if j < g.len() {
                assert(g[j].len() > 0);
            }
        }
    }
}

} // verus!
