//! A ranking: members with their scores, highest score first.

use vstd::prelude::*;
use vstd::string::*;

verus! {

/// A member of a ranking with its score.
#[derive(Debug)]
pub struct RankedMember {
    /// The member.
    pub member: String,
    /// Its score.
    pub score: u32,
}

impl View for RankedMember {
    type V = (Seq<char>, u32);

    open spec fn view(&self) -> (Seq<char>, u32) {
        (self.member@, self.score)
    }
}

impl Clone for RankedMember {
    fn clone(&self) -> (r: RankedMember)
        ensures
            r@ == self@,
    {
        RankedMember { member: self.member.clone(), score: self.score }
    }
}

/// The members and scores of `members`, in the same order.
pub open spec fn ranking_view(members: Seq<RankedMember>) -> Seq<(Seq<char>, u32)> {
    members.map_values(|m: RankedMember| m@)
}

/// Whether the scores of `ranking` never rise from one place to the next.
pub open spec fn is_descending(ranking: Seq<(Seq<char>, u32)>) -> bool {
    forall|i: int, j: int| 0 <= i < j < ranking.len() ==> ranking[i].1 >= ranking[j].1
}

/// Whether no member occurs twice in `ranking`.
pub open spec fn has_distinct_members(ranking: Seq<(Seq<char>, u32)>) -> bool {
    forall|i: int, j: int|
        0 <= i < ranking.len() && 0 <= j < ranking.len() && i != j ==> ranking[i].0 != ranking[j].0
}

/// Whether `ranking` is in order: highest score first, every member once.
pub open spec fn is_ranked(ranking: Seq<(Seq<char>, u32)>) -> bool {
    is_descending(ranking) && has_distinct_members(ranking)
}

/// Whether `member` occurs in `ranking`.
pub open spec fn has_member(ranking: Seq<(Seq<char>, u32)>, member: Seq<char>) -> bool {
    exists|i: int| 0 <= i < ranking.len() && #[trigger] ranking[i].0 == member
}

/// A place at which `member` occurs in `ranking`, where it does.
pub open spec fn member_index(ranking: Seq<(Seq<char>, u32)>, member: Seq<char>) -> int {
    choose|i: int| 0 <= i < ranking.len() && #[trigger] ranking[i].0 == member
}

/// The score of `member` in `ranking`, where it occurs.
pub open spec fn score_of(ranking: Seq<(Seq<char>, u32)>, member: Seq<char>) -> Option<u32> {
    if has_member(ranking, member) {
        Some(ranking[member_index(ranking, member)].1)
    } else {
        None
    }
}

/// `ranking` without `member`.
pub open spec fn without_member(ranking: Seq<(Seq<char>, u32)>, member: Seq<char>) -> Seq<
    (Seq<char>, u32),
> {
    if has_member(ranking, member) {
        ranking.remove(member_index(ranking, member))
    } else {
        ranking
    }
}

/// The place that a new member with score `score` takes in `ranking`: behind
/// every member whose score is at least `score`.
pub open spec fn rank_position(ranking: Seq<(Seq<char>, u32)>, score: u32) -> int
    decreases ranking.len(),
{
    if ranking.len() == 0 {
        0
    } else if ranking[0].1 < score {
        0
    } else {
        1 + rank_position(ranking.subrange(1, ranking.len() as int), score)
    }
}

/// `ranking` after `member` has been given the score `score`: the member
/// leaves its old place, if it had one, and takes the place that the score
/// gives it.
pub open spec fn with_member(ranking: Seq<(Seq<char>, u32)>, member: Seq<char>, score: u32) -> Seq<
    (Seq<char>, u32),
> {
    let rest = without_member(ranking, member);
    rest.insert(rank_position(rest, score), (member, score))
}

/// `rank_position` is the first place whose score is below `score`.
pub proof fn lemma_rank_position(ranking: Seq<(Seq<char>, u32)>, score: u32)
    ensures
        0 <= rank_position(ranking, score) <= ranking.len(),
        forall|i: int|
            0 <= i < rank_position(ranking, score) ==> (#[trigger] ranking[i]).1 >= score,
        rank_position(ranking, score) < ranking.len() ==> ranking[rank_position(
            ranking,
            score,
        )].1 < score,
    decreases ranking.len(),
{
    if ranking.len() > 0 && ranking[0].1 >= score {
        let rest = ranking.subrange(1, ranking.len() as int);
        lemma_rank_position(rest, score);
        assert forall|i: int| 0 <= i < rank_position(ranking, score) implies (
        #[trigger] ranking[i]).1 >= score by {
            if i > 0 {
                assert(ranking[i] == rest[i - 1]);
            }
        }
        if rank_position(ranking, score) < ranking.len() {
            assert(ranking[rank_position(ranking, score)] == rest[rank_position(rest, score)]);
        }
    }
}

/// A place whose score is below `score`, with none such before it, is
/// `rank_position`.
pub proof fn lemma_rank_position_is(ranking: Seq<(Seq<char>, u32)>, score: u32, at: int)
    requires
        0 <= at <= ranking.len(),
        forall|i: int| 0 <= i < at ==> (#[trigger] ranking[i]).1 >= score,
        at < ranking.len() ==> ranking[at].1 < score,
    ensures
        rank_position(ranking, score) == at,
{
    lemma_rank_position(ranking, score);
    let found = rank_position(ranking, score);
    if found < at {
        assert(ranking[found].1 >= score);
    }
    if at < found {
        assert(ranking[at].1 >= score);
    }
}

/// In a ranking without repeated members, a member is found at its one place.
pub proof fn lemma_member_index_is(ranking: Seq<(Seq<char>, u32)>, member: Seq<char>, at: int)
    requires
        has_distinct_members(ranking),
        0 <= at < ranking.len(),
        ranking[at].0 == member,
    ensures
        has_member(ranking, member),
        member_index(ranking, member) == at,
        score_of(ranking, member) == Some(ranking[at].1),
{
}

/// Taking a member out keeps a ranking in order, and the member is gone.
pub proof fn lemma_without_member(ranking: Seq<(Seq<char>, u32)>, member: Seq<char>)
    requires
        is_ranked(ranking),
    ensures
        is_ranked(without_member(ranking, member)),
        !has_member(without_member(ranking, member), member),
        forall|other: Seq<char>|
            other != member ==> score_of(without_member(ranking, member), other) == score_of(
                ranking,
                other,
            ),
{
    let rest = without_member(ranking, member);
    if has_member(ranking, member) {
        let at = member_index(ranking, member);
        assert forall|i: int| 0 <= i < rest.len() implies #[trigger] rest[i] == ranking[if i < at {
            i
        } else {
            i + 1
        }] by {}
        assert forall|other: Seq<char>| other != member implies score_of(rest, other) == score_of(
            ranking,
            other,
        ) by {
            if has_member(ranking, other) {
                let k = member_index(ranking, other);
                let k2 = if k < at {
                    k
                } else {
                    k - 1
                };
                assert(rest[k2] == ranking[k]);
                lemma_member_index_is(rest, other, k2);
            } else if has_member(rest, other) {
                let k = member_index(rest, other);
                assert(rest[k] == ranking[if k < at {
                    k
                } else {
                    k + 1
                }]);
            }
        }
        if has_member(rest, member) {
            let k = member_index(rest, member);
            assert(rest[k] == ranking[if k < at {
                k
            } else {
                k + 1
            }]);
        }
    }
}

/// Giving a member a score keeps a ranking in order; the member then has
/// that score, and every other member the score it had.
pub proof fn lemma_with_member(ranking: Seq<(Seq<char>, u32)>, member: Seq<char>, score: u32)
    requires
        is_ranked(ranking),
    ensures
        is_ranked(with_member(ranking, member, score)),
        with_member(ranking, member, score).len() > 0,
        score_of(with_member(ranking, member, score), member) == Some(score),
        forall|other: Seq<char>|
            other != member ==> score_of(with_member(ranking, member, score), other) == score_of(
                ranking,
                other,
            ),
{
    let rest = without_member(ranking, member);
    lemma_without_member(ranking, member);
    lemma_rank_position(rest, score);
    let at = rank_position(rest, score);
    let after = with_member(ranking, member, score);
    assert forall|i: int| 0 <= i < after.len() implies #[trigger] after[i] == (if i < at {
        rest[i]
    } else if i == at {
        (member, score)
    } else {
        rest[i - 1]
    }) by {}
    assert(is_descending(after)) by {
        assert forall|i: int, j: int| 0 <= i < j < after.len() implies after[i].1 >= after[j].1 by {
            if j == at {
                assert(rest[i].1 >= score);
            } else if i == at {
                assert(rest[at].1 < score);
                assert(rest[at].1 >= rest[j - 1].1);
            } else if i < at && j > at {
                assert(rest[i].1 >= rest[j - 1].1);
            }
        }
    }
    assert(has_distinct_members(after)) by {
        assert forall|i: int, j: int|
            0 <= i < after.len() && 0 <= j < after.len() && i != j implies after[i].0
            != after[j].0 by {
            let i2 = if i < at {
                i
            } else {
                i - 1
            };
            let j2 = if j < at {
                j
            } else {
                j - 1
            };
            if i == at {
                assert(rest[j2].0 != member);
            } else if j == at {
                assert(rest[i2].0 != member);
            }
        }
    }
    assert(after[at].0 == member);
    lemma_member_index_is(after, member, at);
    assert forall|other: Seq<char>| other != member implies score_of(after, other) == score_of(
        ranking,
        other,
    ) by {
        if has_member(rest, other) {
            let k = member_index(rest, other);
            let k2 = if k < at {
                k
            } else {
                k + 1
            };
            assert(after[k2] == rest[k]);
            lemma_member_index_is(after, other, k2);
        } else if has_member(after, other) {
            let k = member_index(after, other);
            let k2 = if k < at {
                k
            } else {
                k - 1
            };
            assert(after[k] == rest[k2]);
        }
    }
}

/// The place at which `member` stands in `members`, if it does.
pub fn find_member(members: &Vec<RankedMember>, member: &str) -> (r: Option<usize>)
    ensures
        r is Some <==> has_member(ranking_view(members@), member@),
        r matches Some(at) ==> at < members.len() && members[at as int].member@ == member@,
{
    let wanted: String = String::from_str(member);
    let mut i: usize = 0;
    while i < members.len()
        invariant
            i <= members.len(),
            wanted@ == member@,
            forall|j: int| 0 <= j < i ==> (#[trigger] ranking_view(members@)[j]).0 != member@,
        decreases members.len() - i,
    {
        if members[i].member == wanted {
            assert(ranking_view(members@)[i as int].0 == member@);
            return Some(i);
        }
        i += 1;
    }
    None
}

/// Gives `member` the score `score` in the ranking `members`.
pub fn rank_member(members: &mut Vec<RankedMember>, member: &str, score: u32)
    requires
        is_ranked(ranking_view(old(members)@)),
    ensures
        ranking_view(final(members)@) == with_member(ranking_view(old(members)@), member@, score),
        is_ranked(ranking_view(final(members)@)),
{
    let ghost before = ranking_view(members@);
    match find_member(members, member) {
        Some(at) => {
            proof {
                lemma_member_index_is(before, member@, at as int);
            }
            let _ = members.remove(at);
            assert(ranking_view(members@) =~= before.remove(at as int));
        },
        None => {},
    }
    let ghost rest = ranking_view(members@);
    assert(rest == without_member(before, member@));
    let mut at: usize = 0;
    while at < members.len() && members[at].score >= score
        invariant
            at <= members.len(),
            rest == ranking_view(members@),
            forall|i: int| 0 <= i < at ==> (#[trigger] rest[i]).1 >= score,
        decreases members.len() - at,
    {
        at += 1;
    }
    proof {
        lemma_rank_position_is(rest, score, at as int);
        lemma_with_member(before, member@, score);
    }
    members.insert(at, RankedMember { member: String::from_str(member), score });
    assert(ranking_view(members@) =~= rest.insert(at as int, (member@, score)));
}

} // verus!
