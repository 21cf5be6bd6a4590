//! The lines of a leaderboard as they are shown: identifier, name and score.

use crate::ranking::ranking_view;
use crate::ranking::RankedMember;
use crate::text::parse_u32;
use crate::text::spec_parse_u32;
use crate::text::spec_split_member;
use crate::text::split_member;
use vstd::prelude::*;
use vstd::string::*;

verus! {

/// A line of a leaderboard.
#[derive(Debug)]
pub struct LeaderboardLine {
    /// The player's identifier.
    pub id: String,
    /// The player's name.
    pub name: String,
    /// The player's standing.
    pub score: u32,
}

/// A line of a leaderboard as a value.
pub ghost struct LeaderboardLineView {
    pub id: Seq<char>,
    pub name: Seq<char>,
    pub score: u32,
}

impl View for LeaderboardLine {
    type V = LeaderboardLineView;

    open spec fn view(&self) -> LeaderboardLineView {
        LeaderboardLineView { id: self.id@, name: self.name@, score: self.score }
    }
}

impl Clone for LeaderboardLine {
    fn clone(&self) -> (r: LeaderboardLine)
        ensures
            r@ == self@,
    {
        LeaderboardLine { id: self.id.clone(), name: self.name.clone(), score: self.score }
    }
}

/// The lines of `lines` as values, in the same order.
pub open spec fn lines_view(lines: Seq<LeaderboardLine>) -> Seq<LeaderboardLineView> {
    lines.map_values(|l: LeaderboardLine| l@)
}

/// The line that a member of a ranking gives: the member is split at its
/// first `/` into identifier and name.  A member without a `/` gives none.
pub open spec fn line_of(member: Seq<char>, score: u32) -> Option<LeaderboardLineView> {
    match spec_split_member(member) {
        Some(parts) => Some(LeaderboardLineView { id: parts.0, name: parts.1, score }),
        None => None,
    }
}

/// The lines that the members of `ranking` give, in the same order; members
/// that give no line are left out.
pub open spec fn lines_of(ranking: Seq<(Seq<char>, u32)>) -> Seq<LeaderboardLineView>
    decreases ranking.len(),
{
    if ranking.len() == 0 {
        Seq::empty()
    } else {
        match line_of(ranking.last().0, ranking.last().1) {
            Some(line) => lines_of(ranking.drop_last()).push(line),
            None => lines_of(ranking.drop_last()),
        }
    }
}

/// The score that the text `s` writes; 0 where it writes none.
pub open spec fn score_or_zero(s: Seq<char>) -> u32 {
    match spec_parse_u32(s) {
        Some(score) => score,
        None => 0,
    }
}

/// The ranking that a flat reply holds: members and scores in turn.  A
/// reply of odd length holds none.
pub open spec fn ranking_of_reply(raw: Seq<Seq<char>>) -> Seq<(Seq<char>, u32)> {
    if raw.len() % 2 == 1 {
        Seq::empty()
    } else {
        Seq::new(raw.len() / 2, |i: int| (raw[2 * i], score_or_zero(raw[2 * i + 1])))
    }
}

/// The texts of `raw` as values.
pub open spec fn strings_view(raw: Seq<String>) -> Seq<Seq<char>> {
    raw.map_values(|s: String| s@)
}

impl LeaderboardLine {
    /// The line that a member with its score gives, if the member holds a `/`.
    pub fn from_member(member: &str, score: u32) -> (r: Option<LeaderboardLine>)
        ensures
            r is Some <==> line_of(member@, score) is Some,
            r matches Some(line) ==> Some(line@) == line_of(member@, score),
    {
        match split_member(member) {
            Some((id, name)) => Some(LeaderboardLine { id, name, score }),
            None => None,
        }
    }

    /// The lines that the members of `ranking` give, in the same order.
    pub fn from_ranking(ranking: &Vec<RankedMember>) -> (r: Vec<LeaderboardLine>)
        ensures
            lines_view(r@) == lines_of(ranking_view(ranking@)),
    {
        let mut lines: Vec<LeaderboardLine> = Vec::new();
        let mut i: usize = 0;
        let ghost all = ranking_view(ranking@);
        assert(lines_view(lines@) =~= lines_of(all.take(0)));
        while i < ranking.len()
            invariant
                i <= ranking.len(),
                all == ranking_view(ranking@),
                lines_view(lines@) == lines_of(all.take(i as int)),
            decreases ranking.len() - i,
        {
            proof {
                let next = all.take(i + 1);
                assert(next.drop_last() =~= all.take(i as int));
                assert(next.last() == ranking@[i as int]@);
            }
            match LeaderboardLine::from_member(ranking[i].member.as_str(), ranking[i].score) {
                Some(line) => {
                    let ghost before = lines@;
                    lines.push(line);
                    assert(lines_view(lines@) =~= lines_view(before).push(line@));
                },
                None => {},
            }
            i += 1;
        }
        assert(all.take(i as int) =~= all);
        lines
    }
}

/// The ranking that a flat reply holds: members and scores in turn, a score
/// that cannot be read counting as 0.
pub fn ranking_from_reply(raw: &Vec<String>) -> (r: Vec<RankedMember>)
    ensures
        ranking_view(r@) == ranking_of_reply(strings_view(raw@)),
{
    let mut ranking: Vec<RankedMember> = Vec::new();
    let ghost texts = strings_view(raw@);
    if raw.len() % 2 == 1 {
        assert(ranking_view(ranking@) =~= ranking_of_reply(texts));
        return ranking;
    }
    let count: usize = raw.len() / 2;
    let mut i: usize = 0;
    while i < count
        invariant
            i <= count,
            count * 2 == raw.len(),
            texts == strings_view(raw@),
            ranking@.len() == i,
            forall|j: int|
                0 <= j < i ==> (#[trigger] ranking@[j])@ == (
                    texts[2 * j],
                    score_or_zero(texts[2 * j + 1]),
                ),
        decreases count - i,
    {
        let score: u32 = match parse_u32(raw[2 * i + 1].as_str()) {
            Some(score) => score,
            None => 0,
        };
        ranking.push(RankedMember { member: raw[2 * i].clone(), score });
        i += 1;
    }
    assert(ranking_view(ranking@) =~= ranking_of_reply(texts));
    ranking
}

} // verus!
