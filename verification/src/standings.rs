//! Standings folded from records of the log: one value for every player.

use crate::entry::entries_view;
use crate::entry::LeaderboardEntry;
use crate::entry::LeaderboardEntryView;
use crate::ranking::find_member;
use crate::ranking::has_distinct_members;
use crate::ranking::has_member;
use crate::ranking::lemma_member_index_is;
use crate::ranking::member_index;
use crate::ranking::ranking_view;
use crate::ranking::score_of;
use crate::ranking::RankedMember;
use crate::score_type::ScoreTypeAggregation;
use vstd::prelude::*;
use vstd::string::*;

verus! {

/// The standings after a record of `player` with the value `value` has been
/// taken in: a player seen for the first time enters with the record's
/// value, and for a player seen before the value is merged into the standing.
pub open spec fn absorb_one(
    standings: Seq<(Seq<char>, u32)>,
    aggregation: ScoreTypeAggregation,
    player: Seq<char>,
    value: u32,
) -> Seq<(Seq<char>, u32)> {
    if has_member(standings, player) {
        let at = member_index(standings, player);
        standings.update(at, (player, aggregation.spec_compare(standings[at].1, value)))
    } else {
        standings.push((player, value))
    }
}

/// The standings after the records `entries` have been taken in, in order.
pub open spec fn absorb_all(
    standings: Seq<(Seq<char>, u32)>,
    aggregation: ScoreTypeAggregation,
    entries: Seq<LeaderboardEntryView>,
) -> Seq<(Seq<char>, u32)>
    decreases entries.len(),
{
    if entries.len() == 0 {
        standings
    } else {
        absorb_one(
            absorb_all(standings, aggregation, entries.drop_last()),
            aggregation,
            entries.last().player_id,
            entries.last().value,
        )
    }
}

/// The standings that the records `entries` give.
pub open spec fn standings_of(
    aggregation: ScoreTypeAggregation,
    entries: Seq<LeaderboardEntryView>,
) -> Seq<(Seq<char>, u32)> {
    absorb_all(Seq::empty(), aggregation, entries)
}

/// Taking in a record keeps every player once.
pub proof fn lemma_absorb_one(
    standings: Seq<(Seq<char>, u32)>,
    aggregation: ScoreTypeAggregation,
    player: Seq<char>,
    value: u32,
)
    requires
        has_distinct_members(standings),
    ensures
        has_distinct_members(absorb_one(standings, aggregation, player, value)),
        score_of(absorb_one(standings, aggregation, player, value), player) == Some(
            match score_of(standings, player) {
                Some(standing) => aggregation.spec_compare(standing, value),
                None => value,
            },
        ),
        forall|other: Seq<char>|
            other != player ==> score_of(
                absorb_one(standings, aggregation, player, value),
                other,
            ) == score_of(standings, other),
{
    let after = absorb_one(standings, aggregation, player, value);
    let at = if has_member(standings, player) {
        member_index(standings, player)
    } else {
        standings.len() as int
    };
    assert forall|i: int| 0 <= i < after.len() implies (#[trigger] after[i]).0 == (if i == at {
        player
    } else {
        standings[i].0
    }) by {}
    assert(has_distinct_members(after)) by {
        assert forall|i: int, j: int|
            0 <= i < after.len() && 0 <= j < after.len() && i != j implies after[i].0
            != after[j].0 by {
            if !has_member(standings, player) {
                if i == at {
                    assert(standings[j].0 != player);
                } else if j == at {
                    assert(standings[i].0 != player);
                }
            }
        }
    }
    assert(after[at].0 == player);
    lemma_member_index_is(after, player, at);
    assert forall|other: Seq<char>| other != player implies score_of(after, other) == score_of(
        standings,
        other,
    ) by {
        if has_member(standings, other) {
            let k = member_index(standings, other);
            assert(after[k] == standings[k]);
            lemma_member_index_is(after, other, k);
        } else if has_member(after, other) {
            let k = member_index(after, other);
            assert(after[k].0 == standings[k].0);
        }
    }
}

/// Taking in records keeps every player once.
pub proof fn lemma_absorb_all(
    standings: Seq<(Seq<char>, u32)>,
    aggregation: ScoreTypeAggregation,
    entries: Seq<LeaderboardEntryView>,
)
    requires
        has_distinct_members(standings),
    ensures
        has_distinct_members(absorb_all(standings, aggregation, entries)),
    decreases entries.len(),
{
    if entries.len() > 0 {
        lemma_absorb_all(standings, aggregation, entries.drop_last());
        lemma_absorb_one(
            absorb_all(standings, aggregation, entries.drop_last()),
            aggregation,
            entries.last().player_id,
            entries.last().value,
        );
    }
}

/// Records taken in batch by batch give the same standings as the same
/// records taken in at once.
pub proof fn lemma_absorb_in_batches(
    standings: Seq<(Seq<char>, u32)>,
    aggregation: ScoreTypeAggregation,
    first: Seq<LeaderboardEntryView>,
    second: Seq<LeaderboardEntryView>,
)
    ensures
        absorb_all(absorb_all(standings, aggregation, first), aggregation, second) == absorb_all(
            standings,
            aggregation,
            first + second,
        ),
    decreases second.len(),
{
    if second.len() == 0 {
        assert(first + second =~= first);
    } else {
        lemma_absorb_in_batches(standings, aggregation, first, second.drop_last());
        assert((first + second).drop_last() =~= first + second.drop_last());
        assert((first + second).last() == second.last());
    }
}

/// Standings under construction: players in the order in which they were
/// first seen, each once.
#[derive(Debug)]
pub struct Standings {
    /// The players with their standings.
    pub entries: Vec<RankedMember>,
}

impl View for Standings {
    type V = Seq<(Seq<char>, u32)>;

    open spec fn view(&self) -> Seq<(Seq<char>, u32)> {
        ranking_view(self.entries@)
    }
}

impl Standings {
    /// Every player stands once.
    pub open spec fn wf(&self) -> bool {
        has_distinct_members(self@)
    }

    /// No standings yet.
    pub fn new() -> (r: Standings)
        ensures
            r.wf(),
            r@ == Seq::<(Seq<char>, u32)>::empty(),
    {
        let r = Standings { entries: Vec::new() };
        assert(r@ =~= Seq::<(Seq<char>, u32)>::empty());
        r
    }

    /// Takes in a record of `player_id` with the value `value`.
    pub fn absorb(&mut self, aggregation: ScoreTypeAggregation, player_id: &str, value: u32)
        requires
            old(self).wf(),
        ensures
            final(self).wf(),
            final(self)@ == absorb_one(old(self)@, aggregation, player_id@, value),
    {
        let ghost before = self@;
        proof {
            lemma_absorb_one(before, aggregation, player_id@, value);
        }
        match find_member(&self.entries, player_id) {
            Some(at) => {
                proof {
                    lemma_member_index_is(before, player_id@, at as int);
                }
                let merged: u32 = aggregation.compare(self.entries[at].score, value);
                let _ = self.entries.remove(at);
                self.entries.insert(
                    at,
                    RankedMember { member: String::from_str(player_id), score: merged },
                );
                assert(self@ =~= absorb_one(before, aggregation, player_id@, value));
            },
            None => {
                self.entries.push(
                    RankedMember { member: String::from_str(player_id), score: value },
                );
                assert(self@ =~= absorb_one(before, aggregation, player_id@, value));
            },
        }
    }

    /// Takes in the records `entries`, in order.
    pub fn absorb_batch(
        &mut self,
        aggregation: ScoreTypeAggregation,
        entries: &Vec<LeaderboardEntry>,
    )
        requires
            old(self).wf(),
        ensures
            final(self).wf(),
            final(self)@ == absorb_all(old(self)@, aggregation, entries_view(entries@)),
    {
        let ghost all = entries_view(entries@);
        let mut i: usize = 0;
        assert(all.take(0) =~= Seq::empty());
        while i < entries.len()
            invariant
                i <= entries.len(),
                all == entries_view(entries@),
                self.wf(),
                self@ == absorb_all(old(self)@, aggregation, all.take(i as int)),
            decreases entries.len() - i,
        {
            proof {
                let next = all.take(i + 1);
                assert(next.drop_last() =~= all.take(i as int));
                assert(next.last() == entries@[i as int]@);
            }
            self.absorb(aggregation, entries[i].player_id.as_str(), entries[i].value);
            i += 1;
        }
        assert(all.take(i as int) =~= all);
    }
}

} // verus!
