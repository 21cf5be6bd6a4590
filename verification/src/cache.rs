//! The cache of rankings: sorted sets, each under a string key.

use crate::ranking::find_member;
use crate::ranking::has_member;
use crate::ranking::member_index;
use crate::ranking::is_ranked;
use crate::ranking::lemma_member_index_is;
use crate::ranking::lemma_with_member;
use crate::ranking::rank_member;
use crate::ranking::ranking_view;
use crate::ranking::score_of;
use crate::ranking::with_member;
use crate::ranking::RankedMember;
use vstd::prelude::*;
use vstd::string::*;

verus! {

/// A ranking under its key.
#[derive(Debug)]
pub struct CachedRanking {
    /// The key.
    pub key: String,
    /// The members, highest score first.
    pub members: Vec<RankedMember>,
}

/// The rankings of a cache, by key.  A key without a ranking and a key with an
/// empty ranking are the same thing.
pub type CacheView = Map<Seq<char>, Seq<(Seq<char>, u32)>>;

/// The ranking under `key`; empty where the cache has none.
pub open spec fn ranking_at(cache: CacheView, key: Seq<char>) -> Seq<(Seq<char>, u32)> {
    if cache.dom().contains(key) {
        cache[key]
    } else {
        Seq::empty()
    }
}

/// The cache after `member` has been given the score `score` under `key`.
pub open spec fn cache_zadd(
    cache: CacheView,
    key: Seq<char>,
    score: u32,
    member: Seq<char>,
) -> CacheView {
    cache.insert(key, with_member(ranking_at(cache, key), member, score))
}

/// The score of `member` under `key`, where it has one.
pub open spec fn cache_zscore(cache: CacheView, key: Seq<char>, member: Seq<char>) -> Option<u32> {
    score_of(ranking_at(cache, key), member)
}

/// The places `start` to `stop`, both included and counted from 0, of the
/// ranking under `key`, highest score first.
pub open spec fn cache_zrevrange(cache: CacheView, key: Seq<char>, start: int, stop: int) -> Seq<
    (Seq<char>, u32),
> {
    let ranking = ranking_at(cache, key);
    let end = if stop + 1 < ranking.len() {
        stop + 1
    } else {
        ranking.len() as int
    };
    if 0 <= start < end {
        ranking.subrange(start, end)
    } else {
        Seq::empty()
    }
}

/// Whether every ranking of the cache is in order and holds a member.
pub open spec fn cache_is_ranked(cache: CacheView) -> bool {
    forall|key: Seq<char>| #[trigger]
        cache.dom().contains(key) ==> is_ranked(cache[key]) && cache[key].len() > 0
}

/// A cache of rankings held in memory.
#[derive(Debug)]
pub struct CacheStore {
    /// The rankings; no key occurs twice, and no ranking is empty.
    pub sets: Vec<CachedRanking>,
}

impl CacheStore {
    /// Whether a ranking stands under `key`.
    pub open spec fn spec_holds(&self, key: Seq<char>) -> bool {
        exists|i: int| 0 <= i < self.sets.len() && (#[trigger] self.sets[i]).key@ == key
    }

    /// A place at which the ranking under `key` stands, where there is one.
    pub open spec fn spec_index(&self, key: Seq<char>) -> int {
        choose|i: int| 0 <= i < self.sets.len() && (#[trigger] self.sets[i]).key@ == key
    }

    /// No key occurs twice; every ranking is in order and holds a member.
    pub open spec fn wf(&self) -> bool {
        &&& forall|i: int, j: int|
            0 <= i < self.sets.len() && 0 <= j < self.sets.len() && i != j ==> (
            #[trigger] self.sets[i]).key@ != (#[trigger] self.sets[j]).key@
        &&& forall|i: int|
            0 <= i < self.sets.len() ==> is_ranked(
                ranking_view((#[trigger] self.sets[i]).members@),
            ) && self.sets[i].members.len() > 0
    }
}

impl View for CacheStore {
    type V = Map<Seq<char>, Seq<(Seq<char>, u32)>>;

    open spec fn view(&self) -> Map<Seq<char>, Seq<(Seq<char>, u32)>> {
        Map::new(
            |key: Seq<char>| self.spec_holds(key),
            |key: Seq<char>| ranking_view(self.sets[self.spec_index(key)].members@),
        )
    }
}

impl CacheStore {
    /// In a well-formed cache a key is found at its one place.
    pub proof fn lemma_key_at(&self, key: Seq<char>, at: int)
        requires
            self.wf(),
            0 <= at < self.sets.len(),
            self.sets[at].key@ == key,
        ensures
            self.spec_holds(key),
            self.spec_index(key) == at,
            self@.dom().contains(key),
            self@[key] == ranking_view(self.sets[at].members@),
    {
    }

    /// The rankings of a well-formed cache are in order.
    pub proof fn lemma_view_is_ranked(&self)
        requires
            self.wf(),
        ensures
            cache_is_ranked(self@),
            forall|key: Seq<char>| is_ranked(#[trigger] ranking_at(self@, key)),
    {
        assert forall|key: Seq<char>| #[trigger] self@.dom().contains(key) implies is_ranked(
            self@[key],
        ) && self@[key].len() > 0 by {
            let at = self.spec_index(key);
            assert(self.sets[at].key@ == key);
        }
    }

    /// A cache without rankings.
    pub fn new() -> (r: CacheStore)
        ensures
            r.wf(),
            r@ == Map::<Seq<char>, Seq<(Seq<char>, u32)>>::empty(),
    {
        let r = CacheStore { sets: Vec::new() };
        assert(r@ =~= Map::<Seq<char>, Seq<(Seq<char>, u32)>>::empty());
        r
    }

    /// The place at which the ranking under `key` stands, if there is one.
    fn find_key(&self, key: &str) -> (r: Option<usize>)
        requires
            self.wf(),
        ensures
            r is Some <==> self@.dom().contains(key@),
            r matches Some(at) ==> at < self.sets.len() && self.sets[at as int].key@ == key@
                && self@[key@] == ranking_view(self.sets[at as int].members@),
    {
        let wanted: String = String::from_str(key);
        let mut i: usize = 0;
        while i < self.sets.len()
            invariant
                i <= self.sets.len(),
                wanted@ == key@,
                self.wf(),
                forall|j: int| 0 <= j < i ==> (#[trigger] self.sets[j]).key@ != key@,
            decreases self.sets.len() - i,
        {
            if self.sets[i].key == wanted {
                proof {
                    self.lemma_key_at(key@, i as int);
                }
                return Some(i);
            }
            i += 1;
        }
        None
    }

    /// Gives `member` the score `score` in the ranking under `key`, which is
    /// begun where there was none.
    pub fn zadd(&mut self, key: &str, score: u32, member: &str)
        requires
            old(self).wf(),
        ensures
            final(self).wf(),
            final(self)@ == cache_zadd(old(self)@, key@, score, member@),
            cache_zscore(final(self)@, key@, member@) == Some(score),
            forall|other: Seq<char>|
                other != member@ ==> cache_zscore(final(self)@, key@, other) == cache_zscore(
                    old(self)@,
                    key@,
                    other,
                ),
            forall|other: Seq<char>|
                other != key@ ==> ranking_at(final(self)@, other) == ranking_at(old(self)@, other),
    {
        let ghost before = self@;
        proof {
            self.lemma_view_is_ranked();
            lemma_with_member(ranking_at(before, key@), member@, score);
        }
        match self.find_key(key) {
            Some(at) => {
                let ghost sets_before = self.sets@;
                let mut set: CachedRanking = self.sets.remove(at);
                rank_member(&mut set.members, member, score);
                self.sets.insert(at, set);
                proof {
                    assert forall|i: int| 0 <= i < self.sets.len() implies (
                    #[trigger] self.sets[i]).key@ == sets_before[i].key@ && (i != at
                        ==> self.sets[i] == sets_before[i]) by {}
                    assert(self.wf());
                    self.lemma_key_at(key@, at as int);
                    assert forall|other: Seq<char>|
                        other != key@ && #[trigger] before.dom().contains(other) implies self@.dom()
                        .contains(other) && self@[other] == before[other] by {
                        let k = choose|k: int|
                            0 <= k < sets_before.len() && (#[trigger] sets_before[k]).key@ == other;
                        assert(self.sets[k].key@ == other);
                        self.lemma_key_at(other, k);
                    }
                    assert forall|other: Seq<char>|
                        other != key@ && #[trigger] self@.dom().contains(other) implies before.dom()
                        .contains(other) by {
                        let k = self.spec_index(other);
                        assert(sets_before[k].key@ == other);
                    }
                    assert(self@ =~= cache_zadd(before, key@, score, member@));
                }
            },
            None => {
                let ghost sets_before = self.sets@;
                let mut members: Vec<RankedMember> = Vec::new();
                assert(ranking_view(members@) =~= Seq::empty());
                rank_member(&mut members, member, score);
                self.sets.push(CachedRanking { key: String::from_str(key), members });
                proof {
                    let last = sets_before.len() as int;
                    assert forall|i: int| 0 <= i < last implies #[trigger] self.sets[i]
                        == sets_before[i] by {}
                    assert forall|i: int| 0 <= i < last implies (#[trigger] self.sets[i]).key@
                        != key@ by {
                        if self.sets[i].key@ == key@ {
                            assert(sets_before[i].key@ == key@);
                        }
                    }
                    assert(self.wf());
                    self.lemma_key_at(key@, last);
                    assert forall|other: Seq<char>|
                        other != key@ && #[trigger] before.dom().contains(other) implies self@.dom()
                        .contains(other) && self@[other] == before[other] by {
                        let k = choose|k: int|
                            0 <= k < sets_before.len() && (#[trigger] sets_before[k]).key@ == other;
                        assert(self.sets[k].key@ == other);
                        self.lemma_key_at(other, k);
                    }
                    assert forall|other: Seq<char>|
                        other != key@ && #[trigger] self@.dom().contains(other) implies before.dom()
                        .contains(other) by {
                        let k = self.spec_index(other);
                        assert(sets_before[k].key@ == other);
                    }
                    assert(self@ =~= cache_zadd(before, key@, score, member@));
                }
            },
        }
    }

    /// The score of `member` in the ranking under `key`; `None` where the
    /// key or the member is missing.
    pub fn zscore(&self, key: &str, member: &str) -> (r: Option<u32>)
        requires
            self.wf(),
        ensures
            r == cache_zscore(self@, key@, member@),
    {
        match self.find_key(key) {
            Some(at) => {
                match find_member(&self.sets[at].members, member) {
                    Some(place) => {
                        proof {
                            lemma_member_index_is(
                                ranking_view(self.sets[at as int].members@),
                                member@,
                                place as int,
                            );
                        }
                        Some(self.sets[at].members[place].score)
                    },
                    None => None,
                }
            },
            None => None,
        }
    }

    /// The places `start` to `stop`, both included and counted from 0, of the
    /// ranking under `key`, highest score first.
    pub fn zrevrange_with_scores(&self, key: &str, start: usize, stop: usize) -> (r: Vec<
        RankedMember,
    >)
        requires
            self.wf(),
        ensures
            ranking_view(r@) == cache_zrevrange(self@, key@, start as int, stop as int),
    {
        let mut out: Vec<RankedMember> = Vec::new();
        match self.find_key(key) {
            Some(at) => {
                let members: &Vec<RankedMember> = &self.sets[at].members;
                let end: usize = if stop < members.len() - 1 {
                    stop + 1
                } else {
                    members.len()
                };
                if start < end {
                    let mut i: usize = start;
                    while i < end
                        invariant
                            start <= i <= end <= members.len(),
                            out@.len() == i - start,
                            ranking_view(out@) == ranking_view(members@).subrange(
                                start as int,
                                i as int,
                            ),
                        decreases end - i,
                    {
                        let ghost before = out@;
                        out.push(members[i].clone());
                        proof {
                            let wanted = ranking_view(members@).subrange(start as int, i + 1);
                            assert forall|j: int| 0 <= j < wanted.len() implies ranking_view(
                                out@,
                            )[j] == wanted[j] by {
                                if j < before.len() {
                                    assert(out@[j] == before[j]);
                                    assert(ranking_view(before)[j] == before[j]@);
                                    assert(ranking_view(before)[j] == ranking_view(members@)[start
                                        + j]);
                                } else {
                                    assert(out@[j]@ == members@[i as int]@);
                                }
                            }
                            assert(ranking_view(out@) =~= wanted);
                        }
                        i += 1;
                    }
                } else {
                    assert(ranking_view(out@) =~= Seq::empty());
                }
            },
            None => {
                assert(ranking_view(out@) =~= Seq::empty());
            },
        }
        out
    }

    /// The place of `member` in the ranking under `key`, counted from 0 for
    /// the highest score; `None` where the key or the member is missing.
    pub fn zrevrank(&self, key: &str, member: &str) -> (r: Option<usize>)
        requires
            self.wf(),
        ensures
            r is Some <==> has_member(ranking_at(self@, key@), member@),
            r matches Some(place) ==> place == member_index(ranking_at(self@, key@), member@),
    {
        match self.find_key(key) {
            Some(at) => {
                match find_member(&self.sets[at].members, member) {
                    Some(place) => {
                        proof {
                            lemma_member_index_is(
                                ranking_view(self.sets[at as int].members@),
                                member@,
                                place as int,
                            );
                        }
                        Some(place)
                    },
                    None => None,
                }
            },
            None => {
                assert(!has_member(ranking_at(self@, key@), member@));
                None
            },
        }
    }

    /// Removes the ranking under `key`, and says whether there was one.
    pub fn del_key(&mut self, key: &str) -> (r: bool)
        requires
            old(self).wf(),
        ensures
            final(self).wf(),
            r == old(self)@.dom().contains(key@),
            final(self)@ == old(self)@.remove(key@),
    {
        let ghost before = self@;
        match self.find_key(key) {
            Some(at) => {
                let ghost sets_before = self.sets@;
                let _ = self.sets.remove(at);
                proof {
                    assert forall|i: int| 0 <= i < self.sets.len() implies #[trigger] self.sets[i]
                        == sets_before[if i < at {
                        i
                    } else {
                        i + 1
                    }] by {}
                    assert(self.wf());
                    assert forall|other: Seq<char>|
                        other != key@ && #[trigger] before.dom().contains(other) implies self@.dom()
                        .contains(other) && self@[other] == before[other] by {
                        let k = choose|k: int|
                            0 <= k < sets_before.len() && (#[trigger] sets_before[k]).key@ == other;
                        let k2 = if k < at {
                            k
                        } else {
                            k - 1
                        };
                        assert(self.sets[k2] == sets_before[k]);
                        self.lemma_key_at(other, k2);
                    }
                    assert forall|other: Seq<char>| #[trigger]
                        self@.dom().contains(other) implies other != key@ && before.dom().contains(
                        other,
                    ) by {
                        let k = self.spec_index(other);
                        let k2 = if k < at {
                            k
                        } else {
                            k + 1
                        };
                        assert(sets_before[k2].key@ == other);
                    }
                    let after = before.remove(key@);
                    assert forall|other: Seq<char>|
                        after.dom().contains(other) implies #[trigger] self@.dom().contains(other)
                        && self@[other] == after[other] by {
                        assert(before.dom().contains(other));
                    }
                    assert(self@ =~= after);
                }
                true
            },
            None => {
                assert(self@ =~= before.remove(key@));
                false
            },
        }
    }

    /// Whether a ranking stands under `key`.
    pub fn has_key(&self, key: &str) -> (r: bool)
        requires
            self.wf(),
        ensures
            r == self@.dom().contains(key@),
    {
        self.find_key(key).is_some()
    }
}

} // verus!
