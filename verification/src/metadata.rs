//! What an engine remembers of its six views.

use crate::datetime::LbDateTime;
use crate::period::LeaderboardPeriod;
use vstd::prelude::*;

verus! {

/// What is remembered of one view: when it was last rebuilt from the log.
#[derive(Clone, Copy, Debug)]
pub struct LeaderboardViewMetadata {
    /// The instant of the last rebuild; `None` before the first.
    pub last_updated: Option<LbDateTime>,
}

impl LeaderboardViewMetadata {
    /// A view that was never rebuilt.
    pub open spec fn spec_default() -> LeaderboardViewMetadata {
        LeaderboardViewMetadata { last_updated: None }
    }

    /// The instant of the last rebuild, if any, is well-formed.
    pub open spec fn wf(&self) -> bool {
        self.last_updated matches Some(t) ==> t.wf()
    }
}

impl Default for LeaderboardViewMetadata {
    fn default() -> (r: LeaderboardViewMetadata)
        ensures
            r == LeaderboardViewMetadata::spec_default(),
    {
        LeaderboardViewMetadata { last_updated: None }
    }
}

/// The metadata of the views of one engine, by period.  A view has none
/// until it is first touched.
#[derive(Clone, Copy, Debug)]
pub struct ViewMetadataMap {
    pub daily: Option<LeaderboardViewMetadata>,
    pub weekly: Option<LeaderboardViewMetadata>,
    pub monthly: Option<LeaderboardViewMetadata>,
    pub seasonally: Option<LeaderboardViewMetadata>,
    pub yearly: Option<LeaderboardViewMetadata>,
    pub all_time: Option<LeaderboardViewMetadata>,
}

/// `metadata`, or the default where there is none.
pub open spec fn or_default(metadata: Option<LeaderboardViewMetadata>) -> LeaderboardViewMetadata {
    match metadata {
        Some(m) => m,
        None => LeaderboardViewMetadata::spec_default(),
    }
}

impl ViewMetadataMap {
    /// The metadata of the view of `period`.
    pub open spec fn spec_get(&self, period: LeaderboardPeriod) -> Option<LeaderboardViewMetadata> {
        match period {
            LeaderboardPeriod::Daily => self.daily,
            LeaderboardPeriod::Weekly => self.weekly,
            LeaderboardPeriod::Monthly => self.monthly,
            LeaderboardPeriod::Seasonally => self.seasonally,
            LeaderboardPeriod::Yearly => self.yearly,
            LeaderboardPeriod::AllTime => self.all_time,
        }
    }

    /// The map in which the view of `period` has the metadata `metadata`.
    pub open spec fn spec_set(
        &self,
        period: LeaderboardPeriod,
        metadata: LeaderboardViewMetadata,
    ) -> ViewMetadataMap {
        match period {
            LeaderboardPeriod::Daily => ViewMetadataMap { daily: Some(metadata), ..*self },
            LeaderboardPeriod::Weekly => ViewMetadataMap { weekly: Some(metadata), ..*self },
            LeaderboardPeriod::Monthly => ViewMetadataMap { monthly: Some(metadata), ..*self },
            LeaderboardPeriod::Seasonally => ViewMetadataMap {
                seasonally: Some(metadata),
                ..*self
            },
            LeaderboardPeriod::Yearly => ViewMetadataMap { yearly: Some(metadata), ..*self },
            LeaderboardPeriod::AllTime => ViewMetadataMap { all_time: Some(metadata), ..*self },
        }
    }

    /// The map in which every view has metadata: what it had, or the default.
    pub open spec fn spec_ensure_all(&self) -> ViewMetadataMap {
        ViewMetadataMap {
            daily: Some(or_default(self.daily)),
            weekly: Some(or_default(self.weekly)),
            monthly: Some(or_default(self.monthly)),
            seasonally: Some(or_default(self.seasonally)),
            yearly: Some(or_default(self.yearly)),
            all_time: Some(or_default(self.all_time)),
        }
    }

    /// Every instant held is well-formed.
    pub open spec fn wf(&self) -> bool {
        forall|period: LeaderboardPeriod|
            (#[trigger] self.spec_get(period)) matches Some(m) ==> m.wf()
    }

    /// A map without metadata.
    pub fn new() -> (r: ViewMetadataMap)
        ensures
            r.wf(),
            forall|period: LeaderboardPeriod| r.spec_get(period) is None,
    {
        ViewMetadataMap {
            daily: None,
            weekly: None,
            monthly: None,
            seasonally: None,
            yearly: None,
            all_time: None,
        }
    }

    /// The metadata of the view of `period`.
    pub fn get(&self, period: &LeaderboardPeriod) -> (r: Option<LeaderboardViewMetadata>)
        ensures
            r == self.spec_get(*period),
    {
        match period {
            LeaderboardPeriod::Daily => self.daily,
            LeaderboardPeriod::Weekly => self.weekly,
            LeaderboardPeriod::Monthly => self.monthly,
            LeaderboardPeriod::Seasonally => self.seasonally,
            LeaderboardPeriod::Yearly => self.yearly,
            LeaderboardPeriod::AllTime => self.all_time,
        }
    }

    /// Gives the view of `period` the metadata `metadata`.
    pub fn set(&mut self, period: &LeaderboardPeriod, metadata: LeaderboardViewMetadata)
        ensures
            *final(self) == old(self).spec_set(*period, metadata),
    {
        match period {
            LeaderboardPeriod::Daily => { self.daily = Some(metadata); },
            LeaderboardPeriod::Weekly => { self.weekly = Some(metadata); },
            LeaderboardPeriod::Monthly => { self.monthly = Some(metadata); },
            LeaderboardPeriod::Seasonally => { self.seasonally = Some(metadata); },
            LeaderboardPeriod::Yearly => { self.yearly = Some(metadata); },
            LeaderboardPeriod::AllTime => { self.all_time = Some(metadata); },
        }
    }

    /// Gives every view that has no metadata the default.
    pub fn ensure_all(&mut self)
        ensures
            *final(self) == old(self).spec_ensure_all(),
    {
        if self.daily.is_none() {
            self.daily = Some(LeaderboardViewMetadata::default());
        }
        if self.weekly.is_none() {
            self.weekly = Some(LeaderboardViewMetadata::default());
        }
        if self.monthly.is_none() {
            self.monthly = Some(LeaderboardViewMetadata::default());
        }
        if self.seasonally.is_none() {
            self.seasonally = Some(LeaderboardViewMetadata::default());
        }
        if self.yearly.is_none() {
            self.yearly = Some(LeaderboardViewMetadata::default());
        }
        if self.all_time.is_none() {
            self.all_time = Some(LeaderboardViewMetadata::default());
        }
    }

    /// Giving every view metadata keeps the map well-formed, and every view
    /// then has what it had, or the default.
    pub proof fn lemma_ensure_all(&self)
        requires
            self.wf(),
        ensures
            self.spec_ensure_all().wf(),
            forall|period: LeaderboardPeriod| #[trigger]
                self.spec_ensure_all().spec_get(period) == Some(or_default(self.spec_get(period))),
    {
        let after = self.spec_ensure_all();
        assert forall|period: LeaderboardPeriod| #[trigger]
            after.spec_get(period) == Some(or_default(self.spec_get(period))) by {}
        assert forall|period: LeaderboardPeriod|
            ((#[trigger] after.spec_get(period)) matches Some(m) ==> m.wf()) by {
            assert(after.spec_get(period) == Some(or_default(self.spec_get(period))));
            assert(self.spec_get(period) matches Some(m) ==> m.wf());
        }
    }

    /// Setting the metadata of one view changes that view alone.
    pub proof fn lemma_set(&self, period: LeaderboardPeriod, metadata: LeaderboardViewMetadata)
        requires
            self.wf(),
            metadata.wf(),
        ensures
            self.spec_set(period, metadata).wf(),
            self.spec_set(period, metadata).spec_get(period) == Some(metadata),
            forall|other: LeaderboardPeriod|
                other != period ==> #[trigger] self.spec_set(period, metadata).spec_get(other)
                    == self.spec_get(other),
    {
        let after = self.spec_set(period, metadata);
        assert forall|other: LeaderboardPeriod|
            ((#[trigger] after.spec_get(other)) matches Some(m) ==> m.wf()) by {
            if other != period {
                assert(after.spec_get(other) == self.spec_get(other));
                assert(self.spec_get(other) matches Some(m) ==> m.wf());
            }
        }
    }

    /// Of two settings of the same view the second stands.
    pub proof fn lemma_set_twice(
        &self,
        period: LeaderboardPeriod,
        first: LeaderboardViewMetadata,
        second: LeaderboardViewMetadata,
    )
        ensures
            self.spec_set(period, first).spec_set(period, second) == self.spec_set(
                period,
                second,
            ),
    {
    }
}

} // verus!
