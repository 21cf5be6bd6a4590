//! The log of leaderboard records.

use crate::entry::entries_view;
use crate::entry::selected;
use crate::entry::unselected;
use crate::entry::LeaderboardEntry;
use crate::entry::LeaderboardEntryView;
use crate::entry::LogQuery;
use vstd::prelude::*;

verus! {

/// How many records of the log are read at a time when a view is rebuilt.
pub const LOG_BATCH_SIZE: u32 = 50_000;

/// Why the log could not be read.
#[derive(Clone, Copy, Debug, PartialEq, Eq, Structural)]
pub enum LogStoreError {
    /// The store could not be reached.
    Unreachable,
}

/// A log of records held in memory, in the order in which they were
/// written.  It can be taken offline, and then fails to answer.
#[derive(Debug)]
pub struct LogStore {
    /// The records, oldest first.
    pub entries: Vec<LeaderboardEntry>,
    /// Whether the store answers.
    pub online: bool,
}

impl View for LogStore {
    type V = Seq<LeaderboardEntryView>;

    open spec fn view(&self) -> Seq<LeaderboardEntryView> {
        entries_view(self.entries@)
    }
}

impl LogStore {
    /// An empty log that answers.
    pub fn new() -> (r: LogStore)
        ensures
            r@ == Seq::<LeaderboardEntryView>::empty(),
            r.online,
    {
        let r = LogStore { entries: Vec::new(), online: true };
        assert(r@ =~= Seq::<LeaderboardEntryView>::empty());
        r
    }

    /// Takes the store offline or brings it back.
    pub fn set_online(&mut self, online: bool)
        ensures
            final(self)@ == old(self)@,
            final(self).online == online,
    {
        self.online = online;
    }

    /// The number of records.
    pub fn len(&self) -> (r: usize)
        ensures
            r == self@.len(),
    {
        self.entries.len()
    }

    /// Appends `entry`.  The store has to be online: a record that cannot
    /// be written is lost.
    pub fn insert_one(&mut self, entry: LeaderboardEntry)
        requires
            old(self).online,
        ensures
            final(self)@ == old(self)@.push(entry@),
            final(self).online == old(self).online,
    {
        self.entries.push(entry);
        assert(self@ =~= old(self)@.push(entry@));
    }

    /// Removes the records that `query` selects.  The store has to be
    /// online.
    pub fn delete_many(&mut self, query: &LogQuery)
        requires
            old(self).online,
        ensures
            final(self)@ == unselected(old(self)@, query@),
            final(self).online == old(self).online,
    {
        let mut kept: Vec<LeaderboardEntry> = Vec::new();
        let mut i: usize = 0;
        assert(entries_view(kept@) =~= unselected(self@.take(0), query@));
        while i < self.entries.len()
            invariant
                i <= self.entries.len(),
                *self == *old(self),
                entries_view(kept@) == unselected(self@.take(i as int), query@),
            decreases self.entries.len() - i,
        {
            proof {
                let next = self@.take(i + 1);
                assert(next.drop_last() =~= self@.take(i as int));
                assert(next.last() == self.entries@[i as int]@);
            }
            if !query.selects(&self.entries[i]) {
                let ghost before = kept@;
                kept.push(self.entries[i].clone());
                assert(entries_view(kept@) =~= entries_view(before).push(
                    self.entries@[i as int]@,
                ));
            }
            i += 1;
        }
        assert(self@.take(i as int) =~= self@);
        self.entries = kept;
    }

    /// The records that `query` selects, oldest first, unless the store is
    /// offline.
    pub fn find(&self, query: &LogQuery) -> (r: Result<Vec<LeaderboardEntry>, LogStoreError>)
        ensures
            r is Ok <==> self.online,
            r matches Ok(found) ==> entries_view(found@) == selected(self@, query@),
    {
        if !self.online {
            return Err(LogStoreError::Unreachable);
        }
        let mut found: Vec<LeaderboardEntry> = Vec::new();
        let mut i: usize = 0;
        assert(entries_view(found@) =~= selected(self@.take(0), query@));
        while i < self.entries.len()
            invariant
                i <= self.entries.len(),
                entries_view(found@) == selected(self@.take(i as int), query@),
            decreases self.entries.len() - i,
        {
            proof {
                let next = self@.take(i + 1);
                assert(next.drop_last() =~= self@.take(i as int));
                assert(next.last() == self.entries@[i as int]@);
            }
            if query.selects(&self.entries[i]) {
                let ghost before = found@;
                found.push(self.entries[i].clone());
                assert(entries_view(found@) =~= entries_view(before).push(
                    self.entries@[i as int]@,
                ));
            }
            i += 1;
        }
        assert(self@.take(i as int) =~= self@);
        Ok(found)
    }
}

} // verus!
