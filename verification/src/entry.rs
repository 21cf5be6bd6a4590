//! The records of the log, and the queries that select them.

use crate::score_type::ScoreType;
use vstd::prelude::*;
use vstd::string::*;

verus! {

/// A record of the log: the standing that a player reached on a day.
#[derive(Debug)]
pub struct LeaderboardEntry {
    /// The player.
    pub player_id: String,
    /// When the record was written, in milliseconds since 1970-01-01T00:00:00Z.
    pub timestamp: i64,
    /// What was counted.
    pub score_type: ScoreType,
    /// The standing.
    pub value: u32,
}

/// A record of the log as a value.
pub ghost struct LeaderboardEntryView {
    pub player_id: Seq<char>,
    pub timestamp: i64,
    pub score_type: ScoreType,
    pub value: u32,
}

impl View for LeaderboardEntry {
    type V = LeaderboardEntryView;

    open spec fn view(&self) -> LeaderboardEntryView {
        LeaderboardEntryView {
            player_id: self.player_id@,
            timestamp: self.timestamp,
            score_type: self.score_type,
            value: self.value,
        }
    }
}

impl Clone for LeaderboardEntry {
    fn clone(&self) -> (r: LeaderboardEntry)
        ensures
            r@ == self@,
    {
        LeaderboardEntry {
            player_id: self.player_id.clone(),
            timestamp: self.timestamp,
            score_type: self.score_type,
            value: self.value,
        }
    }
}

impl LeaderboardEntry {
    /// The name of the field that holds the timestamp.
    pub fn get_timestamp_field() -> (r: String)
        ensures
            r@ == "timestamp"@,
    {
        String::from_str("timestamp")
    }

    /// The name of the collection that holds the records.
    pub fn get_collection_name() -> (r: &'static str)
        ensures
            r@ == "lb_entry"@,
    {
        "lb_entry"
    }
}

/// The records of `entries` as values, in the same order.
pub open spec fn entries_view(entries: Seq<LeaderboardEntry>) -> Seq<LeaderboardEntryView> {
    entries.map_values(|e: LeaderboardEntry| e@)
}

/// A selection of records: those of one score type, of one player where
/// one is named, written from `start`, where there is one, up to but not
/// including `end`.
#[derive(Debug)]
pub struct LogQuery {
    /// The player; `None` selects every player.
    pub player_id: Option<String>,
    /// The score type.
    pub score_type: ScoreType,
    /// The first instant selected; `None` selects from the beginning.
    pub start: Option<i64>,
    /// The first instant no longer selected.
    pub end: i64,
}

/// A selection of records as a value.
pub ghost struct LogQueryView {
    pub player_id: Option<Seq<char>>,
    pub score_type: ScoreType,
    pub start: Option<i64>,
    pub end: i64,
}

impl LogQueryView {
    /// Whether the selection holds `entry`.
    pub open spec fn selects(self, entry: LeaderboardEntryView) -> bool {
        &&& self.player_id matches Some(player_id) ==> entry.player_id == player_id
        &&& entry.score_type == self.score_type
        &&& self.start matches Some(start) ==> start <= entry.timestamp
        &&& entry.timestamp < self.end
    }
}

impl View for LogQuery {
    type V = LogQueryView;

    open spec fn view(&self) -> LogQueryView {
        LogQueryView {
            player_id: match self.player_id {
                Some(player_id) => Some(player_id@),
                None => None,
            },
            score_type: self.score_type,
            start: self.start,
            end: self.end,
        }
    }
}

impl LogQuery {
    /// Whether the selection holds `entry`.
    pub fn selects(&self, entry: &LeaderboardEntry) -> (r: bool)
        ensures
            r == self@.selects(entry@),
    {
        let player_fits: bool = match &self.player_id {
            Some(player_id) => *player_id == entry.player_id,
            None => true,
        };
        let start_fits: bool = match self.start {
            Some(start) => start <= entry.timestamp,
            None => true,
        };
        player_fits && entry.score_type == self.score_type && start_fits && entry.timestamp
            < self.end
    }
}

/// The records of `log` that `query` selects, in the order of the log.
pub open spec fn selected(log: Seq<LeaderboardEntryView>, query: LogQueryView) -> Seq<
    LeaderboardEntryView,
>
    decreases log.len(),
{
    if log.len() == 0 {
        Seq::empty()
    } else if query.selects(log.last()) {
        selected(log.drop_last(), query).push(log.last())
    } else {
        selected(log.drop_last(), query)
    }
}

/// The records of `log` that `query` does not select, in the order of the log.
pub open spec fn unselected(log: Seq<LeaderboardEntryView>, query: LogQueryView) -> Seq<
    LeaderboardEntryView,
>
    decreases log.len(),
{
    if log.len() == 0 {
        Seq::empty()
    } else if query.selects(log.last()) {
        unselected(log.drop_last(), query)
    } else {
        unselected(log.drop_last(), query).push(log.last())
    }
}

} // verus!
