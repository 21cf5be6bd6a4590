//! Months and the four northern seasons.

use crate::datetime::LbDateTime;
use vstd::prelude::*;
use vstd::string::*;

verus! {

/// A month of the year.
#[derive(Clone, Copy, Debug, PartialEq, Eq, Hash, Structural)]
pub enum Month {
    January,
    February,
    March,
    April,
    May,
    June,
    July,
    August,
    September,
    October,
    November,
    December,
}

impl Month {
    /// The number of the month, with January as 1.
    pub open spec fn spec_number(self) -> int {
        match self {
            Month::January => 1,
            Month::February => 2,
            Month::March => 3,
            Month::April => 4,
            Month::May => 5,
            Month::June => 6,
            Month::July => 7,
            Month::August => 8,
            Month::September => 9,
            Month::October => 10,
            Month::November => 11,
            Month::December => 12,
        }
    }

    /// The month with number `n`, for `n` from 1 to 12.
    pub open spec fn spec_from_number(n: int) -> Month {
        if n <= 1 {
            Month::January
        } else if n == 2 {
            Month::February
        } else if n == 3 {
            Month::March
        } else if n == 4 {
            Month::April
        } else if n == 5 {
            Month::May
        } else if n == 6 {
            Month::June
        } else if n == 7 {
            Month::July
        } else if n == 8 {
            Month::August
        } else if n == 9 {
            Month::September
        } else if n == 10 {
            Month::October
        } else if n == 11 {
            Month::November
        } else {
            Month::December
        }
    }

    /// The number of the month, with January as 1.
    pub fn number_from_month(&self) -> (r: u32)
        ensures
            r == self.spec_number(),
            1 <= r <= 12,
    {
        match self {
            Month::January => 1,
            Month::February => 2,
            Month::March => 3,
            Month::April => 4,
            Month::May => 5,
            Month::June => 6,
            Month::July => 7,
            Month::August => 8,
            Month::September => 9,
            Month::October => 10,
            Month::November => 11,
            Month::December => 12,
        }
    }

    /// The month with number `n`; `None` unless `n` is 1 to 12.
    pub fn from_u32(n: u32) -> (r: Option<Month>)
        ensures
            r is Some <==> 1 <= n <= 12,
            r matches Some(m) ==> m == Month::spec_from_number(n as int) && m.spec_number() == n,
    {
        if n == 1 {
            Some(Month::January)
        } else if n == 2 {
            Some(Month::February)
        } else if n == 3 {
            Some(Month::March)
        } else if n == 4 {
            Some(Month::April)
        } else if n == 5 {
            Some(Month::May)
        } else if n == 6 {
            Some(Month::June)
        } else if n == 7 {
            Some(Month::July)
        } else if n == 8 {
            Some(Month::August)
        } else if n == 9 {
            Some(Month::September)
        } else if n == 10 {
            Some(Month::October)
        } else if n == 11 {
            Some(Month::November)
        } else if n == 12 {
            Some(Month::December)
        } else {
            None
        }
    }
}

/// A season of the northern hemisphere.
#[derive(Clone, Copy, Debug, PartialEq, Eq, Hash, Structural)]
pub enum Season {
    Spring,
    Summer,
    Autumn,
    Winter,
}

impl Season {
    /// The season that a whole month is counted to.
    pub open spec fn spec_of_northern(month: Month) -> Season {
        match month {
            Month::March | Month::April => Season::Spring,
            Month::May | Month::June | Month::July | Month::August => Season::Summer,
            Month::September | Month::October => Season::Autumn,
            Month::November | Month::December | Month::January | Month::February => Season::Winter,
        }
    }

    /// The month of the day on which the season starts.
    pub open spec fn spec_start_month(self) -> Month {
        match self {
            Season::Spring => Month::March,
            Season::Summer => Month::June,
            Season::Autumn => Month::September,
            Season::Winter => Month::December,
        }
    }

    /// The day of the month on which the season starts.
    pub open spec fn spec_start_day(self) -> int {
        match self {
            Season::Spring => 20,
            Season::Summer => 20,
            Season::Autumn => 22,
            Season::Winter => 21,
        }
    }

    /// Whether the day `day` of month `month` lies before the day on which
    /// the season starts in the same year.
    pub open spec fn spec_starts_after(self, month: int, day: int) -> bool {
        self.spec_start_month().spec_number() > month || (self.spec_start_month().spec_number()
            == month && self.spec_start_day() > day)
    }

    /// The season in which the day `day` of month `month` lies.
    pub open spec fn spec_get_season(month: int, day: int) -> Season {
        if Season::Spring.spec_starts_after(month, day) {
            Season::Winter
        } else if Season::Summer.spec_starts_after(month, day) {
            Season::Spring
        } else if Season::Autumn.spec_starts_after(month, day) {
            Season::Summer
        } else if Season::Winter.spec_starts_after(month, day) {
            Season::Autumn
        } else {
            Season::Winter
        }
    }

    /// The season that follows.
    pub open spec fn spec_next(self) -> Season {
        match self {
            Season::Spring => Season::Summer,
            Season::Summer => Season::Autumn,
            Season::Autumn => Season::Winter,
            Season::Winter => Season::Spring,
        }
    }

    /// The season that a whole month is counted to.
    pub fn of_northern(month: Month) -> (r: Season)
        ensures
            r == Season::spec_of_northern(month),
    {
        match month {
            Month::March | Month::April => Season::Spring,
            Month::May | Month::June | Month::July | Month::August => Season::Summer,
            Month::September | Month::October => Season::Autumn,
            Month::November | Month::December | Month::January | Month::February => Season::Winter,
        }
    }

    /// The month and the day of the month on which the season starts.
    pub fn get_northern_season_start(&self) -> (r: (Month, u32))
        ensures
            r.0 == self.spec_start_month(),
            r.1 == self.spec_start_day(),
    {
        match self {
            Season::Spring => (Month::March, 20),
            Season::Summer => (Month::June, 20),
            Season::Autumn => (Month::September, 22),
            Season::Winter => (Month::December, 21),
        }
    }

    /// Whether the date of `date` lies before the day on which the season
    /// starts in the same year.
    pub fn starts_after(&self, date: &LbDateTime) -> (r: bool)
        ensures
            r == self.spec_starts_after(date.month as int, date.day as int),
    {
        let (month, day) = self.get_northern_season_start();
        let number: u32 = month.number_from_month();
        number > date.month || (number == date.month && day > date.day)
    }

    /// The season in which the date of `date` lies.
    pub fn get_season(date: &LbDateTime) -> (r: Season)
        ensures
            r == Season::spec_get_season(date.month as int, date.day as int),
    {
        if Season::Spring.starts_after(date) {
            Season::Winter
        } else if Season::Summer.starts_after(date) {
            Season::Spring
        } else if Season::Autumn.starts_after(date) {
            Season::Summer
        } else if Season::Winter.starts_after(date) {
            Season::Autumn
        } else {
            Season::Winter
        }
    }

    /// The season that follows.
    pub fn next(&self) -> (r: Season)
        ensures
            r == self.spec_next(),
    {
        match self {
            Season::Spring => Season::Summer,
            Season::Summer => Season::Autumn,
            Season::Autumn => Season::Winter,
            Season::Winter => Season::Spring,
        }
    }

    /// The season's name in lower case.
    pub open spec fn spec_name(self) -> Seq<char> {
        match self {
            Season::Spring => "spring"@,
            Season::Summer => "summer"@,
            Season::Autumn => "autumn"@,
            Season::Winter => "winter"@,
        }
    }

    /// The season's name in lower case.
    pub fn name(&self) -> (r: &'static str)
        ensures
            r@ == self.spec_name(),
    {
        match self {
            Season::Spring => "spring",
            Season::Summer => "summer",
            Season::Autumn => "autumn",
            Season::Winter => "winter",
        }
    }
}

} // verus!
