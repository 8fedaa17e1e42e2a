use vstd::prelude::*;

use crate::map::GunfightMap;

verus! {

/// A calendar day on the player's local clock.
#[derive(Clone, Copy, Debug, PartialEq, Eq, Structural)]
pub struct CalendarDay {
    pub year: i32,
    pub month: u32,
    pub day: u32,
}

/// An instant as the player's local clock showed it, to the second.
#[derive(Clone, Copy, Debug, PartialEq, Eq, Structural)]
pub struct LocalDateTime {
    pub year: i32,
    pub month: u32,
    pub day: u32,
    pub hour: u32,
    pub minute: u32,
    pub second: u32,
}

impl LocalDateTime {
    pub open spec fn spec_calendar_day(&self) -> CalendarDay {
        CalendarDay { year: self.year, month: self.month, day: self.day }
    }

    /// The calendar day this instant falls on.
    pub fn calendar_day(&self) -> (r: CalendarDay)
        ensures
            r == self.spec_calendar_day(),
    {
        CalendarDay { year: self.year, month: self.month, day: self.day }
    }
}

/// One recorded game: where it was played, whether it was won, and when.
#[derive(Clone, Copy, Debug, PartialEq, Eq, Structural)]
pub struct GamePlayed {
    pub map: GunfightMap,
    pub did_win: bool,
    pub date_time: LocalDateTime,
}

/// The answer to "did you win?" when a game is entered.
#[derive(Clone, Copy, Debug, PartialEq, Eq, Structural, Default)]
pub enum DidWinOption {
    Yes,
    No,
    #[default]
    Back,
}

impl GamePlayed {
    /// The game that an answer records, or `None` when the player went back.
    pub fn from_choice(map: GunfightMap, choice: DidWinOption, date_time: LocalDateTime) -> (r:
        Option<GamePlayed>)
        ensures
            choice is Yes ==> r == Some(GamePlayed { map, did_win: true, date_time }),
            choice is No ==> r == Some(GamePlayed { map, did_win: false, date_time }),
            choice is Back ==> r is None,
    {
        match choice {
            DidWinOption::Yes => Some(GamePlayed { map, did_win: true, date_time }),
            DidWinOption::No => Some(GamePlayed { map, did_win: false, date_time }),
            DidWinOption::Back => None,
        }
    }
}

} // verus!
