use vstd::prelude::*;

verus! {

/// What kind of work a record describes; it decides which watch fields apply.
#[derive(Debug, Clone, Copy, PartialEq, Eq, Structural)]
pub enum VideoWorkMedium {
    Movie,
    TvShow,
    Anime,
}

/// How far the work has been watched.
#[derive(Debug, Clone, Copy, PartialEq, Eq, Structural)]
pub enum WatchStatus {
    Virgin,
    Partial,
    /// Finished for single part media (movies), and "seen all that has been
    /// released" for multi part media, whether it is ongoing or not.
    Exhausted,
}

/// The last position that has been watched: the next one to watch follows it.
#[derive(Debug, Clone, Copy, PartialEq, Eq, Structural)]
pub struct WatchPosition {
    pub season: u16,
    /// `None` means the whole season has been watched.
    pub episode: Option<u16>,
}

/// The identity of a work.
#[derive(Debug, Clone, PartialEq, Eq)]
pub struct VideoWork {
    pub title: String,
    pub year: u16,
    pub medium: VideoWorkMedium,
}

/// Free-form links to outside sites.
#[derive(Debug, Clone, PartialEq, Eq)]
pub struct SiteData {
    pub tracker: Option<String>,
    pub watch: Option<String>,
}

/// Watch status and the position reached.
#[derive(Debug, Clone, Copy, PartialEq, Eq, Structural)]
pub struct WatchData {
    pub status: WatchStatus,
    pub position: Option<WatchPosition>,
}

/// A calendar date of the proleptic Gregorian calendar, without time of day.
#[derive(Debug, Clone, Copy, PartialEq, Eq, Structural)]
pub struct Date {
    pub year: i32,
    pub month: u32,
    pub day: u32,
}

/// One stored record: a work and what is known of its watching.
#[derive(Debug, Clone, PartialEq, Eq)]
pub struct VideoMedia {
    pub work: VideoWork,
    pub site_data: SiteData,
    pub watch_data: WatchData,
    pub ongoing: bool,
    pub updated: Date,
}

pub open spec fn is_leap_year(y: int) -> bool {
    (y % 4 == 0 && y % 100 != 0) || y % 400 == 0
}

pub open spec fn days_in_month(y: int, m: int) -> int {
    if m == 2 {
        if is_leap_year(y) { 29 } else { 28 }
    } else if m == 4 || m == 6 || m == 9 || m == 11 {
        30
    } else {
        31
    }
}

/// A year, month and day that name a day of the calendar.
pub open spec fn valid_ymd(y: int, m: int, d: int) -> bool {
    1 <= m <= 12 && 1 <= d <= days_in_month(y, m)
}

impl Date {
    pub open spec fn wf(&self) -> bool {
        valid_ymd(self.year as int, self.month as int, self.day as int)
    }

    pub open spec fn ymd(&self) -> (int, int, int) {
        (self.year as int, self.month as int, self.day as int)
    }
}

impl VideoMedia {
    /// The record is named `name`.
    pub open spec fn titled(&self, name: Seq<char>) -> bool {
        self.work.title@ == name
    }

    /// For a multi part work: a position is recorded exactly when watching
    /// has begun.
    pub open spec fn progress_consistent(&self) -> bool {
        (self.watch_data.status == WatchStatus::Virgin) == self.watch_data.position.is_none()
    }
}

} // verus!
