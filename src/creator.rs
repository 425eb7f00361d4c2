use vstd::prelude::*;
use crate::dates::today;
use crate::model::{
    Date, SiteData, VideoMedia, VideoWork, VideoWorkMedium, WatchData, WatchPosition, WatchStatus,
};
use crate::text::{decimal_u16, parse_u16, text_eq};

verus! {

/// The question that the next line of input answers while a record is built.
#[derive(Debug, Clone, Copy, PartialEq, Eq, Structural)]
pub enum CreateStage {
    /// A title; a blank line asks again.
    Title,
    Year,
    /// `movie`, `tvshow` or `anime`.
    Medium,
    /// For a movie: `true` if it has been watched, `false` if not.
    Watched,
    /// For a multi part work: `virgin`, `partial` or `exhausted`.
    Status,
    Season,
    /// `true` to give an episode of `season`, `false` for the whole season.
    EpisodeChoice { season: u16 },
    Episode { season: u16 },
    /// For a multi part work: `true` or `false`.
    Ongoing,
    /// The record is complete.
    Done,
}

/// The record that building starts from, dated `today`.
pub open spec fn blank_record(r: VideoMedia, today: Date) -> bool {
    &&& r.work.title@ == Seq::<char>::empty()
    &&& r.work.year == 0
    &&& r.work.medium == VideoWorkMedium::Movie
    &&& r.site_data.tracker.is_none()
    &&& r.site_data.watch.is_none()
    &&& r.watch_data == WatchData { status: WatchStatus::Virgin, position: None }
    &&& !r.ongoing
    &&& r.updated == today
}

/// A record with nothing filled in yet, dated `today`.
pub fn blank_on(today: Date) -> (r: VideoMedia)
    ensures
        blank_record(r, today),
{
    VideoMedia {
        work: VideoWork { title: String::new(), year: 0, medium: VideoWorkMedium::Movie },
        site_data: SiteData { tracker: None, watch: None },
        watch_data: WatchData { status: WatchStatus::Virgin, position: None },
        ongoing: false,
        updated: today,
    }
}

/// A record with nothing filled in yet, dated today.
pub fn blank() -> (r: VideoMedia)
    ensures
        r.updated.wf(),
        blank_record(r, r.updated),
{
    blank_on(today())
}

/// The question that follows `stage` on the line `input`.
pub open spec fn create_next(stage: CreateStage, input: Seq<char>) -> CreateStage {
    match stage {
        CreateStage::Title => if input.len() == 0 {
            CreateStage::Title
        } else {
            CreateStage::Year
        },
        CreateStage::Year => if decimal_u16(input).is_some() {
            CreateStage::Medium
        } else {
            CreateStage::Year
        },
        CreateStage::Medium => if input == "movie"@ {
            CreateStage::Watched
        } else if input == "tvshow"@ || input == "anime"@ {
            CreateStage::Status
        } else {
            CreateStage::Medium
        },
        CreateStage::Watched => if input == "true"@ || input == "false"@ {
            CreateStage::Done
        } else {
            CreateStage::Watched
        },
        CreateStage::Status => if input == "virgin"@ {
            CreateStage::Ongoing
        } else if input == "partial"@ || input == "exhausted"@ {
            CreateStage::Season
        } else {
            CreateStage::Status
        },
        CreateStage::Season => if decimal_u16(input).is_some() {
            CreateStage::EpisodeChoice { season: decimal_u16(input).unwrap() }
        } else {
            CreateStage::Season
        },
        CreateStage::EpisodeChoice { season } => if input == "true"@ {
            CreateStage::Episode { season }
        } else if input == "false"@ {
            CreateStage::Ongoing
        } else {
            CreateStage::EpisodeChoice { season }
        },
        CreateStage::Episode { season } => if decimal_u16(input).is_some() {
            CreateStage::Ongoing
        } else {
            CreateStage::Episode { season }
        },
        CreateStage::Ongoing => if input == "true"@ || input == "false"@ {
            CreateStage::Done
        } else {
            CreateStage::Ongoing
        },
        CreateStage::Done => CreateStage::Done,
    }
}

pub open spec fn with_watch(old: VideoMedia, w: WatchData) -> VideoMedia {
    VideoMedia { watch_data: w, ..old }
}

/// How the line `input` answering `stage` fills the record `old` into `new`.
pub open spec fn create_applied(stage: CreateStage, input: Seq<char>, old: VideoMedia, new: VideoMedia) -> bool {
    match stage {
        CreateStage::Title => if input.len() == 0 {
            new == old
        } else {
            new.work.title@ == input && new == (VideoMedia {
                work: VideoWork { title: new.work.title, ..old.work },
                ..old
            })
        },
        CreateStage::Year => if decimal_u16(input).is_some() {
            new == (VideoMedia {
                work: VideoWork { year: decimal_u16(input).unwrap(), ..old.work },
                ..old
            })
        } else {
            new == old
        },
        CreateStage::Medium => if input == "movie"@ {
            new == (VideoMedia {
                work: VideoWork { medium: VideoWorkMedium::Movie, ..old.work },
                ..old
            })
        } else if input == "tvshow"@ {
            new == (VideoMedia {
                work: VideoWork { medium: VideoWorkMedium::TvShow, ..old.work },
                ..old
            })
        } else if input == "anime"@ {
            new == (VideoMedia {
                work: VideoWork { medium: VideoWorkMedium::Anime, ..old.work },
                ..old
            })
        } else {
            new == old
        },
        CreateStage::Watched => if input == "true"@ {
            new == (VideoMedia {
                ongoing: false,
                ..with_watch(old, WatchData { status: WatchStatus::Exhausted, position: None })
            })
        } else if input == "false"@ {
            new == (VideoMedia {
                ongoing: false,
                ..with_watch(old, WatchData { status: WatchStatus::Virgin, position: None })
            })
        } else {
            new == old
        },
        CreateStage::Status => if input == "virgin"@ {
            new == with_watch(old, WatchData { status: WatchStatus::Virgin, position: None })
        } else if input == "partial"@ {
            new == with_watch(old, WatchData { status: WatchStatus::Partial, ..old.watch_data })
        } else if input == "exhausted"@ {
            new == with_watch(old, WatchData { status: WatchStatus::Exhausted, ..old.watch_data })
        } else {
            new == old
        },
        CreateStage::EpisodeChoice { season } => if input == "true"@ {
            new == old
        } else if input == "false"@ {
            new == with_watch(
                old,
                WatchData {
                    position: Some(WatchPosition { season, episode: None }),
                    ..old.watch_data
                },
            )
        } else {
            new == old
        },
        CreateStage::Episode { season } => if decimal_u16(input).is_some() {
            new == with_watch(
                old,
                WatchData {
                    position: Some(WatchPosition { season, episode: decimal_u16(input) }),
                    ..old.watch_data
                },
            )
        } else {
            new == old
        },
        CreateStage::Ongoing => if input == "true"@ {
            new == (VideoMedia { ongoing: true, ..old })
        } else if input == "false"@ {
            new == (VideoMedia { ongoing: false, ..old })
        } else {
            new == old
        },
        _ => new == old,
    }
}

/// One step of building a record on the line `input`: the record is filled as
/// the question asks, and the next question is returned.
pub fn create_step(stage: CreateStage, item: &mut VideoMedia, input: &str) -> (r: CreateStage)
    ensures
        r == create_next(stage, input@),
        create_applied(stage, input@, *old(item), *final(item)),
{
    match stage {
        CreateStage::Title => {
            if input.unicode_len() == 0 {
                CreateStage::Title
            } else {
                item.work.title = input.to_owned();
                CreateStage::Year
            }
        },
        CreateStage::Year => match parse_u16(input) {
            Some(year) => {
                item.work.year = year;
                CreateStage::Medium
            },
            None => CreateStage::Year,
        },
        CreateStage::Medium => if text_eq(input, "movie") {
            item.work.medium = VideoWorkMedium::Movie;
            CreateStage::Watched
        } else if text_eq(input, "tvshow") {
            item.work.medium = VideoWorkMedium::TvShow;
            CreateStage::Status
        } else if text_eq(input, "anime") {
            item.work.medium = VideoWorkMedium::Anime;
            CreateStage::Status
        } else {
            CreateStage::Medium
        },
        CreateStage::Watched => if text_eq(input, "true") {
            item.watch_data = WatchData { status: WatchStatus::Exhausted, position: None };
            item.ongoing = false;
            CreateStage::Done
        } else if text_eq(input, "false") {
            item.watch_data = WatchData { status: WatchStatus::Virgin, position: None };
            item.ongoing = false;
            CreateStage::Done
        } else {
            CreateStage::Watched
        },
        CreateStage::Status => if text_eq(input, "virgin") {
            item.watch_data = WatchData { status: WatchStatus::Virgin, position: None };
            CreateStage::Ongoing
        } else if text_eq(input, "partial") {
            item.watch_data.status = WatchStatus::Partial;
            CreateStage::Season
        } else if text_eq(input, "exhausted") {
            item.watch_data.status = WatchStatus::Exhausted;
            CreateStage::Season
        } else {
            CreateStage::Status
        },
        CreateStage::Season => match parse_u16(input) {
            Some(season) => CreateStage::EpisodeChoice { season },
            None => CreateStage::Season,
        },
        CreateStage::EpisodeChoice { season } => if text_eq(input, "true") {
            CreateStage::Episode { season }
        } else if text_eq(input, "false") {
            item.watch_data.position = Some(WatchPosition { season, episode: None });
            CreateStage::Ongoing
        } else {
            CreateStage::EpisodeChoice { season }
        },
        CreateStage::Episode { season } => match parse_u16(input) {
            Some(episode) => {
                item.watch_data.position = Some(WatchPosition { season, episode: Some(episode) });
                CreateStage::Ongoing
            },
            None => CreateStage::Episode { season },
        },
        CreateStage::Ongoing => if text_eq(input, "true") {
            item.ongoing = true;
            CreateStage::Done
        } else if text_eq(input, "false") {
            item.ongoing = false;
            CreateStage::Done
        } else {
            CreateStage::Ongoing
        },
        CreateStage::Done => CreateStage::Done,
    }
}

/// What holds of the record while it is built, at each question.
pub open spec fn create_invariant(stage: CreateStage, item: VideoMedia) -> bool {
    let multi_part = item.work.medium != VideoWorkMedium::Movie;
    let begun = item.watch_data.status != WatchStatus::Virgin;
    match stage {
        CreateStage::Title | CreateStage::Year | CreateStage::Medium => {
            &&& item.watch_data == WatchData { status: WatchStatus::Virgin, position: None }
            &&& !item.ongoing
        },
        CreateStage::Watched => !multi_part && !item.ongoing,
        CreateStage::Status => multi_part && !item.ongoing,
        CreateStage::Season | CreateStage::EpisodeChoice { .. } | CreateStage::Episode { .. } => {
            multi_part && begun && !item.ongoing
        },
        CreateStage::Ongoing => multi_part && item.progress_consistent(),
        CreateStage::Done => if multi_part {
            item.progress_consistent()
        } else {
            item.watch_data.position.is_none() && !item.ongoing
        },
    }
}

/// Building starts where the invariant holds, and every answer keeps it: a
/// finished show or anime has a position exactly when watching has begun, and
/// a finished movie has no position and is never ongoing.
pub proof fn lemma_create_keeps_shape(
    stage: CreateStage,
    input: Seq<char>,
    old: VideoMedia,
    new: VideoMedia,
    today: Date,
)
    ensures
        blank_record(old, today) ==> create_invariant(CreateStage::Title, old),
        create_invariant(stage, old) && create_applied(stage, input, old, new) ==> create_invariant(
            create_next(stage, input),
            new,
        ),
{
}

} // verus!
