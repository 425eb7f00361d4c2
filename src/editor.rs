use vstd::prelude::*;
use crate::dates::{parse_date, parsed_date};
use crate::model::{Date, VideoMedia, VideoWorkMedium, WatchData, WatchPosition, WatchStatus};
use crate::text::{decimal_u16, parse_u16, text_eq};

verus! {

/// Where an editing session stands: the menu or prompt that the next line of
/// input answers.
#[derive(Debug, Clone, Copy, PartialEq, Eq, Structural)]
pub enum EditMenu {
    /// Field groups: `1` work, `2` site data, `3` watch data, `4` ongoing,
    /// `5` updated; a blank line ends the session.
    Top,
    /// `1` title, `2` year, `3` medium.
    Work,
    Title,
    Year,
    /// `movie`, `tvshow` or `anime`.
    Medium,
    /// `1` tracker link, `2` watch link.
    Site,
    /// `true` to give a tracker link, `false` to clear it.
    TrackerChoice,
    TrackerLink,
    /// `true` to give a watch link, `false` to clear it.
    WatchLinkChoice,
    WatchLink,
    /// `1` status, `2` position.
    Progress,
    /// `virgin`, `partial` or `exhausted`.
    Status,
    /// `true` to give a position, `false` to clear it.
    PositionChoice,
    Season,
    /// `true` to give an episode of `season`, `false` for the whole season.
    EpisodeChoice { season: u16 },
    Episode { season: u16 },
    /// `true` or `false`.
    Ongoing,
    /// A date written `yyyy-mm-dd`.
    Updated,
}

pub open spec fn opt_ymd(d: Option<Date>) -> Option<(int, int, int)> {
    match d {
        Some(d) => Some(d.ymd()),
        None => None,
    }
}

/// The menu that follows `menu` on the line `input`, where `date` is what that
/// line reads as a date; `None` ends the session.
pub open spec fn edit_next(menu: EditMenu, input: Seq<char>, date: Option<(int, int, int)>) -> Option<
    EditMenu,
> {
    let blank = input.len() == 0;
    match menu {
        EditMenu::Top => if input == "1"@ {
            Some(EditMenu::Work)
        } else if input == "2"@ {
            Some(EditMenu::Site)
        } else if input == "3"@ {
            Some(EditMenu::Progress)
        } else if input == "4"@ {
            Some(EditMenu::Ongoing)
        } else if input == "5"@ {
            Some(EditMenu::Updated)
        } else if blank {
            None
        } else {
            Some(EditMenu::Top)
        },
        EditMenu::Work => if input == "1"@ {
            Some(EditMenu::Title)
        } else if input == "2"@ {
            Some(EditMenu::Year)
        } else if input == "3"@ {
            Some(EditMenu::Medium)
        } else if blank {
            Some(EditMenu::Top)
        } else {
            Some(EditMenu::Work)
        },
        EditMenu::Title => Some(EditMenu::Work),
        EditMenu::Year => if blank || decimal_u16(input).is_some() {
            Some(EditMenu::Work)
        } else {
            Some(EditMenu::Year)
        },
        EditMenu::Medium => if blank || input == "movie"@ || input == "tvshow"@ || input
            == "anime"@ {
            Some(EditMenu::Work)
        } else {
            Some(EditMenu::Medium)
        },
        EditMenu::Site => if input == "1"@ {
            Some(EditMenu::TrackerChoice)
        } else if input == "2"@ {
            Some(EditMenu::WatchLinkChoice)
        } else if blank {
            Some(EditMenu::Top)
        } else {
            Some(EditMenu::Site)
        },
        EditMenu::TrackerChoice => if input == "true"@ {
            Some(EditMenu::TrackerLink)
        } else if input == "false"@ || blank {
            Some(EditMenu::Site)
        } else {
            Some(EditMenu::TrackerChoice)
        },
        EditMenu::TrackerLink => Some(EditMenu::Site),
        EditMenu::WatchLinkChoice => if input == "true"@ {
            Some(EditMenu::WatchLink)
        } else if input == "false"@ || blank {
            Some(EditMenu::Site)
        } else {
            Some(EditMenu::WatchLinkChoice)
        },
        EditMenu::WatchLink => Some(EditMenu::Site),
        EditMenu::Progress => if input == "1"@ {
            Some(EditMenu::Status)
        } else if input == "2"@ {
            Some(EditMenu::PositionChoice)
        } else if blank {
            Some(EditMenu::Top)
        } else {
            Some(EditMenu::Progress)
        },
        EditMenu::Status => if input == "virgin"@ {
            Some(EditMenu::Progress)
        } else if input == "partial"@ || input == "exhausted"@ {
            Some(EditMenu::Season)
        } else if blank {
            Some(EditMenu::Progress)
        } else {
            Some(EditMenu::Status)
        },
        EditMenu::PositionChoice => if input == "true"@ {
            Some(EditMenu::Season)
        } else if input == "false"@ || blank {
            Some(EditMenu::Progress)
        } else {
            Some(EditMenu::PositionChoice)
        },
        EditMenu::Season => if blank {
            Some(EditMenu::Progress)
        } else if decimal_u16(input).is_some() {
            Some(EditMenu::EpisodeChoice { season: decimal_u16(input).unwrap() })
        } else {
            Some(EditMenu::Season)
        },
        EditMenu::EpisodeChoice { season } => if input == "true"@ {
            Some(EditMenu::Episode { season })
        } else if input == "false"@ || blank {
            Some(EditMenu::Progress)
        } else {
            Some(EditMenu::EpisodeChoice { season })
        },
        EditMenu::Episode { season } => if blank || decimal_u16(input).is_some() {
            Some(EditMenu::Progress)
        } else {
            Some(EditMenu::Episode { season })
        },
        EditMenu::Ongoing => if blank || input == "true"@ || input == "false"@ {
            Some(EditMenu::Top)
        } else {
            Some(EditMenu::Ongoing)
        },
        EditMenu::Updated => if blank || date.is_some() {
            Some(EditMenu::Top)
        } else {
            Some(EditMenu::Updated)
        },
    }
}

/// The watch fields that a record of `medium` starts from: nothing watched,
/// nothing ongoing.
pub open spec fn fresh_progress(old: VideoMedia, new: VideoMedia, medium: VideoWorkMedium) -> bool {
    new == (VideoMedia {
        work: crate::model::VideoWork { medium, ..old.work },
        watch_data: WatchData { status: WatchStatus::Virgin, position: None },
        ongoing: false,
        ..old
    })
}

/// How the line `input` answering `menu` turns the record `old` into `new`,
/// where `date` is what that line reads as a date.
pub open spec fn edit_applied(
    menu: EditMenu,
    input: Seq<char>,
    date: Option<(int, int, int)>,
    old: VideoMedia,
    new: VideoMedia,
) -> bool {
    let blank = input.len() == 0;
    match menu {
        EditMenu::Title => if blank {
            new == old
        } else {
            new.work.title@ == input && new == (VideoMedia {
                work: crate::model::VideoWork { title: new.work.title, ..old.work },
                ..old
            })
        },
        EditMenu::Year => if !blank && decimal_u16(input).is_some() {
            new == (VideoMedia {
                work: crate::model::VideoWork { year: decimal_u16(input).unwrap(), ..old.work },
                ..old
            })
        } else {
            new == old
        },
        EditMenu::Medium => if input == "movie"@ {
            fresh_progress(old, new, VideoWorkMedium::Movie)
        } else if input == "tvshow"@ {
            fresh_progress(old, new, VideoWorkMedium::TvShow)
        } else if input == "anime"@ {
            fresh_progress(old, new, VideoWorkMedium::Anime)
        } else {
            new == old
        },
        EditMenu::TrackerChoice => if input == "true"@ {
            new == old
        } else if input == "false"@ {
            new == (VideoMedia {
                site_data: crate::model::SiteData { tracker: None, ..old.site_data },
                ..old
            })
        } else {
            new == old
        },
        EditMenu::TrackerLink => if blank {
            new == old
        } else {
            new.site_data.tracker.is_some() && new.site_data.tracker.unwrap()@ == input && new == (
            VideoMedia {
                site_data: crate::model::SiteData {
                    tracker: new.site_data.tracker,
                    ..old.site_data
                },
                ..old
            })
        },
        EditMenu::WatchLinkChoice => if input == "true"@ {
            new == old
        } else if input == "false"@ {
            new == (VideoMedia {
                site_data: crate::model::SiteData { watch: None, ..old.site_data },
                ..old
            })
        } else {
            new == old
        },
        EditMenu::WatchLink => if blank {
            new == old
        } else {
            new.site_data.watch.is_some() && new.site_data.watch.unwrap()@ == input && new == (
            VideoMedia {
                site_data: crate::model::SiteData { watch: new.site_data.watch, ..old.site_data },
                ..old
            })
        },
        EditMenu::Status => if input == "virgin"@ {
            new == (VideoMedia {
                watch_data: WatchData { status: WatchStatus::Virgin, position: None },
                ..old
            })
        } else if input == "partial"@ {
            new == (VideoMedia {
                watch_data: WatchData { status: WatchStatus::Partial, ..old.watch_data },
                ..old
            })
        } else if input == "exhausted"@ {
            new == (VideoMedia {
                watch_data: WatchData { status: WatchStatus::Exhausted, ..old.watch_data },
                ..old
            })
        } else {
            new == old
        },
        EditMenu::PositionChoice => if input == "true"@ {
            new == old
        } else if input == "false"@ {
            new == (VideoMedia {
                watch_data: WatchData { position: None, ..old.watch_data },
                ..old
            })
        } else {
            new == old
        },
        EditMenu::EpisodeChoice { season } => if input == "true"@ {
            new == old
        } else if input == "false"@ {
            new == (VideoMedia {
                watch_data: WatchData {
                    position: Some(WatchPosition { season, episode: None }),
                    ..old.watch_data
                },
                ..old
            })
        } else {
            new == old
        },
        EditMenu::Episode { season } => if !blank && decimal_u16(input).is_some() {
            new == (VideoMedia {
                watch_data: WatchData {
                    position: Some(WatchPosition { season, episode: decimal_u16(input) }),
                    ..old.watch_data
                },
                ..old
            })
        } else {
            new == old
        },
        EditMenu::Ongoing => if input == "true"@ {
            new == (VideoMedia { ongoing: true, ..old })
        } else if input == "false"@ {
            new == (VideoMedia { ongoing: false, ..old })
        } else {
            new == old
        },
        EditMenu::Updated => if !blank && date.is_some() {
            new.updated.ymd() == date.unwrap() && new == (VideoMedia { updated: new.updated, ..old })
        } else {
            new == old
        },
        _ => new == old,
    }
}

fn fresh_medium(item: &mut VideoMedia, medium: VideoWorkMedium)
    ensures
        fresh_progress(*old(item), *final(item), medium),
{
    item.work.medium = medium;
    item.watch_data = WatchData { status: WatchStatus::Virgin, position: None };
    item.ongoing = false;
}

/// One step of an editing session on the line `input`, given what that line
/// reads as a date (`date`). Returns the next menu, or `None` when the
/// session ends.
pub fn edit_step_dated(menu: EditMenu, item: &mut VideoMedia, input: &str, date: Option<Date>) -> (r:
    Option<EditMenu>)
    ensures
        r == edit_next(menu, input@, opt_ymd(date)),
        edit_applied(menu, input@, opt_ymd(date), *old(item), *final(item)),
{
    let blank = input.unicode_len() == 0;
    match menu {
        EditMenu::Top => if text_eq(input, "1") {
            Some(EditMenu::Work)
        } else if text_eq(input, "2") {
            Some(EditMenu::Site)
        } else if text_eq(input, "3") {
            Some(EditMenu::Progress)
        } else if text_eq(input, "4") {
            Some(EditMenu::Ongoing)
        } else if text_eq(input, "5") {
            Some(EditMenu::Updated)
        } else if blank {
            None
        } else {
            Some(EditMenu::Top)
        },
        EditMenu::Work => if text_eq(input, "1") {
            Some(EditMenu::Title)
        } else if text_eq(input, "2") {
            Some(EditMenu::Year)
        } else if text_eq(input, "3") {
            Some(EditMenu::Medium)
        } else if blank {
            Some(EditMenu::Top)
        } else {
            Some(EditMenu::Work)
        },
        EditMenu::Title => {
            if !blank {
                item.work.title = input.to_owned();
            }
            Some(EditMenu::Work)
        },
        EditMenu::Year => {
            if blank {
                return Some(EditMenu::Work);
            }
            match parse_u16(input) {
                Some(year) => {
                    item.work.year = year;
                    Some(EditMenu::Work)
                },
                None => Some(EditMenu::Year),
            }
        },
        EditMenu::Medium => if text_eq(input, "movie") {
            fresh_medium(item, VideoWorkMedium::Movie);
            Some(EditMenu::Work)
        } else if text_eq(input, "tvshow") {
            fresh_medium(item, VideoWorkMedium::TvShow);
            Some(EditMenu::Work)
        } else if text_eq(input, "anime") {
            fresh_medium(item, VideoWorkMedium::Anime);
            Some(EditMenu::Work)
        } else if blank {
            Some(EditMenu::Work)
        } else {
            Some(EditMenu::Medium)
        },
        EditMenu::Site => if text_eq(input, "1") {
            Some(EditMenu::TrackerChoice)
        } else if text_eq(input, "2") {
            Some(EditMenu::WatchLinkChoice)
        } else if blank {
            Some(EditMenu::Top)
        } else {
            Some(EditMenu::Site)
        },
        EditMenu::TrackerChoice => if text_eq(input, "true") {
            Some(EditMenu::TrackerLink)
        } else if text_eq(input, "false") {
            item.site_data.tracker = None;
            Some(EditMenu::Site)
        } else if blank {
            Some(EditMenu::Site)
        } else {
            Some(EditMenu::TrackerChoice)
        },
        EditMenu::TrackerLink => {
            if !blank {
                item.site_data.tracker = Some(input.to_owned());
            }
            Some(EditMenu::Site)
        },
        EditMenu::WatchLinkChoice => if text_eq(input, "true") {
            Some(EditMenu::WatchLink)
        } else if text_eq(input, "false") {
            item.site_data.watch = None;
            Some(EditMenu::Site)
        } else if blank {
            Some(EditMenu::Site)
        } else {
            Some(EditMenu::WatchLinkChoice)
        },
        EditMenu::WatchLink => {
            if !blank {
                item.site_data.watch = Some(input.to_owned());
            }
            Some(EditMenu::Site)
        },
        EditMenu::Progress => if text_eq(input, "1") {
            Some(EditMenu::Status)
        } else if text_eq(input, "2") {
            Some(EditMenu::PositionChoice)
        } else if blank {
            Some(EditMenu::Top)
        } else {
            Some(EditMenu::Progress)
        },
        EditMenu::Status => if text_eq(input, "virgin") {
            item.watch_data = WatchData { status: WatchStatus::Virgin, position: None };
            Some(EditMenu::Progress)
        } else if text_eq(input, "partial") {
            item.watch_data.status = WatchStatus::Partial;
            Some(EditMenu::Season)
        } else if text_eq(input, "exhausted") {
            item.watch_data.status = WatchStatus::Exhausted;
            Some(EditMenu::Season)
        } else if blank {
            Some(EditMenu::Progress)
        } else {
            Some(EditMenu::Status)
        },
        EditMenu::PositionChoice => if text_eq(input, "true") {
            Some(EditMenu::Season)
        } else if text_eq(input, "false") {
            item.watch_data.position = None;
            Some(EditMenu::Progress)
        } else if blank {
            Some(EditMenu::Progress)
        } else {
            Some(EditMenu::PositionChoice)
        },
        EditMenu::Season => {
            if blank {
                return Some(EditMenu::Progress);
            }
            match parse_u16(input) {
                Some(season) => Some(EditMenu::EpisodeChoice { season }),
                None => Some(EditMenu::Season),
            }
        },
        EditMenu::EpisodeChoice { season } => if text_eq(input, "true") {
            Some(EditMenu::Episode { season })
        } else if text_eq(input, "false") {
            item.watch_data.position = Some(WatchPosition { season, episode: None });
            Some(EditMenu::Progress)
        } else if blank {
            Some(EditMenu::Progress)
        } else {
            Some(EditMenu::EpisodeChoice { season })
        },
        EditMenu::Episode { season } => {
            if blank {
                return Some(EditMenu::Progress);
            }
            match parse_u16(input) {
                Some(episode) => {
                    item.watch_data.position = Some(
                        WatchPosition { season, episode: Some(episode) },
                    );
                    Some(EditMenu::Progress)
                },
                None => Some(EditMenu::Episode { season }),
            }
        },
        EditMenu::Ongoing => if text_eq(input, "true") {
            item.ongoing = true;
            Some(EditMenu::Top)
        } else if text_eq(input, "false") {
            item.ongoing = false;
            Some(EditMenu::Top)
        } else if blank {
            Some(EditMenu::Top)
        } else {
            Some(EditMenu::Ongoing)
        },
        EditMenu::Updated => {
            if blank {
                return Some(EditMenu::Top);
            }
            match date {
                Some(d) => {
                    item.updated = d;
                    Some(EditMenu::Top)
                },
                None => Some(EditMenu::Updated),
            }
        },
    }
}

/// The date that the line answering `menu` reads as: only a date prompt
/// reads one.
pub open spec fn date_read(menu: EditMenu, input: Seq<char>) -> Option<(int, int, int)> {
    if menu == EditMenu::Updated {
        parsed_date(input)
    } else {
        None
    }
}

/// One step of an editing session on the line `input`: the record changes as
/// the menu's prompt says, and the next menu is returned, or `None` when a
/// blank line at the top menu ends the session.
pub fn edit_step(menu: EditMenu, item: &mut VideoMedia, input: &str) -> (r: Option<EditMenu>)
    ensures
        r == edit_next(menu, input@, date_read(menu, input@)),
        edit_applied(menu, input@, date_read(menu, input@), *old(item), *final(item)),
        old(item).updated.wf() ==> final(item).updated.wf(),
{
    let date = if menu == EditMenu::Updated {
        parse_date(input)
    } else {
        None
    };
    edit_step_dated(menu, item, input, date)
}

} // verus!
