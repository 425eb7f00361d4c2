use watchlist::creator::{blank, blank_on, create_step, CreateStage};
use watchlist::editor::{edit_step, edit_step_dated, EditMenu};
use watchlist::rewrite::{apply_edits, collect_parsed, has_title, remove_by_name, select_by_name};
use watchlist::store::{frame_record, join_records, split_records};
use watchlist::swap::{swap_next, swap_pending, StepOutcome, SwapStage};
use watchlist::text::{parse_u16, text_eq};
use watchlist::{
    Date, SiteData, VideoMedia, VideoWork, VideoWorkMedium, WatchData, WatchPosition, WatchStatus,
};

fn day(year: i32, month: u32, day: u32) -> Date {
    Date { year, month, day }
}

fn record(title: &str, medium: VideoWorkMedium, watch_data: WatchData, ongoing: bool) -> VideoMedia {
    VideoMedia {
        work: VideoWork { title: title.to_string(), year: 2001, medium },
        site_data: SiteData { tracker: None, watch: None },
        watch_data,
        ongoing,
        updated: day(2023, 5, 17),
    }
}

fn foo() -> VideoMedia {
    record(
        "Foo",
        VideoWorkMedium::TvShow,
        WatchData {
            status: WatchStatus::Partial,
            position: Some(WatchPosition { season: 1, episode: Some(3) }),
        },
        true,
    )
}

fn bar() -> VideoMedia {
    record(
        "Bar",
        VideoWorkMedium::Movie,
        WatchData { status: WatchStatus::Exhausted, position: None },
        false,
    )
}

fn run_edit(item: &mut VideoMedia, lines: &[&str]) -> Option<EditMenu> {
    let mut menu = Some(EditMenu::Top);
    for line in lines {
        menu = edit_step(menu.expect("session already ended"), item, line);
    }
    menu
}

fn run_create(item: &mut VideoMedia, lines: &[&str]) -> CreateStage {
    let mut stage = CreateStage::Title;
    for line in lines {
        stage = create_step(stage, item, line);
    }
    stage
}

#[test]
fn parse_u16_reads_decimal() {
    assert_eq!(parse_u16("42"), Some(42));
    assert_eq!(parse_u16("+7"), Some(7));
    assert_eq!(parse_u16("0"), Some(0));
    assert_eq!(parse_u16("65535"), Some(65535));
    assert_eq!(parse_u16("007"), Some(7));
}

#[test]
fn parse_u16_rejects_others() {
    assert_eq!(parse_u16(""), None);
    assert_eq!(parse_u16("+"), None);
    assert_eq!(parse_u16("65536"), None);
    assert_eq!(parse_u16("123456789"), None);
    assert_eq!(parse_u16("-1"), None);
    assert_eq!(parse_u16("1a"), None);
    assert_eq!(parse_u16(" 1"), None);
}

#[test]
fn text_eq_compares_characters() {
    assert!(text_eq("movie", "movie"));
    assert!(text_eq("", ""));
    assert!(!text_eq("movie", "movies"));
    assert!(!text_eq("anime", "Anime"));
}

#[test]
fn top_menu_moves_and_blank_ends() {
    let mut item = foo();
    assert_eq!(edit_step(EditMenu::Top, &mut item, "1"), Some(EditMenu::Work));
    assert_eq!(edit_step(EditMenu::Top, &mut item, "2"), Some(EditMenu::Site));
    assert_eq!(edit_step(EditMenu::Top, &mut item, "3"), Some(EditMenu::Progress));
    assert_eq!(edit_step(EditMenu::Top, &mut item, "4"), Some(EditMenu::Ongoing));
    assert_eq!(edit_step(EditMenu::Top, &mut item, "5"), Some(EditMenu::Updated));
    assert_eq!(edit_step(EditMenu::Top, &mut item, "x"), Some(EditMenu::Top));
    assert_eq!(edit_step(EditMenu::Top, &mut item, ""), None);
    assert_eq!(item, foo());
}

#[test]
fn edit_title_and_year() {
    let mut item = foo();
    let end = run_edit(&mut item, &["1", "1", "Foo Again", "2", "nope", "1999", "", ""]);
    assert_eq!(end, None);
    assert_eq!(item.work.title, "Foo Again");
    assert_eq!(item.work.year, 1999);
    assert_eq!(item.watch_data, foo().watch_data);
}

#[test]
fn blank_title_keeps_title() {
    let mut item = foo();
    assert_eq!(edit_step(EditMenu::Title, &mut item, ""), Some(EditMenu::Work));
    assert_eq!(item, foo());
}

#[test]
fn medium_change_resets_progress() {
    let mut item = foo();
    assert_eq!(edit_step(EditMenu::Medium, &mut item, "film"), Some(EditMenu::Medium));
    assert_eq!(item, foo());
    assert_eq!(edit_step(EditMenu::Medium, &mut item, "movie"), Some(EditMenu::Work));
    assert_eq!(item.work.medium, VideoWorkMedium::Movie);
    assert_eq!(item.watch_data, WatchData { status: WatchStatus::Virgin, position: None });
    assert!(!item.ongoing);
    assert_eq!(item.work.title, "Foo");
}

#[test]
fn site_links_set_and_clear() {
    let mut item = foo();
    run_edit(&mut item, &["2", "1", "true", "https://tracker.example/foo", "2", "true", "https://watch.example/foo"]);
    assert_eq!(item.site_data.tracker.as_deref(), Some("https://tracker.example/foo"));
    assert_eq!(item.site_data.watch.as_deref(), Some("https://watch.example/foo"));
    assert_eq!(edit_step(EditMenu::TrackerChoice, &mut item, "false"), Some(EditMenu::Site));
    assert_eq!(item.site_data.tracker, None);
    assert_eq!(edit_step(EditMenu::WatchLinkChoice, &mut item, ""), Some(EditMenu::Site));
    assert!(item.site_data.watch.is_some());
}

#[test]
fn status_virgin_clears_position() {
    let mut item = foo();
    assert_eq!(edit_step(EditMenu::Status, &mut item, "virgin"), Some(EditMenu::Progress));
    assert_eq!(item.watch_data, WatchData { status: WatchStatus::Virgin, position: None });
}

#[test]
fn status_partial_asks_position() {
    let mut item = bar();
    let end = run_edit(&mut item, &["3", "1", "partial", "2", "false", ""]);
    assert_eq!(end, Some(EditMenu::Top));
    assert_eq!(
        item.watch_data,
        WatchData { status: WatchStatus::Partial, position: Some(WatchPosition { season: 2, episode: None }) }
    );
}

#[test]
fn blank_season_cancels() {
    let mut item = foo();
    assert_eq!(edit_step(EditMenu::Season, &mut item, ""), Some(EditMenu::Progress));
    assert_eq!(edit_step(EditMenu::Episode { season: 4 }, &mut item, ""), Some(EditMenu::Progress));
    assert_eq!(edit_step(EditMenu::Episode { season: 4 }, &mut item, "x"), Some(EditMenu::Episode { season: 4 }));
    assert_eq!(item, foo());
}

#[test]
fn ongoing_toggles() {
    let mut item = foo();
    assert_eq!(edit_step(EditMenu::Ongoing, &mut item, "maybe"), Some(EditMenu::Ongoing));
    assert_eq!(edit_step(EditMenu::Ongoing, &mut item, "false"), Some(EditMenu::Top));
    assert!(!item.ongoing);
}

#[test]
fn updated_date_is_read() {
    let mut item = foo();
    assert_eq!(edit_step(EditMenu::Updated, &mut item, "2024-02-29"), Some(EditMenu::Top));
    assert_eq!(item.updated, day(2024, 2, 29));
}

#[test]
fn updated_rejects_non_dates() {
    let mut item = foo();
    assert_eq!(edit_step(EditMenu::Updated, &mut item, "2023-02-29"), Some(EditMenu::Updated));
    assert_eq!(edit_step(EditMenu::Updated, &mut item, "yesterday"), Some(EditMenu::Updated));
    assert_eq!(edit_step(EditMenu::Updated, &mut item, ""), Some(EditMenu::Top));
    assert_eq!(item, foo());
}

#[test]
fn dated_step_takes_given_date() {
    let mut item = foo();
    let next = edit_step_dated(EditMenu::Updated, &mut item, "anything", Some(day(2020, 1, 2)));
    assert_eq!(next, Some(EditMenu::Top));
    assert_eq!(item.updated, day(2020, 1, 2));
    assert_eq!(edit_step_dated(EditMenu::Updated, &mut item, "x", None), Some(EditMenu::Updated));
}

#[test]
fn create_movie() {
    let mut item = blank_on(day(2024, 3, 1));
    let end = run_create(&mut item, &["", "Heat", "year", "1995", "film", "movie", "yes", "true"]);
    assert_eq!(end, CreateStage::Done);
    assert_eq!(item, VideoMedia {
        work: VideoWork { title: "Heat".to_string(), year: 1995, medium: VideoWorkMedium::Movie },
        site_data: SiteData { tracker: None, watch: None },
        watch_data: WatchData { status: WatchStatus::Exhausted, position: None },
        ongoing: false,
        updated: day(2024, 3, 1),
    });
}

#[test]
fn create_anime_with_episode() {
    let mut item = blank_on(day(2024, 3, 1));
    let end = run_create(&mut item, &["Frieren", "2023", "anime", "partial", "1", "true", "12", "true"]);
    assert_eq!(end, CreateStage::Done);
    assert_eq!(item.work.medium, VideoWorkMedium::Anime);
    assert_eq!(
        item.watch_data,
        WatchData { status: WatchStatus::Partial, position: Some(WatchPosition { season: 1, episode: Some(12) }) }
    );
    assert!(item.ongoing);
}

#[test]
fn create_tvshow_not_started() {
    let mut item = blank_on(day(2024, 3, 1));
    let end = run_create(&mut item, &["Severance", "2022", "tvshow", "virgin", "false"]);
    assert_eq!(end, CreateStage::Done);
    assert_eq!(item.watch_data, WatchData { status: WatchStatus::Virgin, position: None });
    assert!(!item.ongoing);
}

#[test]
fn blank_record_is_dated_today() {
    let item = blank();
    assert!((1..=12).contains(&item.updated.month));
    assert!((1..=31).contains(&item.updated.day));
    assert!(item.updated.year >= 2020);
    assert_eq!(item.work.title, "");
}

#[test]
fn split_skips_blank_lines() {
    let lines = split_records(b"one\n\ntwo\nthree");
    assert_eq!(lines, vec![b"one".to_vec(), b"two".to_vec(), b"three".to_vec()]);
    assert!(split_records(b"").is_empty());
    assert!(split_records(b"\n\n").is_empty());
}

#[test]
fn append_then_read() {
    let mut content = b"(a)\n(b)\n".to_vec();
    content.extend(frame_record(b"(c)"));
    assert_eq!(content, b"(a)\n(b)\n(c)\n".to_vec());
    assert_eq!(split_records(&content), vec![b"(a)".to_vec(), b"(b)".to_vec(), b"(c)".to_vec()]);
}

#[test]
fn join_then_read() {
    let lines = vec![b"x".to_vec(), b"yz".to_vec()];
    let content = join_records(&lines);
    assert_eq!(content, b"x\nyz\n".to_vec());
    assert_eq!(split_records(&content), lines);
    assert!(join_records(&Vec::new()).is_empty());
}

#[test]
fn tolerant_collection() {
    let records = collect_parsed(vec![Some(foo()), None, Some(bar())]);
    assert_eq!(records, vec![foo(), bar()]);
    assert!(collect_parsed(vec![None, None]).is_empty());
}

#[test]
fn select_by_title() {
    let items = vec![foo(), bar(), foo()];
    assert_eq!(select_by_name(items.clone(), "Foo"), vec![foo(), foo()]);
    assert!(select_by_name(items, "Baz").is_empty());
    assert!(has_title(&bar(), "Bar"));
    assert!(!has_title(&bar(), "bar"));
}

#[test]
fn remove_matching_titles() {
    let items = vec![foo(), bar(), foo()];
    assert_eq!(remove_by_name(items, "Foo"), vec![bar()]);
}

#[test]
fn remove_bar_keeps_foo() {
    let items = vec![foo(), bar()];
    assert_eq!(remove_by_name(items, "Bar"), vec![foo()]);
}

#[test]
fn no_match_rewrite_unchanged() {
    let items = vec![foo(), bar()];
    assert_eq!(remove_by_name(items.clone(), "Baz"), items);
    assert_eq!(apply_edits(items.clone(), "Baz", Vec::new()), Some(items));
}

#[test]
fn edit_foo_episode() {
    let mut edited = foo();
    let end = run_edit(&mut edited, &["3", "2", "true", "1", "true", "5", "", ""]);
    assert_eq!(end, None);
    let items = vec![foo(), bar()];
    let result = apply_edits(items, "Foo", vec![edited]).expect("one edit for one match");
    let mut expected = foo();
    expected.watch_data.position = Some(WatchPosition { season: 1, episode: Some(5) });
    assert_eq!(result, vec![expected, bar()]);
}

#[test]
fn edits_must_match_count() {
    let items = vec![foo(), bar(), foo()];
    assert_eq!(apply_edits(items.clone(), "Foo", vec![bar()]), None);
    assert_eq!(apply_edits(items.clone(), "Bar", vec![foo(), foo()]), None);
    let renamed = record("Qux", VideoWorkMedium::Anime, foo().watch_data, false);
    assert_eq!(
        apply_edits(items, "Foo", vec![renamed.clone(), bar()]),
        Some(vec![renamed, bar(), bar()])
    );
}

#[test]
fn swap_runs_in_order() {
    assert_eq!(swap_next(SwapStage::CreateTemp, StepOutcome::Succeeded), SwapStage::WriteTemp);
    assert_eq!(swap_next(SwapStage::WriteTemp, StepOutcome::Succeeded), SwapStage::Replace);
    assert_eq!(swap_next(SwapStage::Replace, StepOutcome::Succeeded), SwapStage::Finished);
    assert!(!swap_pending(SwapStage::Finished));
    assert!(swap_pending(SwapStage::Replace));
}

#[test]
fn swap_stops_on_failure() {
    assert_eq!(swap_next(SwapStage::CreateTemp, StepOutcome::Failed), SwapStage::Abandoned);
    assert_eq!(swap_next(SwapStage::WriteTemp, StepOutcome::Failed), SwapStage::Abandoned);
    assert_eq!(swap_next(SwapStage::Replace, StepOutcome::Failed), SwapStage::Abandoned);
    assert_eq!(swap_next(SwapStage::Abandoned, StepOutcome::Succeeded), SwapStage::Abandoned);
    assert!(!swap_pending(SwapStage::Abandoned));
}
