use rurushi::library::{Show, ShowLibrary};
use rurushi::models::{Episode, PlaylistItem};
use rurushi::selector::{select_bounds, select_episodes, Pass, PassStep, ValidationError};
use rurushi::tracker::PlayedTracker;

fn episode(show: &str, id: usize) -> Episode {
    Episode {
        id,
        name: format!("ep{}", id),
        file_path: format!("/videos/{}/ep{}.mkv", show, id),
        show_name: show.to_string(),
        episode_number: Some(id),
    }
}

fn library(show: &str, count: usize) -> ShowLibrary {
    let episodes = (0..count).map(|i| episode(show, i)).collect();
    ShowLibrary::from_shows(vec![Show { name: show.to_string(), episodes }]).unwrap()
}

fn item(show: &str, range: Option<(usize, usize)>, repeat_count: usize) -> PlaylistItem {
    PlaylistItem { show_name: show.to_string(), episode_range: range, repeat_count }
}

fn encoded_ids(steps: &[PassStep]) -> Vec<usize> {
    steps
        .iter()
        .filter_map(|s| match s {
            PassStep::Encode { episode, .. } => Some(episode.id),
            _ => None,
        })
        .collect()
}

fn run_pass(pass: &mut Pass, tracker: &mut PlayedTracker) -> Vec<PassStep> {
    let mut steps = Vec::new();
    loop {
        let step = pass.next_step(tracker);
        let end = matches!(step, PassStep::Done | PassStep::Idle);
        steps.push(step);
        if end {
            return steps;
        }
    }
}

#[test]
fn range_selects_episodes_one_and_two() {
    let lib = library("A", 4);
    let selected = select_episodes(&lib, &item("A", Some((1, 3)), 0)).unwrap();
    let ids: Vec<usize> = selected.iter().map(|e| e.id).collect();
    assert_eq!(ids, vec![1, 2]);
}

#[test]
fn range_past_the_end_selects_nothing() {
    let lib = library("A", 4);
    let selected = select_episodes(&lib, &item("A", Some((5, 10)), 0)).unwrap();
    assert!(selected.is_empty());
    assert_eq!(select_bounds(Some((5, 10)), 4), Ok((4, 4)));
}

#[test]
fn no_range_selects_whole_show() {
    let lib = library("A", 3);
    let selected = select_episodes(&lib, &item("A", None, 0)).unwrap();
    assert_eq!(selected.len(), 3);
}

#[test]
fn reversed_range_is_degenerate() {
    let lib = library("A", 4);
    assert!(matches!(select_episodes(&lib, &item("A", Some((3, 1)), 0)), Err(ValidationError::DegenerateRange)));
}

#[test]
fn unknown_show_is_reported() {
    let lib = library("A", 4);
    assert!(matches!(select_episodes(&lib, &item("B", None, 0)), Err(ValidationError::UnknownShow)));
}

#[test]
fn pass_over_clipped_range_is_idle() {
    let mut tracker = PlayedTracker::new();
    let mut pass = Pass::begin(library("A", 4), vec![item("A", Some((5, 10)), 0)], vec![]);
    let steps = run_pass(&mut pass, &mut tracker);
    assert!(matches!(steps[0], PassStep::EmptySelection { .. }));
    assert!(matches!(steps[1], PassStep::Idle));
}

#[test]
fn demo_show_plays_once_then_idles() {
    let mut tracker = PlayedTracker::new();
    let playlist = vec![item("Demo", None, 0)];
    let mut first = Pass::begin(library("Demo", 2), playlist.clone(), vec![]);
    let steps = run_pass(&mut first, &mut tracker);
    assert_eq!(encoded_ids(&steps), vec![0, 1]);
    assert!(matches!(steps.last(), Some(PassStep::Done)));
    assert!(tracker.should_skip("Demo", 0));
    assert!(tracker.should_skip("Demo", 1));

    let mut second = Pass::begin(library("Demo", 2), playlist.clone(), vec![]);
    let steps = run_pass(&mut second, &mut tracker);
    assert!(encoded_ids(&steps).is_empty());
    assert!(matches!(steps[0], PassStep::Skip { episode_id: 0, .. }));
    assert!(matches!(steps[1], PassStep::Skip { episode_id: 1, .. }));
    assert!(matches!(steps[2], PassStep::Idle));

    tracker.reset();
    let mut third = Pass::begin(library("Demo", 2), playlist, vec![]);
    assert_eq!(encoded_ids(&run_pass(&mut third, &mut tracker)), vec![0, 1]);
}

#[test]
fn repeating_item_plays_every_pass() {
    let mut tracker = PlayedTracker::new();
    for _ in 0..3 {
        let mut pass = Pass::begin(library("A", 2), vec![item("A", None, 1)], vec![]);
        assert_eq!(encoded_ids(&run_pass(&mut pass, &mut tracker)), vec![0, 1]);
    }
    assert!(!tracker.should_skip("A", 0));
}

#[test]
fn played_episode_is_skipped_on_next_pass() {
    let mut tracker = PlayedTracker::new();
    tracker.mark_played("A", 1);
    let mut pass = Pass::begin(library("A", 3), vec![item("A", None, 0)], vec![]);
    assert_eq!(encoded_ids(&run_pass(&mut pass, &mut tracker)), vec![0, 2]);
}

#[test]
fn missing_show_is_passed_over() {
    let mut tracker = PlayedTracker::new();
    let mut pass = Pass::begin(library("A", 1), vec![item("Gone", None, 0), item("A", None, 0)], vec![]);
    let steps = run_pass(&mut pass, &mut tracker);
    assert!(matches!(steps[0], PassStep::MissingShow { .. }));
    assert_eq!(encoded_ids(&steps), vec![0]);
}

#[test]
fn items_play_in_stored_order() {
    let lib = ShowLibrary::from_shows(vec![
        Show { name: "A".to_string(), episodes: vec![episode("A", 0)] },
        Show { name: "B".to_string(), episodes: vec![episode("B", 0)] },
    ])
    .unwrap();
    let mut tracker = PlayedTracker::new();
    let mut pass = Pass::begin(lib, vec![item("B", None, 1), item("A", None, 1)], vec![]);
    let shows: Vec<String> = run_pass(&mut pass, &mut tracker)
        .into_iter()
        .filter_map(|s| match s {
            PassStep::Encode { show_name, .. } => Some(show_name),
            _ => None,
        })
        .collect();
    assert_eq!(shows, vec!["B".to_string(), "A".to_string()]);
}

#[test]
fn fallback_plays_files_in_order() {
    let mut tracker = PlayedTracker::new();
    let files = vec!["/v/one.mkv".to_string(), "/v/two.mkv".to_string()];
    let mut pass = Pass::begin(ShowLibrary::new(), vec![], files);
    let steps = run_pass(&mut pass, &mut tracker);
    let paths: Vec<String> = steps
        .iter()
        .filter_map(|s| match s {
            PassStep::EncodeFile { path } => Some(path.clone()),
            _ => None,
        })
        .collect();
    assert_eq!(paths, vec!["/v/one.mkv".to_string(), "/v/two.mkv".to_string()]);
    assert!(matches!(steps.last(), Some(PassStep::Done)));
}

#[test]
fn nothing_to_play_is_idle() {
    let mut tracker = PlayedTracker::new();
    let mut pass = Pass::begin(ShowLibrary::new(), vec![], vec![]);
    assert!(matches!(pass.next_step(&mut tracker), PassStep::Idle));
    assert!(matches!(pass.next_step(&mut tracker), PassStep::Done));
}

#[test]
fn tracker_claims_once() {
    let mut tracker = PlayedTracker::new();
    let once = item("A", None, 0);
    assert!(tracker.claim(&once, 4));
    assert!(!tracker.claim(&once, 4));
    assert!(tracker.claim(&item("A", None, 2), 4));
    assert_eq!(tracker.entries.len(), 1);
    assert_eq!(tracker.entries[0].ids, vec![4]);
}

#[test]
fn duplicate_show_names_are_refused() {
    let shows = vec![
        Show { name: "A".to_string(), episodes: vec![] },
        Show { name: "A".to_string(), episodes: vec![] },
    ];
    assert!(ShowLibrary::from_shows(shows).is_none());
}

#[test]
fn loop_waits_follow_the_step() {
    let missing = PassStep::MissingShow { show_name: "A".to_string() };
    assert_eq!(missing.pause_after(false), 5000);
    assert_eq!(PassStep::Idle.pause_after(false), 5000);
    let file = PassStep::EncodeFile { path: "/v/a.mkv".to_string() };
    assert_eq!(file.pause_after(true), 1000);
    assert_eq!(file.pause_after(false), 0);
    assert!(PassStep::Done.ends_pass());
    assert!(PassStep::Idle.ends_pass());
    assert!(!file.ends_pass());
}
