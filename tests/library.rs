use rurushi::api::{AddToPlaylistRequest, ApiError, ApiResponse, MovePlaylistItemRequest};
use rurushi::library::{Show, ShowLibrary};
use rurushi::models::{AppConfig, Episode, PlaylistItem, SubtitleMode};
use rurushi::station::Station;
use rurushi::video::{
    extract_episode_number, filter_video_files, is_video_file, organize_shows_and_episodes, parse_episode_info,
    parse_usize, sort_episodes,
};

fn ep(show: &str, name: &str, number: Option<usize>) -> Episode {
    Episode {
        id: 0,
        name: name.to_string(),
        file_path: format!("/v/{}/{}.mkv", show, name),
        show_name: show.to_string(),
        episode_number: number,
    }
}

fn station_with(shows: &[(&str, usize)]) -> Station {
    let list = shows
        .iter()
        .map(|(name, n)| Show {
            name: name.to_string(),
            episodes: (0..*n).map(|i| ep(name, &format!("e{}", i), Some(i))).collect(),
        })
        .collect();
    let mut config = AppConfig::default();
    config.shows = ShowLibrary::from_shows(list).unwrap();
    Station::from_config(config)
}

fn item(show: &str) -> PlaylistItem {
    PlaylistItem { show_name: show.to_string(), episode_range: None, repeat_count: 0 }
}

fn names(st: &Station) -> Vec<String> {
    st.playlist.iter().map(|i| i.show_name.clone()).collect()
}

#[test]
fn episode_number_after_dash() {
    assert_eq!(extract_episode_number("My Show - 03"), Some(3));
}

#[test]
fn episode_number_after_word() {
    assert_eq!(extract_episode_number("My Show Episode 5"), Some(5));
    assert_eq!(extract_episode_number("My Show EP 12 extra"), Some(12));
}

#[test]
fn episode_number_at_end() {
    assert_eq!(extract_episode_number("My Show 07"), Some(7));
    assert_eq!(extract_episode_number("Pilot"), None);
}

#[test]
fn oversized_number_is_none() {
    assert_eq!(extract_episode_number("Show - 99999999999999999999999 1"), None);
}

#[test]
fn decimal_parsing_follows_from_str() {
    assert_eq!(parse_usize("+7"), Some(7));
    assert_eq!(parse_usize("042"), Some(42));
    assert_eq!(parse_usize(""), None);
    assert_eq!(parse_usize("+"), None);
    assert_eq!(parse_usize("4a"), None);
    assert_eq!(parse_usize(&usize::MAX.to_string()), Some(usize::MAX));
    assert_eq!(parse_usize("99999999999999999999999"), None);
}

#[test]
fn episode_info_from_path() {
    let e = parse_episode_info("/videos/My Show/My Show - 03.mkv");
    assert_eq!(e.name, "My Show - 03");
    assert_eq!(e.show_name, "My Show");
    assert_eq!(e.file_path, "/videos/My Show/My Show - 03.mkv");
    assert_eq!(e.episode_number, Some(3));
    assert_eq!(e.id, 0);
}

#[test]
fn video_extensions_in_any_case() {
    assert!(is_video_file("/a/b.MKV"));
    assert!(is_video_file("/a/b.m4v"));
    assert!(!is_video_file("/a/b.txt"));
    assert!(!is_video_file("/a/noext"));
    let paths = vec!["/a/x.mp4".to_string(), "/a/y.srt".to_string(), "/a/z.WebM".to_string()];
    assert_eq!(filter_video_files(&paths), vec!["/a/x.mp4".to_string(), "/a/z.WebM".to_string()]);
}

#[test]
fn episodes_sort_by_number_then_name() {
    let v = vec![ep("A", "zeta", None), ep("A", "two", Some(2)), ep("A", "alpha", None), ep("A", "one", Some(1))];
    let sorted: Vec<String> = sort_episodes(&v).into_iter().map(|e| e.name).collect();
    assert_eq!(sorted, vec!["one", "two", "alpha", "zeta"]);
}

#[test]
fn equal_numbers_keep_their_order() {
    let v = vec![ep("A", "b", Some(1)), ep("A", "a", Some(1))];
    let sorted: Vec<String> = sort_episodes(&v).into_iter().map(|e| e.name).collect();
    assert_eq!(sorted, vec!["b", "a"]);
}

#[test]
fn organize_groups_and_numbers() {
    let files = vec![
        "/v/A/A - 02.mkv".to_string(),
        "/v/B/intro.mp4".to_string(),
        "/v/A/A - 01.mkv".to_string(),
        "/v/A/Extra.mkv".to_string(),
    ];
    let lib = organize_shows_and_episodes(&files);
    assert_eq!(lib.shows.len(), 2);
    let a = lib.shows.iter().find(|s| s.name == "A").unwrap();
    let got: Vec<(usize, String)> = a.episodes.iter().map(|e| (e.id, e.name.clone())).collect();
    assert_eq!(
        got,
        vec![(0, "A - 01".to_string()), (1, "A - 02".to_string()), (2, "Extra".to_string())]
    );
    let b = lib.shows.iter().find(|s| s.name == "B").unwrap();
    assert_eq!(b.episodes.len(), 1);
}

#[test]
fn add_requires_known_show() {
    let mut st = station_with(&[("A", 2)]);
    let req = AddToPlaylistRequest { show_name: "Z".to_string(), episode_range: None, repeat_count: None };
    assert_eq!(st.add_to_playlist(req), Err(ApiError::ShowNotFound));
    let req = AddToPlaylistRequest { show_name: "A".to_string(), episode_range: Some((0, 1)), repeat_count: None };
    assert_eq!(st.add_to_playlist(req), Ok(()));
    assert_eq!(st.playlist.len(), 1);
    assert_eq!(st.playlist[0].repeat_count, 0);
    assert_eq!(st.playlist[0].episode_range, Some((0, 1)));
}

#[test]
fn remove_checks_index() {
    let mut st = station_with(&[("A", 1)]);
    st.playlist = vec![item("A"), item("B")];
    assert_eq!(st.remove_from_playlist(2), Err(ApiError::InvalidIndex));
    assert_eq!(st.remove_from_playlist(0), Ok(()));
    assert_eq!(names(&st), vec!["B"]);
}

#[test]
fn move_swaps_neighbours() {
    let mut st = station_with(&[("A", 1)]);
    st.playlist = vec![item("X"), item("Y"), item("Z")];
    let up = MovePlaylistItemRequest { index: 2, direction: "up".to_string() };
    assert_eq!(st.move_playlist_item(&up), Ok(()));
    assert_eq!(names(&st), vec!["X", "Z", "Y"]);
    let down = MovePlaylistItemRequest { index: 0, direction: "down".to_string() };
    assert_eq!(st.move_playlist_item(&down), Ok(()));
    assert_eq!(names(&st), vec!["Z", "X", "Y"]);
}

#[test]
fn move_refuses_bad_requests() {
    let mut st = station_with(&[("A", 1)]);
    st.playlist = vec![item("X"), item("Y")];
    let r = |index: usize, d: &str| MovePlaylistItemRequest { index, direction: d.to_string() };
    assert_eq!(st.move_playlist_item(&r(2, "up")), Err(ApiError::InvalidIndex));
    assert_eq!(st.move_playlist_item(&r(0, "up")), Err(ApiError::CannotMoveUp));
    assert_eq!(st.move_playlist_item(&r(1, "down")), Err(ApiError::CannotMoveDown));
    assert_eq!(st.move_playlist_item(&r(0, "left")), Err(ApiError::InvalidDirection));
    assert_eq!(names(&st), vec!["X", "Y"]);
}

#[test]
fn clearing_the_playlist_resets_the_tracker() {
    let mut st = station_with(&[("A", 1)]);
    st.playlist = vec![item("A")];
    st.played.mark_played("A", 0);
    st.clear_playlist();
    assert!(st.playlist.is_empty());
    assert!(!st.played.should_skip("A", 0));
}

#[test]
fn streaming_needs_videos() {
    assert_eq!(station_with(&[]).check_can_stream(), Err(ApiError::NoVideos));
    assert_eq!(station_with(&[("A", 1)]).check_can_stream(), Ok(()));
    assert_eq!(station_with(&[]).scan_folder(), Err(ApiError::NoFolder));
}

#[test]
fn show_names_are_sorted() {
    let st = station_with(&[("b", 1), ("C", 1), ("a", 2)]);
    assert_eq!(st.show_list().shows, vec!["C", "a", "b"]);
}

#[test]
fn file_list_names_show_and_episode() {
    let st = station_with(&[("A", 2)]);
    let files = st.file_list().files;
    assert_eq!(files.len(), 2);
    assert_eq!(files[1].display_name, "A - e1");
    assert_eq!(files[1].file_path, "/v/A/e1.mkv");
    assert_eq!(files[1].show_name, "A");
}

#[test]
fn config_response_counts() {
    let mut st = station_with(&[("A", 2), ("B", 3)]);
    st.set_subtitle_mode(SubtitleMode::Smart);
    let r = st.config_response();
    assert_eq!(r.video_count, 5);
    assert_eq!(r.show_count, 2);
    assert_eq!(r.subtitle_mode, SubtitleMode::Smart);
    assert!(!r.is_streaming);
}

#[test]
fn loading_config_lists_files_and_forgets_plays() {
    let mut config = AppConfig::default();
    config.shows = ShowLibrary::from_shows(vec![Show { name: "A".to_string(), episodes: vec![ep("A", "x", None)] }])
        .unwrap();
    config.played_episodes.mark_played("A", 0);
    let st = Station::from_config(config);
    assert_eq!(st.tv_files, vec!["/v/A/x.mkv".to_string()]);
    assert!(!st.played.should_skip("A", 0));
    let saved = st.to_config();
    assert_eq!(saved.shows.shows.len(), 1);
}

#[test]
fn scan_replaces_library() {
    let mut st = station_with(&[("A", 1)]);
    let lib = organize_shows_and_episodes(&vec!["/v/B/B - 1.mkv".to_string(), "/v/B/B - 2.mkv".to_string()]);
    let r = st.apply_scan(lib);
    assert_eq!(r.video_count, 2);
    assert_eq!(r.show_count, 1);
    assert_eq!(st.tv_files, vec!["/v/B/B - 1.mkv".to_string(), "/v/B/B - 2.mkv".to_string()]);
}

#[test]
fn api_envelopes() {
    let ok = ApiResponse::success(3);
    assert!(ok.success && ok.data == Some(3) && ok.error.is_none());
    let err = ApiResponse::<()>::error(ApiError::ShowNotFound.message());
    assert!(!err.success && err.data.is_none());
    assert_eq!(err.error, Some("Show not found".to_string()));
    assert_eq!(ApiError::InvalidDirection.message(), "Invalid direction. Use 'up' or 'down'");
}

#[test]
fn subtitle_mode_defaults_to_disabled() {
    assert_eq!(SubtitleMode::default(), SubtitleMode::Disabled);
}
