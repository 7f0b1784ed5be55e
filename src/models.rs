//! The data the channel works on: episodes, shows, playlist items, settings.

use vstd::prelude::*;
use crate::library::ShowLibrary;
use crate::tracker::PlayedTracker;

verus! {

/// How subtitle tracks are treated when a source is encoded.
#[derive(Clone, Copy, Debug, PartialEq, Eq, Structural)]
pub enum SubtitleMode {
    Disabled,
    Smart,
}

impl Default for SubtitleMode {
    fn default() -> (r: Self)
        ensures
            r == SubtitleMode::Disabled,
    {
        SubtitleMode::Disabled
    }
}

} // verus!

verus! {

/// Two strings hold the same characters.
pub fn same_text(a: &str, b: &str) -> (r: bool)
    ensures
        r == (a@ == b@),
{
    a.to_owned() == b.to_owned()
}

/// One episode of a show, as the library scan found it.
#[derive(Clone, Debug)]
pub struct Episode {
    /// Position of the episode within its show after sorting.
    pub id: usize,
    pub name: String,
    pub file_path: String,
    pub show_name: String,
    pub episode_number: Option<usize>,
}

impl Episode {
    /// A field-by-field copy.
    pub fn duplicate(&self) -> (r: Episode)
        ensures
            r == *self,
    {
        Episode {
            id: self.id,
            name: self.name.clone(),
            file_path: self.file_path.clone(),
            show_name: self.show_name.clone(),
            episode_number: self.episode_number,
        }
    }
}

/// One entry of the playlist: a show, an optional half-open range of
/// episode ids, and whether its episodes replay on every pass.
#[derive(Clone, Debug)]
pub struct PlaylistItem {
    pub show_name: String,
    pub episode_range: Option<(usize, usize)>,
    /// Zero plays each episode once; any other value replays every pass.
    pub repeat_count: usize,
}

impl PlaylistItem {
    /// Whether the item follows the play-once policy.
    pub open spec fn plays_once(&self) -> bool {
        self.repeat_count == 0
    }

    /// A field-by-field copy.
    pub fn duplicate(&self) -> (r: PlaylistItem)
        ensures
            r == *self,
    {
        PlaylistItem {
            show_name: self.show_name.clone(),
            episode_range: self.episode_range,
            repeat_count: self.repeat_count,
        }
    }
}

/// A copy of a list of episodes.
pub fn duplicate_episodes(v: &Vec<Episode>) -> (r: Vec<Episode>)
    ensures
        r@ == v@,
{
    let mut r: Vec<Episode> = Vec::new();
    let mut i: usize = 0;
    while i < v.len()
        invariant
            i <= v.len(),
            r@ == v@.subrange(0, i as int),
        decreases v.len() - i,
    {
        r.push(v[i].duplicate());
        i = i + 1;
    }
    assert(r@ =~= v@);
    r
}

/// A copy of a playlist.
pub fn duplicate_playlist(v: &Vec<PlaylistItem>) -> (r: Vec<PlaylistItem>)
    ensures
        r@ == v@,
{
    let mut r: Vec<PlaylistItem> = Vec::new();
    let mut i: usize = 0;
    while i < v.len()
        invariant
            i <= v.len(),
            r@ == v@.subrange(0, i as int),
        decreases v.len() - i,
    {
        r.push(v[i].duplicate());
        i = i + 1;
    }
    assert(r@ =~= v@);
    r
}

/// A copy of a list of strings.
pub fn duplicate_strings(v: &Vec<String>) -> (r: Vec<String>)
    ensures
        r@ == v@,
{
    let mut r: Vec<String> = Vec::new();
    let mut i: usize = 0;
    while i < v.len()
        invariant
            i <= v.len(),
            r@ == v@.subrange(0, i as int),
        decreases v.len() - i,
    {
        r.push(v[i].clone());
        i = i + 1;
    }
    assert(r@ =~= v@);
    r
}

/// Everything that is saved between runs.
#[derive(Clone, Debug)]
pub struct AppConfig {
    pub videos_folder: Option<String>,
    pub shows: ShowLibrary,
    pub playlist: Vec<PlaylistItem>,
    pub played_episodes: PlayedTracker,
    pub subtitle_mode: SubtitleMode,
}

impl Default for AppConfig {
    fn default() -> (r: Self)
        ensures
            r.videos_folder is None,
            r.shows.wf(),
            r.shows@ == Seq::<crate::library::Show>::empty(),
            r.playlist@ == Seq::<PlaylistItem>::empty(),
            r.played_episodes.wf(),
            r.played_episodes@ == Map::<Seq<char>, Seq<usize>>::empty(),
            r.subtitle_mode == SubtitleMode::Disabled,
    {
        AppConfig {
            videos_folder: None,
            shows: ShowLibrary::new(),
            playlist: Vec::new(),
            played_episodes: PlayedTracker::new(),
            subtitle_mode: SubtitleMode::default(),
        }
    }
}

} // verus!
