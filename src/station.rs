//! The station: the shared state of the channel (library, playlist, file
//! list, tracker, settings) and the operations requests perform on it.

use vstd::prelude::*;
use vstd::string::StringExecFns;
use crate::api::{
    AddToPlaylistRequest, ApiError, ConfigResponse, FileInfo, FileListResponse, MovePlaylistItemRequest,
    ScanResponse, ShowListResponse,
};
use crate::library::{all_paths, episode_total, episodes_named, has_show, names_of, Show, ShowLibrary};
use crate::models::{duplicate_playlist, duplicate_strings, same_text, AppConfig, PlaylistItem, SubtitleMode};
use crate::order::{sort_names, strictly_sorted, views_of};
use crate::selector::Pass;
use crate::tracker::PlayedTracker;

verus! {

/// `s` with the items at `i` and `j` exchanged.
pub open spec fn swapped<A>(s: Seq<A>, i: int, j: int) -> Seq<A> {
    s.update(i, s[j]).update(j, s[i])
}

/// The playlist after moving the item at `index` one place in `direction`,
/// or the error that refuses the move.
pub open spec fn moved(pl: Seq<PlaylistItem>, index: usize, direction: Seq<char>) -> Result<
    Seq<PlaylistItem>,
    ApiError,
> {
    if index >= pl.len() {
        Err(ApiError::InvalidIndex)
    } else if direction == "up"@ {
        if index == 0 {
            Err(ApiError::CannotMoveUp)
        } else {
            Ok(swapped(pl, index - 1, index as int))
        }
    } else if direction == "down"@ {
        if index >= pl.len() - 1 {
            Err(ApiError::CannotMoveDown)
        } else {
            Ok(swapped(pl, index as int, index + 1))
        }
    } else {
        Err(ApiError::InvalidDirection)
    }
}

/// The item that an add request puts at the end of the playlist.
pub open spec fn requested_item(req: AddToPlaylistRequest) -> PlaylistItem {
    PlaylistItem {
        show_name: req.show_name,
        episode_range: req.episode_range,
        repeat_count: match req.repeat_count {
            Some(n) => n,
            None => 0,
        },
    }
}

/// How an episode file is listed: "show - episode".
pub open spec fn display_name(show: Seq<char>, episode: Seq<char>) -> Seq<char> {
    show + " - "@ + episode
}

/// The listing of every episode file: display name, path and show name.
pub open spec fn file_rows(shows: Seq<Show>) -> Seq<(Seq<char>, Seq<char>, Seq<char>)>
    decreases shows.len(),
{
    if shows.len() == 0 {
        Seq::empty()
    } else {
        file_rows(shows.drop_last()) + shows.last().episodes@.map_values(
            |e: crate::models::Episode|
                (display_name(shows.last().name@, e.name@), e.file_path@, shows.last().name@),
        )
    }
}

pub open spec fn rows_of(v: Seq<FileInfo>) -> Seq<(Seq<char>, Seq<char>, Seq<char>)> {
    v.map_values(|f: FileInfo| (f.display_name@, f.file_path@, f.show_name@))
}

/// The number of episodes, saturating at `usize::MAX`.
pub open spec fn saturated_total(shows: Seq<Show>) -> nat {
    if episode_total(shows) <= usize::MAX {
        episode_total(shows)
    } else {
        usize::MAX as nat
    }
}

/// The shared state of the channel.
#[derive(Clone, Debug)]
pub struct Station {
    pub videos_folder: Option<String>,
    pub library: ShowLibrary,
    pub playlist: Vec<PlaylistItem>,
    /// The discovered files, played in order when the playlist is empty.
    pub tv_files: Vec<String>,
    pub played: PlayedTracker,
    pub subtitle_mode: SubtitleMode,
    pub current_playing: Option<String>,
    pub is_playing: bool,
}

fn copy_text(s: &Option<String>) -> (r: Option<String>)
    ensures
        r == *s,
{
    match s {
        Some(t) => Some(t.clone()),
        None => None,
    }
}

impl Station {
    pub open spec fn wf(&self) -> bool {
        self.library.wf() && self.played.wf()
    }

    /// The station a saved configuration describes. Loading starts a new
    /// epoch: nothing counts as played, and the file list is the library's.
    pub fn from_config(config: AppConfig) -> (r: Station)
        requires
            config.shows.wf(),
        ensures
            r.wf(),
            r.videos_folder == config.videos_folder,
            r.library == config.shows,
            r.playlist == config.playlist,
            r.tv_files@.map_values(|s: String| s@) == all_paths(config.shows@),
            r.played@ == Map::<Seq<char>, Seq<usize>>::empty(),
            r.subtitle_mode == config.subtitle_mode,
            r.current_playing is None,
            !r.is_playing,
    {
        let tv_files = config.shows.all_file_paths();
        Station {
            videos_folder: config.videos_folder,
            library: config.shows,
            playlist: config.playlist,
            tv_files,
            played: PlayedTracker::new(),
            subtitle_mode: config.subtitle_mode,
            current_playing: None,
            is_playing: false,
        }
    }

    /// What is saved of the station.
    pub fn to_config(&self) -> (r: AppConfig)
        requires
            self.wf(),
        ensures
            r.videos_folder == self.videos_folder,
            r.shows.wf(),
            r.shows@.len() == self.library@.len(),
            forall|i: int|
                0 <= i < self.library@.len() ==> r.shows@[i].name == #[trigger] self.library@[i].name
                    && r.shows@[i].episodes@ == self.library@[i].episodes@,
            r.playlist@ == self.playlist@,
            r.played_episodes.wf(),
            r.played_episodes@ == self.played@,
            r.subtitle_mode == self.subtitle_mode,
    {
        AppConfig {
            videos_folder: copy_text(&self.videos_folder),
            shows: self.library.duplicate(),
            playlist: duplicate_playlist(&self.playlist),
            played_episodes: self.played.duplicate(),
            subtitle_mode: self.subtitle_mode,
        }
    }

    /// Sets the folder that scans read.
    pub fn set_folder(&mut self, path: String)
        ensures
            final(self).videos_folder == Some(path),
            final(self).library == old(self).library,
            final(self).playlist == old(self).playlist,
            final(self).played == old(self).played,
    {
        self.videos_folder = Some(path);
    }

    /// Sets the subtitle mode that the next pass uses.
    pub fn set_subtitle_mode(&mut self, mode: SubtitleMode)
        ensures
            final(self).subtitle_mode == mode,
            final(self).library == old(self).library,
            final(self).playlist == old(self).playlist,
            final(self).played == old(self).played,
    {
        self.subtitle_mode = mode;
    }

    /// The folder a scan reads, if one is set.
    pub fn scan_folder(&self) -> (r: Result<String, ApiError>)
        ensures
            match self.videos_folder {
                Some(f) => r == Ok::<String, ApiError>(f),
                None => r == Err::<String, ApiError>(ApiError::NoFolder),
            },
    {
        match &self.videos_folder {
            Some(f) => Ok(f.clone()),
            None => Err(ApiError::NoFolder),
        }
    }

    /// Replaces the library with a freshly scanned one; the file list
    /// becomes the library's files.
    pub fn apply_scan(&mut self, library: ShowLibrary) -> (r: ScanResponse)
        requires
            old(self).wf(),
            library.wf(),
        ensures
            final(self).wf(),
            final(self).library == library,
            final(self).tv_files@.map_values(|s: String| s@) == all_paths(library@),
            final(self).playlist == old(self).playlist,
            final(self).played == old(self).played,
            r.video_count == saturated_total(library@),
            r.show_count == library@.len(),
            names_of(r.shows@) == names_of(library@),
            forall|name: Seq<char>| #[trigger] episodes_named(r.shows@, name) == episodes_named(library@, name),
    {
        let shows = library.duplicate();
        let video_count = library.episode_count();
        let show_count = library.shows.len();
        self.tv_files = library.all_file_paths();
        self.library = library;
        ScanResponse { video_count, show_count, shows }
    }

    /// Appends an item for a show of the library; an unset repeat count
    /// means play once.
    pub fn add_to_playlist(&mut self, req: AddToPlaylistRequest) -> (r: Result<(), ApiError>)
        ensures
            has_show(old(self).library@, req.show_name@) ==> r is Ok && final(self).playlist@
                == old(self).playlist@.push(requested_item(req)),
            !has_show(old(self).library@, req.show_name@) ==> r == Err::<(), ApiError>(ApiError::ShowNotFound)
                && final(self).playlist@ == old(self).playlist@,
            final(self).library == old(self).library,
            final(self).played == old(self).played,
    {
        if self.library.find_show(req.show_name.as_str()).is_none() {
            return Err(ApiError::ShowNotFound);
        }
        let repeat_count = match req.repeat_count {
            Some(n) => n,
            None => 0,
        };
        self.playlist.push(
            PlaylistItem { show_name: req.show_name, episode_range: req.episode_range, repeat_count },
        );
        Ok(())
    }

    /// Removes the item at `index`.
    pub fn remove_from_playlist(&mut self, index: usize) -> (r: Result<(), ApiError>)
        ensures
            index < old(self).playlist@.len() ==> r is Ok && final(self).playlist@ == old(self).playlist@.remove(
                index as int,
            ),
            index >= old(self).playlist@.len() ==> r == Err::<(), ApiError>(ApiError::InvalidIndex)
                && final(self).playlist@ == old(self).playlist@,
            final(self).library == old(self).library,
            final(self).played == old(self).played,
    {
        if index >= self.playlist.len() {
            return Err(ApiError::InvalidIndex);
        }
        self.playlist.remove(index);
        Ok(())
    }

    /// Moves the item at `req.index` one place "up" or "down".
    pub fn move_playlist_item(&mut self, req: &MovePlaylistItemRequest) -> (r: Result<(), ApiError>)
        ensures
            match moved(old(self).playlist@, req.index, req.direction@) {
                Ok(pl) => r is Ok && final(self).playlist@ == pl,
                Err(e) => r == Err::<(), ApiError>(e) && final(self).playlist@ == old(self).playlist@,
            },
            final(self).library == old(self).library,
            final(self).played == old(self).played,
    {
        let index = req.index;
        let ghost pl = self.playlist@;
        if index >= self.playlist.len() {
            return Err(ApiError::InvalidIndex);
        }
        if same_text(req.direction.as_str(), "up") {
            if index == 0 {
                return Err(ApiError::CannotMoveUp);
            }
            let item = self.playlist.remove(index);
            self.playlist.insert(index - 1, item);
            assert(self.playlist@ =~= swapped(pl, index - 1, index as int));
            Ok(())
        } else if same_text(req.direction.as_str(), "down") {
            if index >= self.playlist.len() - 1 {
                return Err(ApiError::CannotMoveDown);
            }
            let item = self.playlist.remove(index + 1);
            self.playlist.insert(index, item);
            assert(self.playlist@ =~= swapped(pl, index as int, index + 1));
            Ok(())
        } else {
            Err(ApiError::InvalidDirection)
        }
    }

    /// Empties the playlist. A replaced playlist starts a new epoch, so the
    /// tracker is reset with it.
    pub fn clear_playlist(&mut self)
        ensures
            final(self).played.wf(),
            final(self).playlist@ == Seq::<PlaylistItem>::empty(),
            final(self).played@ == Map::<Seq<char>, Seq<usize>>::empty(),
            final(self).library == old(self).library,
    {
        self.playlist = Vec::new();
        self.played.reset();
    }

    /// Whether the channel has anything to stream.
    pub fn check_can_stream(&self) -> (r: Result<(), ApiError>)
        ensures
            self.library@.len() == 0 ==> r == Err::<(), ApiError>(ApiError::NoVideos),
            self.library@.len() > 0 ==> r is Ok,
    {
        if self.library.shows.len() == 0 {
            Err(ApiError::NoVideos)
        } else {
            Ok(())
        }
    }

    /// Records the file being played by hand.
    pub fn play_file(&mut self, path: String)
        ensures
            final(self).current_playing == Some(path),
            final(self).is_playing,
            final(self).library == old(self).library,
            final(self).playlist == old(self).playlist,
            final(self).played == old(self).played,
    {
        self.current_playing = Some(path);
        self.is_playing = true;
    }

    /// Records that nothing is played by hand.
    pub fn stop_playback(&mut self)
        ensures
            final(self).current_playing is None,
            !final(self).is_playing,
            final(self).library == old(self).library,
            final(self).playlist == old(self).playlist,
            final(self).played == old(self).played,
    {
        self.current_playing = None;
        self.is_playing = false;
    }

    /// The configuration and playback state, with counts.
    pub fn config_response(&self) -> (r: ConfigResponse)
        requires
            self.wf(),
        ensures
            r.videos_folder == self.videos_folder,
            r.video_count == saturated_total(self.library@),
            r.show_count == self.library@.len(),
            names_of(r.shows@) == names_of(self.library@),
            forall|name: Seq<char>| #[trigger] episodes_named(r.shows@, name) == episodes_named(self.library@, name),
            r.playlist@ == self.playlist@,
            r.subtitle_mode == self.subtitle_mode,
            r.is_streaming == self.is_playing,
            r.current_playing == self.current_playing,
    {
        ConfigResponse {
            videos_folder: copy_text(&self.videos_folder),
            video_count: self.library.episode_count(),
            show_count: self.library.shows.len(),
            shows: self.library.duplicate(),
            playlist: duplicate_playlist(&self.playlist),
            subtitle_mode: self.subtitle_mode,
            is_streaming: self.is_playing,
            current_playing: copy_text(&self.current_playing),
        }
    }

    /// Every episode file, listed as "show - episode".
    pub fn file_list(&self) -> (r: FileListResponse)
        ensures
            rows_of(r.files@) == file_rows(self.library@),
    {
        let shows = &self.library.shows;
        let mut files: Vec<FileInfo> = Vec::new();
        let mut i: usize = 0;
        while i < shows.len()
            invariant
                i <= shows@.len(),
                shows@ == self.library@,
                rows_of(files@) == file_rows(shows@.subrange(0, i as int)),
            decreases shows.len() - i,
        {
            let show = &shows[i];
            let ghost base = rows_of(files@);
            let ghost f = |e: crate::models::Episode| (display_name(show.name@, e.name@), e.file_path@, show.name@);
            let mut j: usize = 0;
            while j < show.episodes.len()
                invariant
                    j <= show.episodes@.len(),
                    f == (|e: crate::models::Episode| (display_name(show.name@, e.name@), e.file_path@, show.name@)),
                    rows_of(files@) == base + show.episodes@.subrange(0, j as int).map_values(f),
                decreases show.episodes.len() - j,
            {
                let ep = &show.episodes[j];
                let mut d = show.name.clone();
                d.append(" - ");
                d.append(ep.name.as_str());
                let ghost prev = files@;
                files.push(FileInfo { display_name: d, file_path: ep.file_path.clone(), show_name: show.name.clone() });
                proof {
                    assert(rows_of(files@) =~= rows_of(prev).push(f(show.episodes@[j as int])));
                    assert(show.episodes@.subrange(0, j + 1).map_values(f) =~= show.episodes@.subrange(
                        0,
                        j as int,
                    ).map_values(f).push(f(show.episodes@[j as int])));
                }
                j = j + 1;
            }
            proof {
                assert(shows@.subrange(0, i + 1).drop_last() =~= shows@.subrange(0, i as int));
                assert(show.episodes@.subrange(0, j as int) =~= show.episodes@);
            }
            i = i + 1;
        }
        assert(shows@.subrange(0, shows@.len() as int) =~= shows@);
        FileListResponse { files }
    }

    /// The show names in string order.
    pub fn show_list(&self) -> (r: ShowListResponse)
        requires
            self.wf(),
        ensures
            strictly_sorted(views_of(r.shows@)),
            views_of(r.shows@).to_multiset() == names_of(self.library@).to_multiset(),
    {
        let names = self.library.show_names();
        proof {
            assert(names@.map_values(|s: String| s@).len() == names_of(self.library@).len());
            assert forall|i: int, j: int| 0 <= i < j < names@.len() implies names@[i]@ != names@[j]@ by {
                assert(names@.map_values(|s: String| s@)[i] == names_of(self.library@)[i]);
                assert(names@.map_values(|s: String| s@)[j] == names_of(self.library@)[j]);
                assert(names_of(self.library@)[i] == self.library@[i].name@);
                assert(names_of(self.library@)[j] == self.library@[j].name@);
            }
        }
        let shows = sort_names(&names);
        ShowListResponse { shows }
    }

    /// A pass over a snapshot of the library, playlist and file list.
    pub fn begin_pass(&self) -> (r: Pass)
        requires
            self.wf(),
        ensures
            r.wf(),
            names_of(r.library@) == names_of(self.library@),
            forall|name: Seq<char>|
                #[trigger] episodes_named(r.library@, name) == episodes_named(self.library@, name),
            r.playlist@ == self.playlist@,
            r.files@ == self.tv_files@,
            r.item == 0,
            !r.entered,
            !r.worked,
            !r.finished,
    {
        Pass::begin(self.library.duplicate(), duplicate_playlist(&self.playlist), duplicate_strings(&self.tv_files))
    }
}

} // verus!
