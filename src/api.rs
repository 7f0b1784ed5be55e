//! The values exchanged with the HTTP layer: requests, responses, and the
//! errors that a request can meet.

use vstd::prelude::*;
use vstd::string::StringExecFns;
use crate::library::ShowLibrary;
use crate::models::{PlaylistItem, SubtitleMode};

verus! {

/// The envelope of every API answer.
#[derive(Debug)]
pub struct ApiResponse<T> {
    pub success: bool,
    pub data: Option<T>,
    pub error: Option<String>,
}

impl<T> ApiResponse<T> {
    /// A successful answer carrying `data`.
    pub fn success(data: T) -> (r: Self)
        ensures
            r.success,
            r.data == Some(data),
            r.error is None,
    {
        ApiResponse { success: true, data: Some(data), error: None }
    }

    /// A failed answer carrying the message `error`.
    pub fn error(error: String) -> (r: Self)
        ensures
            !r.success,
            r.data is None,
            r.error == Some(error),
    {
        ApiResponse { success: false, data: None, error: Some(error) }
    }
}

/// The current configuration and playback state.
#[derive(Clone, Debug)]
pub struct ConfigResponse {
    pub videos_folder: Option<String>,
    pub video_count: usize,
    pub show_count: usize,
    pub shows: ShowLibrary,
    pub playlist: Vec<PlaylistItem>,
    pub subtitle_mode: SubtitleMode,
    pub is_streaming: bool,
    pub current_playing: Option<String>,
}

/// The result of a library scan.
#[derive(Clone, Debug)]
pub struct ScanResponse {
    pub video_count: usize,
    pub show_count: usize,
    pub shows: ShowLibrary,
}

/// Every episode file of the library.
#[derive(Clone, Debug)]
pub struct FileListResponse {
    pub files: Vec<FileInfo>,
}

/// One episode file, with the name it is shown under.
#[derive(Clone, Debug)]
pub struct FileInfo {
    pub display_name: String,
    pub file_path: String,
    pub show_name: String,
}

/// The show names, in string order.
#[derive(Clone, Debug)]
pub struct ShowListResponse {
    pub shows: Vec<String>,
}

#[derive(Clone, Debug)]
pub struct SetFolderRequest {
    pub path: String,
}

#[derive(Clone, Debug)]
pub struct PlayFileRequest {
    pub file_path: String,
}

#[derive(Clone, Debug)]
pub struct SetSubtitleModeRequest {
    pub mode: SubtitleMode,
}

#[derive(Clone, Debug)]
pub struct AddToPlaylistRequest {
    pub show_name: String,
    pub episode_range: Option<(usize, usize)>,
    pub repeat_count: Option<usize>,
}

#[derive(Clone, Debug)]
pub struct MovePlaylistItemRequest {
    pub index: usize,
    pub direction: String,
}

/// Why a request was refused.
#[derive(Clone, Copy, Debug, PartialEq, Eq, Structural)]
pub enum ApiError {
    /// The folder given does not exist.
    FolderMissing,
    /// No videos folder has been set.
    NoFolder,
    /// The file given does not exist.
    FileMissing,
    /// The library holds no show of that name.
    ShowNotFound,
    /// No playlist item has that index.
    InvalidIndex,
    /// The first item cannot move up.
    CannotMoveUp,
    /// The last item cannot move down.
    CannotMoveDown,
    /// The direction is neither "up" nor "down".
    InvalidDirection,
    /// The library is empty.
    NoVideos,
}

/// The message that goes with each error.
pub open spec fn message_of(e: ApiError) -> Seq<char> {
    match e {
        ApiError::FolderMissing => "Folder does not exist"@,
        ApiError::NoFolder => "No videos folder set"@,
        ApiError::FileMissing => "File does not exist"@,
        ApiError::ShowNotFound => "Show not found"@,
        ApiError::InvalidIndex => "Invalid playlist index"@,
        ApiError::CannotMoveUp => "Cannot move first item up"@,
        ApiError::CannotMoveDown => "Cannot move last item down"@,
        ApiError::InvalidDirection => "Invalid direction. Use 'up' or 'down'"@,
        ApiError::NoVideos => "No videos available. Please scan first."@,
    }
}

impl ApiError {
    /// The message shown to the client.
    pub fn message(&self) -> (r: String)
        ensures
            r@ == message_of(*self),
    {
        String::from_str(
            match self {
                ApiError::FolderMissing => "Folder does not exist",
                ApiError::NoFolder => "No videos folder set",
                ApiError::FileMissing => "File does not exist",
                ApiError::ShowNotFound => "Show not found",
                ApiError::InvalidIndex => "Invalid playlist index",
                ApiError::CannotMoveUp => "Cannot move first item up",
                ApiError::CannotMoveDown => "Cannot move last item down",
                ApiError::InvalidDirection => "Invalid direction. Use 'up' or 'down'",
                ApiError::NoVideos => "No videos available. Please scan first.",
            },
        )
    }
}

} // verus!
