//! What the channel encodes in one pass: the playlist in stored order, each
//! item's episodes clipped to its range and filtered by the tracker, or the
//! raw file list when the playlist is empty.

use vstd::prelude::*;
use crate::library::{episodes_named, has_show, ShowLibrary};
use crate::models::{duplicate_playlist, Episode, PlaylistItem};
use crate::tracker::{claim_outcome, is_played, PlayedTracker};

verus! {

/// `x` clipped into `[0, n]`.
pub open spec fn clip(x: usize, n: nat) -> nat {
    if x <= n {
        x as nat
    } else {
        n
    }
}

/// The half-open slice of a show of `n` episodes that a range selects: the
/// whole show without a range, else the clipped range; `None` where the
/// clipped start lies past the clipped end.
pub open spec fn selection_bounds(range: Option<(usize, usize)>, n: nat) -> Option<(nat, nat)> {
    match range {
        None => Some((0, n)),
        Some((s, e)) => {
            if clip(s, n) <= clip(e, n) {
                Some((clip(s, n), clip(e, n)))
            } else {
                None
            }
        },
    }
}

/// Why a playlist item selects nothing to play.
#[derive(Clone, Copy, Debug, PartialEq, Eq, Structural)]
pub enum ValidationError {
    /// The item's show is not in the library.
    UnknownShow,
    /// The item's range starts past its end once clipped.
    DegenerateRange,
}

/// The bounds `[lo, hi)` that `range` selects from `n` episodes.
pub fn select_bounds(range: Option<(usize, usize)>, n: usize) -> (r: Result<(usize, usize), ValidationError>)
    ensures
        match selection_bounds(range, n as nat) {
            Some((lo, hi)) => r == Ok::<(usize, usize), ValidationError>((lo as usize, hi as usize)),
            None => r == Err::<(usize, usize), ValidationError>(ValidationError::DegenerateRange),
        },
{
    match range {
        None => Ok((0, n)),
        Some((s, e)) => {
            let lo = if s <= n { s } else { n };
            let hi = if e <= n { e } else { n };
            if lo <= hi {
                Ok((lo, hi))
            } else {
                Err(ValidationError::DegenerateRange)
            }
        },
    }
}

/// The episodes that an item with `range` selects from `episodes`, in order.
pub open spec fn selected(episodes: Seq<Episode>, range: Option<(usize, usize)>) -> Option<Seq<Episode>> {
    match selection_bounds(range, episodes.len()) {
        Some((lo, hi)) => Some(episodes.subrange(lo as int, hi as int)),
        None => None,
    }
}

/// The episodes of the item's show that the item selects, before the
/// tracker is consulted.
pub fn select_episodes(library: &ShowLibrary, item: &PlaylistItem) -> (r: Result<Vec<Episode>, ValidationError>)
    requires
        library.wf(),
    ensures
        match episodes_named(library@, item.show_name@) {
            None => r == Err::<Vec<Episode>, ValidationError>(ValidationError::UnknownShow),
            Some(eps) => match selected(eps, item.episode_range) {
                None => r == Err::<Vec<Episode>, ValidationError>(ValidationError::DegenerateRange),
                Some(s) => r matches Ok(v) && v@ == s,
            },
        },
{
    let eps = match library.episodes_of(item.show_name.as_str()) {
        None => return Err(ValidationError::UnknownShow),
        Some(eps) => eps,
    };
    let (lo, hi) = select_bounds(item.episode_range, eps.len())?;
    let mut out: Vec<Episode> = Vec::new();
    let mut k: usize = lo;
    while k < hi
        invariant
            lo <= k <= hi <= eps.len(),
            out@ == eps@.subrange(lo as int, k as int),
        decreases hi - k,
    {
        out.push(eps[k].duplicate());
        proof {
            assert(eps@.subrange(lo as int, k + 1) =~= eps@.subrange(lo as int, k as int).push(eps@[k as int]));
        }
        k = k + 1;
    }
    Ok(out)
}

/// Which source a pass draws from.
#[derive(Clone, Copy, Debug, PartialEq, Eq, Structural)]
pub enum PassMode {
    /// The playlist holds items: play them in stored order.
    Playlist,
    /// No playlist, but discovered files: play each once, in order.
    Fallback,
    /// Nothing to play.
    Idle,
}

pub open spec fn mode_for(playlist_len: nat, files_len: nat) -> PassMode {
    if playlist_len > 0 {
        PassMode::Playlist
    } else if files_len > 0 {
        PassMode::Fallback
    } else {
        PassMode::Idle
    }
}

/// What the loop does next within a pass.
#[derive(Clone, Debug)]
pub enum PassStep {
    /// Encode this episode of the item's show.
    Encode { show_name: String, episode: Episode },
    /// The episode was already played by a play-once item.
    Skip { show_name: String, episode_id: usize },
    /// Encode this discovered file (no playlist).
    EncodeFile { path: String },
    /// The item's show is not in the library: wait before the next item.
    MissingShow { show_name: String },
    /// The item's range is degenerate: the item is skipped.
    InvalidRange { show_name: String },
    /// The item's range selects no episode.
    EmptySelection { show_name: String },
    /// The pass encoded nothing: wait, then begin a new pass.
    Idle,
    /// The pass is over: begin a new one.
    Done,
}

/// Milliseconds to wait after a show that is missing from the library.
pub const MISSING_SHOW_WAIT_MS: u64 = 5000;

/// Milliseconds to wait after a pass that encoded nothing.
pub const IDLE_WAIT_MS: u64 = 5000;

/// Milliseconds to wait after an encode that failed.
pub const FAILURE_BACKOFF_MS: u64 = 1000;

/// How long the loop waits after a step; `failed` tells whether the step's
/// encode failed.
pub open spec fn pause_spec(step: PassStep, failed: bool) -> u64 {
    match step {
        PassStep::MissingShow { .. } => MISSING_SHOW_WAIT_MS,
        PassStep::Idle => IDLE_WAIT_MS,
        PassStep::Encode { .. } | PassStep::EncodeFile { .. } => if failed {
            FAILURE_BACKOFF_MS
        } else {
            0
        },
        _ => 0,
    }
}

impl PassStep {
    /// The wait after this step, in milliseconds.
    pub fn pause_after(&self, failed: bool) -> (r: u64)
        ensures
            r == pause_spec(*self, failed),
    {
        match self {
            PassStep::MissingShow { .. } => MISSING_SHOW_WAIT_MS,
            PassStep::Idle => IDLE_WAIT_MS,
            PassStep::Encode { .. } | PassStep::EncodeFile { .. } => if failed {
                FAILURE_BACKOFF_MS
            } else {
                0
            },
            _ => 0,
        }
    }

    /// Whether the step ends the pass.
    pub fn ends_pass(&self) -> (r: bool)
        ensures
            r == (*self is Idle || *self is Done),
    {
        match self {
            PassStep::Idle | PassStep::Done => true,
            _ => false,
        }
    }
}

/// One pass over a snapshot of the library, the playlist and the file list.
#[derive(Clone, Debug)]
pub struct Pass {
    pub library: ShowLibrary,
    pub playlist: Vec<PlaylistItem>,
    pub files: Vec<String>,
    pub mode: PassMode,
    /// The playlist item, or the file, that comes next.
    pub item: usize,
    /// Within an entered item: the next episode index, and the end of its selection.
    pub episode: usize,
    pub end: usize,
    pub entered: bool,
    /// Whether an encode was handed out in this pass.
    pub worked: bool,
    pub finished: bool,
}

/// The pass with the cursor moved to the next item.
pub open spec fn next_item(p: Pass, claimed: bool) -> Pass {
    Pass { item: (p.item + 1) as usize, entered: false, worked: p.worked || claimed, ..p }
}

/// The pass once it is over.
pub open spec fn finish(p: Pass) -> Pass {
    Pass { finished: true, ..p }
}

/// The step at the episode under the cursor of an entered item.
pub open spec fn visit(p: Pass, it: PlaylistItem, e: Episode, m: Map<Seq<char>, Seq<usize>>) -> (
    Pass,
    PassStep,
    Map<Seq<char>, Seq<usize>>,
) {
    let (claimed, m2) = claim_outcome(m, it, e.id);
    let p2 = if p.episode + 1 < p.end {
        Pass { episode: (p.episode + 1) as usize, entered: true, worked: p.worked || claimed, ..p }
    } else {
        next_item(p, claimed)
    };
    let step = if claimed {
        PassStep::Encode { show_name: it.show_name, episode: e }
    } else {
        PassStep::Skip { show_name: it.show_name, episode_id: e.id }
    };
    (p2, step, m2)
}

/// The step at the end of a pass: idle when it encoded nothing.
pub open spec fn closing(p: Pass) -> PassStep {
    if p.worked {
        PassStep::Done
    } else {
        PassStep::Idle
    }
}

/// One step of a pass: the pass after it, what to do, and the tracker after it.
pub open spec fn pass_step(p: Pass, m: Map<Seq<char>, Seq<usize>>) -> (
    Pass,
    PassStep,
    Map<Seq<char>, Seq<usize>>,
) {
    if p.finished {
        (p, PassStep::Done, m)
    } else {
        match p.mode {
            PassMode::Idle => (finish(p), PassStep::Idle, m),
            PassMode::Fallback => {
                if p.item < p.files@.len() {
                    (
                        Pass { item: (p.item + 1) as usize, worked: true, ..p },
                        PassStep::EncodeFile { path: p.files@[p.item as int] },
                        m,
                    )
                } else {
                    (finish(p), closing(p), m)
                }
            },
            PassMode::Playlist => {
                if p.item >= p.playlist@.len() {
                    (finish(p), closing(p), m)
                } else {
                    let it = p.playlist@[p.item as int];
                    match episodes_named(p.library@, it.show_name@) {
                        None => (next_item(p, false), PassStep::MissingShow { show_name: it.show_name }, m),
                        Some(eps) => {
                            if p.entered {
                                visit(p, it, eps[p.episode as int], m)
                            } else {
                                match selection_bounds(it.episode_range, eps.len()) {
                                    None => (
                                        next_item(p, false),
                                        PassStep::InvalidRange { show_name: it.show_name },
                                        m,
                                    ),
                                    Some((lo, hi)) => {
                                        if lo == hi {
                                            (
                                                next_item(p, false),
                                                PassStep::EmptySelection { show_name: it.show_name },
                                                m,
                                            )
                                        } else {
                                            visit(
                                                Pass { episode: lo as usize, end: hi as usize, entered: true, ..p },
                                                it,
                                                eps[lo as int],
                                                m,
                                            )
                                        }
                                    },
                                }
                            }
                        },
                    }
                }
            },
        }
    }
}

impl Pass {
    pub open spec fn wf(&self) -> bool {
        &&& self.library.wf()
        &&& self.mode == mode_for(self.playlist@.len(), self.files@.len())
        &&& self.entered ==> {
            &&& self.mode == PassMode::Playlist
            &&& self.item < self.playlist@.len()
            &&& episodes_named(self.library@, self.playlist@[self.item as int].show_name@) matches Some(
                eps,
            ) && self.episode < self.end <= eps.len()
        }
    }

    /// A pass over the given snapshot, from its start.
    pub fn begin(library: ShowLibrary, playlist: Vec<PlaylistItem>, files: Vec<String>) -> (r: Pass)
        requires
            library.wf(),
        ensures
            r.wf(),
            r.library == library,
            r.playlist == playlist,
            r.files == files,
            r.item == 0,
            !r.entered,
            !r.worked,
            !r.finished,
    {
        let mode = if playlist.len() > 0 {
            PassMode::Playlist
        } else if files.len() > 0 {
            PassMode::Fallback
        } else {
            PassMode::Idle
        };
        Pass {
            library,
            playlist,
            files,
            mode,
            item: 0,
            episode: 0,
            end: 0,
            entered: false,
            worked: false,
            finished: false,
        }
    }

    fn visit_exec(&mut self, it: &PlaylistItem, e: Episode, tracker: &mut PlayedTracker) -> (r: PassStep)
        requires
            old(self).episode < old(self).end,
            old(self).item < old(self).playlist.len(),
            old(tracker).wf(),
        ensures
            final(tracker).wf(),
            (*final(self), r, final(tracker)@) == visit(*old(self), *it, e, old(tracker)@),
    {
        let claimed = tracker.claim(it, e.id);
        self.worked = self.worked || claimed;
        if self.episode + 1 < self.end {
            self.episode = self.episode + 1;
            self.entered = true;
        } else {
            self.item = self.item + 1;
            self.entered = false;
        }
        if claimed {
            PassStep::Encode { show_name: it.show_name.clone(), episode: e }
        } else {
            PassStep::Skip { show_name: it.show_name.clone(), episode_id: e.id }
        }
    }

    /// Advances the pass by one step, consulting and updating the tracker.
    pub fn next_step(&mut self, tracker: &mut PlayedTracker) -> (r: PassStep)
        requires
            old(self).wf(),
            old(tracker).wf(),
        ensures
            final(self).wf(),
            final(tracker).wf(),
            (*final(self), r, final(tracker)@) == pass_step(*old(self), old(tracker)@),
    {
        if self.finished {
            return PassStep::Done;
        }
        match self.mode {
            PassMode::Idle => {
                self.finished = true;
                PassStep::Idle
            },
            PassMode::Fallback => {
                if self.item < self.files.len() {
                    let path = self.files[self.item].clone();
                    self.item = self.item + 1;
                    self.worked = true;
                    PassStep::EncodeFile { path }
                } else {
                    self.finished = true;
                    if self.worked { PassStep::Done } else { PassStep::Idle }
                }
            },
            PassMode::Playlist => {
                if self.item >= self.playlist.len() {
                    self.finished = true;
                    return if self.worked { PassStep::Done } else { PassStep::Idle };
                }
                let it = self.playlist[self.item].duplicate();
                match self.library.episodes_of(it.show_name.as_str()) {
                    None => {
                        self.item = self.item + 1;
                        self.entered = false;
                        PassStep::MissingShow { show_name: it.show_name }
                    },
                    Some(eps) => {
                        if self.entered {
                            let e = eps[self.episode].duplicate();
                            self.visit_exec(&it, e, tracker)
                        } else {
                            match select_bounds(it.episode_range, eps.len()) {
                                Err(_) => {
                                    self.item = self.item + 1;
                                    PassStep::InvalidRange { show_name: it.show_name }
                                },
                                Ok((lo, hi)) => {
                                    if lo == hi {
                                        self.item = self.item + 1;
                                        PassStep::EmptySelection { show_name: it.show_name }
                                    } else {
                                        let e = eps[lo].duplicate();
                                        self.episode = lo;
                                        self.end = hi;
                                        self.entered = true;
                                        self.visit_exec(&it, e, tracker)
                                    }
                                },
                            }
                        }
                    },
                }
            },
        }
    }
}

/// Played-state policy across passes: once a play-once item has encoded an
/// episode, a later pass that reaches the episode again skips it and leaves
/// the tracker as it is; a repeating item encodes the episode every time it
/// reaches it and never touches the tracker.
pub proof fn lemma_played_policy(p: Pass, m: Map<Seq<char>, Seq<usize>>, e: Episode)
    requires
        p.wf(),
        !p.finished,
        p.entered,
        episodes_named(p.library@, p.playlist@[p.item as int].show_name@) matches Some(eps)
            && eps[p.episode as int] == e,
    ensures
        ({
            let it = p.playlist@[p.item as int];
            &&& it.repeat_count == 0 && is_played(m, it.show_name@, e.id) ==> pass_step(p, m).1 is Skip
                && pass_step(p, m).2 == m
            &&& it.repeat_count != 0 ==> pass_step(p, m).1 == (PassStep::Encode { show_name: it.show_name, episode: e })
                && pass_step(p, m).2 == m
            &&& it.repeat_count == 0 && pass_step(p, m).1 is Encode ==> is_played(
                pass_step(p, m).2,
                it.show_name@,
                e.id,
            )
        }),
{
    let it = p.playlist@[p.item as int];
    if it.repeat_count == 0 && !is_played(m, it.show_name@, e.id) {
        let m2 = pass_step(p, m).2;
        if m.contains_key(it.show_name@) {
            assert(m2[it.show_name@] == m[it.show_name@].push(e.id));
            assert(m2[it.show_name@].last() == e.id);
        } else {
            assert(m2[it.show_name@] == seq![e.id]);
            assert(m2[it.show_name@][0] == e.id);
        }
    }
}

} // verus!
