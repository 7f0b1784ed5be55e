//! The channel job registry: starting the channel's loop is idempotent, and
//! at most one loop is ever spawned for the one supported channel.

use vstd::prelude::*;
use vstd::string::StringExecFns;
use crate::models::same_text;

verus! {

/// The id of the one channel there is.
pub const CHANNEL_ID: &'static str = "tv";

/// Whether `id` names the supported channel.
pub open spec fn supported(id: Seq<char>) -> bool {
    id == CHANNEL_ID@
}

/// Why a channel cannot be started.
#[derive(Clone, Copy, Debug, PartialEq, Eq, Structural)]
pub enum ChannelError {
    /// No channel of that id exists.
    NotFound,
}

/// What a caller of `ensure_started` must do.
#[derive(Clone, Copy, Debug, PartialEq, Eq, Structural)]
pub enum StartDecision {
    /// The loop runs already: nothing to do.
    AlreadyRunning,
    /// Prepare the output directory, spawn the loop, then report back with
    /// `finish_start` before the registry is released.
    Start,
}

/// The decision for `id` when `running` tells whether the loop was spawned.
pub open spec fn start_decision(running: bool, id: Seq<char>) -> Result<StartDecision, ChannelError> {
    if !supported(id) {
        Err(ChannelError::NotFound)
    } else if running {
        Ok(StartDecision::AlreadyRunning)
    } else {
        Ok(StartDecision::Start)
    }
}

/// One start attempt under the registry's exclusive lock: whether a loop is
/// spawned, and whether the loop runs afterwards. The loop is spawned only
/// when the decision is `Start` and the output directory was prepared.
pub open spec fn start_attempt(running: bool, id: Seq<char>, prepared: bool) -> (bool, bool) {
    match start_decision(running, id) {
        Ok(StartDecision::Start) => (prepared, prepared),
        _ => (false, running),
    }
}

/// Which channel loops have been spawned. An entry is never removed.
#[derive(Debug)]
pub struct JobRegistry {
    pub running: bool,
}

impl JobRegistry {
    /// A registry in which no loop runs.
    pub fn new() -> (r: JobRegistry)
        ensures
            !r.running,
    {
        JobRegistry { running: false }
    }

    /// Whether the loop of `id` is known to run.
    pub fn is_running(&self, id: &str) -> (r: bool)
        ensures
            r == (supported(id@) && self.running),
    {
        same_text(id, CHANNEL_ID) && self.running
    }

    /// Decides what starting channel `id` takes: `NotFound` for any id but
    /// the supported one, else whether the loop must still be spawned.
    pub fn ensure_started(&self, id: &str) -> (r: Result<StartDecision, ChannelError>)
        ensures
            r == start_decision(self.running, id@),
    {
        if !same_text(id, CHANNEL_ID) {
            Err(ChannelError::NotFound)
        } else if self.running {
            Ok(StartDecision::AlreadyRunning)
        } else {
            Ok(StartDecision::Start)
        }
    }

    /// Completes a `Start` decision: `prepared` tells whether the output
    /// directory was reset. Returns whether the loop is to be spawned; the
    /// loop is registered exactly then.
    pub fn finish_start(&mut self, id: &str, prepared: bool) -> (spawn: bool)
        requires
            start_decision(old(self).running, id@) == Ok::<StartDecision, ChannelError>(StartDecision::Start),
        ensures
            (spawn, final(self).running) == start_attempt(old(self).running, id@, prepared),
    {
        if prepared {
            self.running = true;
        }
        prepared
    }
}

/// Starting an unsupported channel fails with `NotFound` and spawns nothing.
pub proof fn lemma_unsupported_channel(running: bool, id: Seq<char>, prepared: bool)
    requires
        !supported(id),
    ensures
        start_decision(running, id) == Err::<StartDecision, ChannelError>(ChannelError::NotFound),
        start_attempt(running, id, prepared) == (false, running),
{
}

/// Two start attempts on one channel, one after the other as the registry's
/// lock orders them, spawn at most one loop; once a loop runs, none is spawned.
pub proof fn lemma_single_loop(running: bool, id: Seq<char>, first: bool, second: bool)
    ensures
        ({
            let (s1, r1) = start_attempt(running, id, first);
            let (s2, r2) = start_attempt(r1, id, second);
            &&& !(s1 && s2)
            &&& running ==> !s1 && !s2 && r2
            &&& supported(id) && !running && first ==> s1 && !s2 && r2
        }),
{
}

/// Milliseconds a stream request waits for the live playlist to appear.
pub const STREAM_WAIT_MS: u64 = 8000;

/// What a request for a channel's stream does.
#[derive(Clone, Copy, Debug, PartialEq, Eq, Structural)]
pub enum StreamPlan {
    /// The live playlist exists: redirect to it.
    Redirect,
    /// Ensure the channel runs, wait for the playlist, then redirect.
    StartAndWait,
}

/// A stream request for `id`: unknown channels are not found; a channel
/// whose live playlist exists is redirected to at once.
pub fn plan_stream(id: &str, playlist_exists: bool) -> (r: Result<StreamPlan, ChannelError>)
    ensures
        !supported(id@) ==> r == Err::<StreamPlan, ChannelError>(ChannelError::NotFound),
        supported(id@) && playlist_exists ==> r == Ok::<StreamPlan, ChannelError>(StreamPlan::Redirect),
        supported(id@) && !playlist_exists ==> r == Ok::<StreamPlan, ChannelError>(StreamPlan::StartAndWait),
{
    if !same_text(id, CHANNEL_ID) {
        Err(ChannelError::NotFound)
    } else if playlist_exists {
        Ok(StreamPlan::Redirect)
    } else {
        Ok(StreamPlan::StartAndWait)
    }
}

/// The public address of channel `id`'s live playlist.
pub fn stream_location(id: &str) -> (r: String)
    ensures
        r@ == "/hls/"@ + id@ + "/index.m3u8"@,
{
    let mut r = String::from_str("/hls/");
    r.append(id);
    r.append("/index.m3u8");
    r
}

} // verus!
