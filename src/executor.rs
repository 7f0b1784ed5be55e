//! Encoding one source: the steps around the transcoder, decided here and
//! carried out by the caller, who reports each outcome back.

use vstd::prelude::*;
use crate::command::{
    build_transcode_command, joined, playlist_path, subtitle_probe_command, texts, transcode_args,
    version_probe_command, ProcessCommand, PLAYLIST_FILE,
};
use crate::models::SubtitleMode;
use crate::subtitles::{resolve_strategy, resolved_strategy, SubtitleStrategy};

verus! {

/// Why encoding a source failed.
#[derive(Clone, Copy, Debug, PartialEq, Eq, Structural)]
pub enum EncodeError {
    /// The source file does not exist.
    MissingSource,
    /// The transcoder does not run.
    TranscoderUnavailable,
    /// The transcoder could not be started.
    SpawnFailed,
    /// The transcoder exited with a failure status.
    NonzeroExit,
    /// The transcoder reported success but wrote no live playlist.
    MissingPlaylist,
}

/// The kinds of failure the channel distinguishes.
#[derive(Clone, Copy, Debug, PartialEq, Eq, Structural)]
pub enum ErrorClass {
    Resource,
    Process,
    Consistency,
}

pub open spec fn class_of(e: EncodeError) -> ErrorClass {
    match e {
        EncodeError::MissingSource | EncodeError::TranscoderUnavailable => ErrorClass::Resource,
        EncodeError::SpawnFailed | EncodeError::NonzeroExit => ErrorClass::Process,
        EncodeError::MissingPlaylist => ErrorClass::Consistency,
    }
}

impl EncodeError {
    pub fn class(&self) -> (r: ErrorClass)
        ensures
            r == class_of(*self),
    {
        match self {
            EncodeError::MissingSource | EncodeError::TranscoderUnavailable => ErrorClass::Resource,
            EncodeError::SpawnFailed | EncodeError::NonzeroExit => ErrorClass::Process,
            EncodeError::MissingPlaylist => ErrorClass::Consistency,
        }
    }
}

/// Whether the transcoder runs, once it has been checked. The first result
/// stays for the lifetime of the cache.
#[derive(Clone, Copy, Debug)]
pub struct AvailabilityCache {
    pub known: Option<bool>,
}

impl AvailabilityCache {
    /// A cache that has checked nothing.
    pub fn new() -> (r: AvailabilityCache)
        ensures
            r.known is None,
    {
        AvailabilityCache { known: None }
    }

    /// Records a check's result unless one is recorded already; returns the
    /// result that stands.
    pub fn record(&mut self, ran_ok: bool) -> (r: bool)
        ensures
            final(self).known == Some(
                match old(self).known {
                    Some(k) => k,
                    None => ran_ok,
                },
            ),
            final(self).known == Some(r),
    {
        match self.known {
            Some(k) => k,
            None => {
                self.known = Some(ran_ok);
                ran_ok
            },
        }
    }
}

/// What an encode waits for.
#[derive(Clone, Copy, Debug, PartialEq, Eq, Structural)]
pub enum EncodeStage {
    AwaitSource,
    AwaitTranscoderProbe,
    AwaitSubtitleProbe,
    AwaitExit,
    AwaitOutput,
    Finished,
}

/// What the caller does next for an encode.
#[derive(Debug)]
pub enum EncodeAction {
    /// Report whether this file exists.
    CheckSource { path: String },
    /// Run this command and report whether it exited successfully.
    ProbeTranscoder { command: ProcessCommand },
    /// Run this command and report its output, or `None` if it failed.
    ProbeSubtitles { command: ProcessCommand },
    /// Run this command to completion and report how it ended.
    Transcode { command: ProcessCommand },
    /// Report whether this file exists.
    CheckOutput { path: String },
    /// The encode is over.
    Finished { result: Result<(), EncodeError> },
}

/// What happened when the caller carried out an action.
#[derive(Clone, Debug)]
pub enum EncodeEvent {
    SourceChecked { exists: bool },
    TranscoderProbed { ran_ok: bool },
    SubtitlesProbed { output: Option<String> },
    Exited { spawned: bool, success: bool },
    OutputChecked { exists: bool },
}

/// An action, described by the values it carries.
pub enum ActionSpec {
    CheckSource(Seq<char>),
    ProbeTranscoder,
    ProbeSubtitles(Seq<char>),
    Transcode(Seq<char>, Seq<char>, SubtitleStrategy),
    CheckOutput(Seq<char>),
    Finished(Result<(), EncodeError>),
}

/// `a` is the action that `s` describes.
pub open spec fn realizes(a: EncodeAction, s: ActionSpec) -> bool {
    match (a, s) {
        (EncodeAction::CheckSource { path }, ActionSpec::CheckSource(p)) => path@ == p,
        (EncodeAction::ProbeTranscoder { command }, ActionSpec::ProbeTranscoder) => {
            command.program@ == "ffmpeg"@ && texts(command.args@) == seq!["-version"@]
        },
        (EncodeAction::ProbeSubtitles { command }, ActionSpec::ProbeSubtitles(input)) => {
            &&& command.program@ == "ffprobe"@
            &&& texts(command.args@) == seq![
                "-v"@,
                "quiet"@,
                "-print_format"@,
                "json"@,
                "-show_streams"@,
                "-select_streams"@,
                "s"@,
                input,
            ]
        },
        (EncodeAction::Transcode { command }, ActionSpec::Transcode(input, out, s)) => {
            command.program@ == "ffmpeg"@ && texts(command.args@) == transcode_args(input, out, s)
        },
        (EncodeAction::CheckOutput { path }, ActionSpec::CheckOutput(p)) => path@ == p,
        (EncodeAction::Finished { result }, ActionSpec::Finished(r)) => result == r,
        _ => false,
    }
}

/// The event that a stage waits for.
pub open spec fn expects(stage: EncodeStage, ev: EncodeEvent) -> bool {
    match stage {
        EncodeStage::AwaitSource => ev is SourceChecked,
        EncodeStage::AwaitTranscoderProbe => ev is TranscoderProbed,
        EncodeStage::AwaitSubtitleProbe => ev is SubtitlesProbed,
        EncodeStage::AwaitExit => ev is Exited,
        EncodeStage::AwaitOutput => ev is OutputChecked,
        EncodeStage::Finished => false,
    }
}

/// The encode of one source into one output directory.
#[derive(Clone, Debug)]
pub struct EncodeJob {
    pub source: String,
    pub out_dir: String,
    pub mode: SubtitleMode,
    pub stage: EncodeStage,
}

/// Once the transcoder is known to run: probe subtitles in smart mode, else
/// transcode straight away without subtitles.
pub open spec fn after_transcoder(job: EncodeJob) -> (EncodeStage, ActionSpec) {
    match job.mode {
        SubtitleMode::Smart => (EncodeStage::AwaitSubtitleProbe, ActionSpec::ProbeSubtitles(job.source@)),
        SubtitleMode::Disabled => (
            EncodeStage::AwaitExit,
            ActionSpec::Transcode(job.source@, job.out_dir@, SubtitleStrategy::Passthrough),
        ),
    }
}

pub open spec fn failed(e: EncodeError) -> (EncodeStage, ActionSpec) {
    (EncodeStage::Finished, ActionSpec::Finished(Err(e)))
}

/// One transition: the stage after `ev`, what the cache holds after it, and
/// the next action.
pub open spec fn encode_step(job: EncodeJob, known: Option<bool>, ev: EncodeEvent) -> (
    EncodeStage,
    Option<bool>,
    ActionSpec,
) {
    match ev {
        EncodeEvent::SourceChecked { exists } => {
            if !exists {
                (failed(EncodeError::MissingSource).0, known, failed(EncodeError::MissingSource).1)
            } else {
                match known {
                    None => (EncodeStage::AwaitTranscoderProbe, known, ActionSpec::ProbeTranscoder),
                    Some(true) => (after_transcoder(job).0, known, after_transcoder(job).1),
                    Some(false) => (
                        failed(EncodeError::TranscoderUnavailable).0,
                        known,
                        failed(EncodeError::TranscoderUnavailable).1,
                    ),
                }
            }
        },
        EncodeEvent::TranscoderProbed { ran_ok } => {
            let k = match known {
                Some(k) => k,
                None => ran_ok,
            };
            if k {
                (after_transcoder(job).0, Some(k), after_transcoder(job).1)
            } else {
                (
                    failed(EncodeError::TranscoderUnavailable).0,
                    Some(k),
                    failed(EncodeError::TranscoderUnavailable).1,
                )
            }
        },
        EncodeEvent::SubtitlesProbed { output } => {
            let probe = match output {
                Some(o) => Some(o@),
                None => None,
            };
            (
                EncodeStage::AwaitExit,
                known,
                ActionSpec::Transcode(job.source@, job.out_dir@, resolved_strategy(job.mode, probe)),
            )
        },
        EncodeEvent::Exited { spawned, success } => {
            if !spawned {
                (failed(EncodeError::SpawnFailed).0, known, failed(EncodeError::SpawnFailed).1)
            } else if !success {
                (failed(EncodeError::NonzeroExit).0, known, failed(EncodeError::NonzeroExit).1)
            } else {
                (EncodeStage::AwaitOutput, known, ActionSpec::CheckOutput(joined(job.out_dir@, PLAYLIST_FILE@)))
            }
        },
        EncodeEvent::OutputChecked { exists } => {
            if exists {
                (EncodeStage::Finished, known, ActionSpec::Finished(Ok(())))
            } else {
                (failed(EncodeError::MissingPlaylist).0, known, failed(EncodeError::MissingPlaylist).1)
            }
        },
    }
}

impl EncodeJob {
    /// Begins the encode of `source` into `out_dir`: first, whether the
    /// source exists.
    pub fn start(source: String, out_dir: String, mode: SubtitleMode) -> (r: (EncodeJob, EncodeAction))
        ensures
            r.0.source == source,
            r.0.out_dir == out_dir,
            r.0.mode == mode,
            r.0.stage == EncodeStage::AwaitSource,
            realizes(r.1, ActionSpec::CheckSource(source@)),
    {
        let path = source.clone();
        (EncodeJob { source, out_dir, mode, stage: EncodeStage::AwaitSource }, EncodeAction::CheckSource { path })
    }

    fn transcoder_ready(&mut self) -> (r: EncodeAction)
        ensures
            final(self).source == old(self).source,
            final(self).out_dir == old(self).out_dir,
            final(self).mode == old(self).mode,
            final(self).stage == after_transcoder(*old(self)).0,
            realizes(r, after_transcoder(*old(self)).1),
    {
        match self.mode {
            SubtitleMode::Smart => {
                self.stage = EncodeStage::AwaitSubtitleProbe;
                EncodeAction::ProbeSubtitles { command: subtitle_probe_command(self.source.as_str()) }
            },
            SubtitleMode::Disabled => {
                self.stage = EncodeStage::AwaitExit;
                EncodeAction::Transcode {
                    command: build_transcode_command(
                        self.source.as_str(),
                        self.out_dir.as_str(),
                        SubtitleStrategy::Passthrough,
                    ),
                }
            },
        }
    }

    fn fail(&mut self, e: EncodeError) -> (r: EncodeAction)
        ensures
            final(self).source == old(self).source,
            final(self).out_dir == old(self).out_dir,
            final(self).mode == old(self).mode,
            final(self).stage == failed(e).0,
            realizes(r, failed(e).1),
    {
        self.stage = EncodeStage::Finished;
        EncodeAction::Finished { result: Err(e) }
    }

    /// Takes in the outcome of the last action and returns the next one.
    pub fn advance(&mut self, cache: &mut AvailabilityCache, ev: EncodeEvent) -> (r: EncodeAction)
        requires
            expects(old(self).stage, ev),
        ensures
            final(self).source == old(self).source,
            final(self).out_dir == old(self).out_dir,
            final(self).mode == old(self).mode,
            ({
                let (stage, known, action) = encode_step(*old(self), old(cache).known, ev);
                &&& final(self).stage == stage
                &&& final(cache).known == known
                &&& realizes(r, action)
            }),
    {
        match ev {
            EncodeEvent::SourceChecked { exists } => {
                if !exists {
                    self.fail(EncodeError::MissingSource)
                } else {
                    match cache.known {
                        None => {
                            self.stage = EncodeStage::AwaitTranscoderProbe;
                            EncodeAction::ProbeTranscoder { command: version_probe_command() }
                        },
                        Some(true) => self.transcoder_ready(),
                        Some(false) => self.fail(EncodeError::TranscoderUnavailable),
                    }
                }
            },
            EncodeEvent::TranscoderProbed { ran_ok } => {
                if cache.record(ran_ok) {
                    self.transcoder_ready()
                } else {
                    self.fail(EncodeError::TranscoderUnavailable)
                }
            },
            EncodeEvent::SubtitlesProbed { output } => {
                let strategy = match &output {
                    Some(o) => resolve_strategy(self.mode, Some(o.as_str())),
                    None => resolve_strategy(self.mode, None),
                };
                self.stage = EncodeStage::AwaitExit;
                EncodeAction::Transcode {
                    command: build_transcode_command(self.source.as_str(), self.out_dir.as_str(), strategy),
                }
            },
            EncodeEvent::Exited { spawned, success } => {
                if !spawned {
                    self.fail(EncodeError::SpawnFailed)
                } else if !success {
                    self.fail(EncodeError::NonzeroExit)
                } else {
                    self.stage = EncodeStage::AwaitOutput;
                    EncodeAction::CheckOutput { path: playlist_path(self.out_dir.as_str()) }
                }
            },
            EncodeEvent::OutputChecked { exists } => {
                if exists {
                    self.stage = EncodeStage::Finished;
                    EncodeAction::Finished { result: Ok(()) }
                } else {
                    self.fail(EncodeError::MissingPlaylist)
                }
            },
        }
    }
}

} // verus!
