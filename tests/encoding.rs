use rurushi::command::{build_transcode_command, channel_dir, join_path, playlist_path, subtitle_probe_command};
use rurushi::executor::{AvailabilityCache, EncodeAction, EncodeError, EncodeEvent, EncodeJob, ErrorClass};
use rurushi::models::SubtitleMode;
use rurushi::outdir::{reset_next, reset_start, DirError, DirStep};
use rurushi::registry::{plan_stream, stream_location, ChannelError, JobRegistry, StartDecision, StreamPlan};
use rurushi::subtitles::{classify_probe_output, resolve_strategy, SubtitleStrategy};
use rurushi::waiter::{poll_decision, PollDecision};

const FIT: &str = "scale=1920:1080:force_original_aspect_ratio=decrease,pad=1920:1080:(ow-iw)/2:(oh-ih)/2";

fn tail(dir: &str) -> Vec<String> {
    let mut v: Vec<String> = [
        "-c:v", "libx264", "-preset", "veryfast", "-s", "1920x1080", "-b:v", "5M", "-maxrate", "5M",
        "-bufsize", "10M", "-c:a", "aac", "-b:a", "128k", "-f", "hls", "-hls_time", "4", "-hls_list_size", "5",
        "-hls_flags",
        "append_list+delete_segments+program_date_time+omit_endlist+independent_segments",
        "-hls_segment_filename",
    ]
    .iter()
    .map(|s| s.to_string())
    .collect();
    v.push(format!("{}/%09d.ts", dir));
    v.push(format!("{}/index.m3u8", dir));
    v
}

fn strings(v: &[&str]) -> Vec<String> {
    v.iter().map(|s| s.to_string()).collect()
}

#[test]
fn subrip_converts_to_text() {
    let out = r#"{"streams": [{"codec_name": "subrip", "codec_type": "subtitle"}]}"#;
    assert_eq!(classify_probe_output(out), SubtitleStrategy::ConvertToText);
}

#[test]
fn dvd_subtitle_burns_in() {
    let out = r#"{"streams": [{"codec_name": "dvd_subtitle"}]}"#;
    assert_eq!(classify_probe_output(out), SubtitleStrategy::BurnIn);
}

#[test]
fn unknown_subtitle_codec_burns_in() {
    let out = r#"{"streams": [{"codec_name": "xyz", "codec_type": "subtitle"}]}"#;
    assert_eq!(classify_probe_output(out), SubtitleStrategy::BurnIn);
}

#[test]
fn no_subtitle_stream_passes_through() {
    assert_eq!(classify_probe_output(r#"{"streams": []}"#), SubtitleStrategy::Passthrough);
}

#[test]
fn failed_probe_burns_in() {
    assert_eq!(resolve_strategy(SubtitleMode::Smart, None), SubtitleStrategy::BurnIn);
    assert_eq!(resolve_strategy(SubtitleMode::Disabled, Some("subrip")), SubtitleStrategy::Passthrough);
}

#[test]
fn paths_join_with_one_separator() {
    assert_eq!(join_path("a", "b"), "a/b");
    assert_eq!(join_path("a/", "b"), "a/b");
    assert_eq!(join_path("", "b"), "b");
    assert_eq!(channel_dir("/tmp/hls", "tv"), "/tmp/hls/tv");
    assert_eq!(playlist_path("/tmp/hls/tv"), "/tmp/hls/tv/index.m3u8");
}

#[test]
fn passthrough_command_shape() {
    let c = build_transcode_command("in.mkv", "/out", SubtitleStrategy::Passthrough);
    assert_eq!(c.program, "ffmpeg");
    let mut expect = strings(&["-re", "-i", "in.mkv", "-map", "0:v:0", "-map", "0:a?", "-vf", FIT]);
    expect.extend(tail("/out"));
    assert_eq!(c.args, expect);
}

#[test]
fn convert_command_maps_first_subtitle() {
    let c = build_transcode_command("in.mkv", "/out", SubtitleStrategy::ConvertToText);
    let mut expect = strings(&[
        "-re", "-i", "in.mkv", "-map", "0:v:0", "-map", "0:a?", "-map", "0:s:0", "-vf", FIT, "-c:s", "webvtt",
    ]);
    expect.extend(tail("/out"));
    assert_eq!(c.args, expect);
}

#[test]
fn burn_in_command_overlays_subtitles() {
    let c = build_transcode_command("in.mkv", "/out", SubtitleStrategy::BurnIn);
    let graph = "[0:v:0]scale=1920:1080:force_original_aspect_ratio=decrease,pad=1920:1080:(ow-iw)/2:(oh-ih)/2[v];[0:s:0]scale=1920:1080[s];[v][s]overlay[vout]";
    let mut expect = strings(&["-re", "-i", "in.mkv", "-filter_complex", graph, "-map", "[vout]", "-map", "0:a?"]);
    expect.extend(tail("/out"));
    assert_eq!(c.args, expect);
}

#[test]
fn probe_command_selects_subtitles() {
    let c = subtitle_probe_command("in.mkv");
    assert_eq!(c.program, "ffprobe");
    assert_eq!(
        c.args,
        strings(&["-v", "quiet", "-print_format", "json", "-show_streams", "-select_streams", "s", "in.mkv"])
    );
}

fn start(mode: SubtitleMode) -> (EncodeJob, EncodeAction) {
    EncodeJob::start("/v/a.mkv".to_string(), "/out".to_string(), mode)
}

#[test]
fn encode_runs_to_success() {
    let mut cache = AvailabilityCache::new();
    let (mut job, first) = start(SubtitleMode::Disabled);
    assert!(matches!(first, EncodeAction::CheckSource { ref path } if path == "/v/a.mkv"));
    let a = job.advance(&mut cache, EncodeEvent::SourceChecked { exists: true });
    assert!(matches!(a, EncodeAction::ProbeTranscoder { ref command } if command.args == vec!["-version".to_string()]));
    let a = job.advance(&mut cache, EncodeEvent::TranscoderProbed { ran_ok: true });
    match a {
        EncodeAction::Transcode { command } => assert_eq!(command.args[3], "-map"),
        other => panic!("unexpected {:?}", other),
    }
    let a = job.advance(&mut cache, EncodeEvent::Exited { spawned: true, success: true });
    assert!(matches!(a, EncodeAction::CheckOutput { ref path } if path == "/out/index.m3u8"));
    let a = job.advance(&mut cache, EncodeEvent::OutputChecked { exists: true });
    assert!(matches!(a, EncodeAction::Finished { result: Ok(()) }));
    assert_eq!(cache.known, Some(true));
}

#[test]
fn smart_mode_probes_subtitles() {
    let mut cache = AvailabilityCache { known: Some(true) };
    let (mut job, _) = start(SubtitleMode::Smart);
    let a = job.advance(&mut cache, EncodeEvent::SourceChecked { exists: true });
    assert!(matches!(a, EncodeAction::ProbeSubtitles { .. }));
    let a = job.advance(&mut cache, EncodeEvent::SubtitlesProbed { output: Some("codec_name: subrip".to_string()) });
    match a {
        EncodeAction::Transcode { command } => assert!(command.args.contains(&"webvtt".to_string())),
        other => panic!("unexpected {:?}", other),
    }
}

#[test]
fn missing_source_fails() {
    let mut cache = AvailabilityCache::new();
    let (mut job, _) = start(SubtitleMode::Disabled);
    let a = job.advance(&mut cache, EncodeEvent::SourceChecked { exists: false });
    assert!(matches!(a, EncodeAction::Finished { result: Err(EncodeError::MissingSource) }));
    assert_eq!(EncodeError::MissingSource.class(), ErrorClass::Resource);
}

#[test]
fn unavailable_transcoder_is_remembered() {
    let mut cache = AvailabilityCache::new();
    let (mut job, _) = start(SubtitleMode::Disabled);
    job.advance(&mut cache, EncodeEvent::SourceChecked { exists: true });
    let a = job.advance(&mut cache, EncodeEvent::TranscoderProbed { ran_ok: false });
    assert!(matches!(a, EncodeAction::Finished { result: Err(EncodeError::TranscoderUnavailable) }));
    let (mut again, _) = start(SubtitleMode::Disabled);
    let a = again.advance(&mut cache, EncodeEvent::SourceChecked { exists: true });
    assert!(matches!(a, EncodeAction::Finished { result: Err(EncodeError::TranscoderUnavailable) }));
    assert!(!cache.record(true));
}

#[test]
fn process_failures_are_reported() {
    let mut cache = AvailabilityCache { known: Some(true) };
    let (mut job, _) = start(SubtitleMode::Disabled);
    job.advance(&mut cache, EncodeEvent::SourceChecked { exists: true });
    let a = job.advance(&mut cache, EncodeEvent::Exited { spawned: false, success: false });
    assert!(matches!(a, EncodeAction::Finished { result: Err(EncodeError::SpawnFailed) }));

    let (mut job, _) = start(SubtitleMode::Disabled);
    job.advance(&mut cache, EncodeEvent::SourceChecked { exists: true });
    let a = job.advance(&mut cache, EncodeEvent::Exited { spawned: true, success: false });
    assert!(matches!(a, EncodeAction::Finished { result: Err(EncodeError::NonzeroExit) }));
    assert_eq!(EncodeError::NonzeroExit.class(), ErrorClass::Process);
}

#[test]
fn missing_playlist_is_a_consistency_error() {
    let mut cache = AvailabilityCache { known: Some(true) };
    let (mut job, _) = start(SubtitleMode::Disabled);
    job.advance(&mut cache, EncodeEvent::SourceChecked { exists: true });
    job.advance(&mut cache, EncodeEvent::Exited { spawned: true, success: true });
    let a = job.advance(&mut cache, EncodeEvent::OutputChecked { exists: false });
    assert!(matches!(a, EncodeAction::Finished { result: Err(EncodeError::MissingPlaylist) }));
    assert_eq!(EncodeError::MissingPlaylist.class(), ErrorClass::Consistency);
}

#[test]
fn unsupported_channel_is_not_found() {
    let reg = JobRegistry::new();
    assert_eq!(reg.ensure_started("radio"), Err(ChannelError::NotFound));
    assert!(!reg.running);
}

#[test]
fn second_start_finds_loop_running() {
    let mut reg = JobRegistry::new();
    let mut spawned = 0;
    for _ in 0..2 {
        if reg.ensure_started("tv") == Ok(StartDecision::Start) && reg.finish_start("tv", true) {
            spawned += 1;
        }
    }
    assert_eq!(spawned, 1);
    assert_eq!(reg.ensure_started("tv"), Ok(StartDecision::AlreadyRunning));
    assert!(reg.is_running("tv"));
}

#[test]
fn failed_preparation_spawns_nothing() {
    let mut reg = JobRegistry::new();
    assert_eq!(reg.ensure_started("tv"), Ok(StartDecision::Start));
    assert!(!reg.finish_start("tv", false));
    assert_eq!(reg.ensure_started("tv"), Ok(StartDecision::Start));
}

#[test]
fn waiter_succeeds_once_file_exists() {
    assert_eq!(poll_decision(false, 0, 1000), PollDecision::Wait(200));
    assert_eq!(poll_decision(false, 200, 1000), PollDecision::Wait(200));
    assert_eq!(poll_decision(true, 400, 1000), PollDecision::Ready);
}

#[test]
fn waiter_fails_at_timeout() {
    assert_eq!(poll_decision(false, 0, 200), PollDecision::Wait(200));
    assert_eq!(poll_decision(false, 200, 200), PollDecision::TimedOut);
    assert_eq!(poll_decision(false, 100, 250), PollDecision::Wait(150));
}

#[test]
fn directory_reset_steps() {
    assert_eq!(reset_start(true), DirStep::Remove);
    assert_eq!(reset_start(false), DirStep::Create);
    assert_eq!(reset_next(DirStep::Remove, true), DirStep::Create);
    assert_eq!(reset_next(DirStep::Create, true), DirStep::Ready);
    assert_eq!(reset_next(DirStep::Remove, false), DirStep::Failed(DirError::RemoveFailed));
    assert_eq!(reset_next(DirStep::Create, false), DirStep::Failed(DirError::CreateFailed));
}

#[test]
fn stream_requests_are_planned() {
    assert_eq!(plan_stream("radio", true), Err(ChannelError::NotFound));
    assert_eq!(plan_stream("tv", true), Ok(StreamPlan::Redirect));
    assert_eq!(plan_stream("tv", false), Ok(StreamPlan::StartAndWait));
    assert_eq!(stream_location("tv"), "/hls/tv/index.m3u8");
}
