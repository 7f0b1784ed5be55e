//! External process invocations: the transcode command for a source and a
//! strategy, the two probes, and the channel's output paths.

use vstd::prelude::*;
use vstd::string::StringExecFns;
use vstd::string::StrSliceExecFns;
use crate::subtitles::SubtitleStrategy;

verus! {

/// `name` placed under the directory `dir`, with `/` between them where
/// `dir` does not end in one; an empty `dir` leaves `name` alone.
pub open spec fn joined(dir: Seq<char>, name: Seq<char>) -> Seq<char> {
    if dir.len() == 0 {
        name
    } else if dir.last() == '/' {
        dir + name
    } else {
        dir + seq!['/'] + name
    }
}

/// Joins a relative name onto a directory path.
pub fn join_path(dir: &str, name: &str) -> (r: String)
    ensures
        r@ == joined(dir@, name@),
{
    let n = dir.unicode_len();
    let mut r = String::from_str(dir);
    if n > 0 && dir.get_char(n - 1) != '/' {
        r.append("/");
        proof {
            reveal_strlit("/");
        }
    }
    r.append(name);
    r
}

/// The file name of a channel's live playlist.
pub const PLAYLIST_FILE: &'static str = "index.m3u8";

/// The file name pattern of a channel's segments: a nine-digit index.
pub const SEGMENT_PATTERN: &'static str = "%09d.ts";

/// The directory a channel writes into, under the output root.
pub fn channel_dir(root: &str, channel: &str) -> (r: String)
    ensures
        r@ == joined(root@, channel@),
{
    join_path(root, channel)
}

/// The live playlist's path within a channel directory.
pub fn playlist_path(dir: &str) -> (r: String)
    ensures
        r@ == joined(dir@, PLAYLIST_FILE@),
{
    join_path(dir, PLAYLIST_FILE)
}

/// A program and its arguments.
#[derive(Clone, Debug)]
pub struct ProcessCommand {
    pub program: String,
    pub args: Vec<String>,
}

/// The characters of each string.
pub open spec fn texts(v: Seq<String>) -> Seq<Seq<char>> {
    v.map_values(|s: String| s@)
}

fn push_arg(args: &mut Vec<String>, a: &str)
    ensures
        texts(final(args)@) == texts(old(args)@).push(a@),
{
    args.push(String::from_str(a));
    proof {
        assert(texts(final(args)@) =~= texts(old(args)@).push(a@));
    }
}

/// The filter that fits the video into a 1920x1080 canvas, letterboxed.
pub open spec fn fit_filter() -> Seq<char> {
    "scale=1920:1080:force_original_aspect_ratio=decrease,pad=1920:1080:(ow-iw)/2:(oh-ih)/2"@
}

/// The filter graph that fits the video, scales the first subtitle track to
/// the canvas and overlays it.
pub open spec fn burn_in_graph() -> Seq<char> {
    "[0:v:0]scale=1920:1080:force_original_aspect_ratio=decrease,pad=1920:1080:(ow-iw)/2:(oh-ih)/2[v];[0:s:0]scale=1920:1080[s];[v][s]overlay[vout]"@
}

/// The arguments that map tracks for a strategy.
pub open spec fn mapping_args(s: SubtitleStrategy) -> Seq<Seq<char>> {
    match s {
        SubtitleStrategy::Passthrough => seq!["-map"@, "0:v:0"@, "-map"@, "0:a?"@, "-vf"@, fit_filter()],
        SubtitleStrategy::ConvertToText => seq![
            "-map"@,
            "0:v:0"@,
            "-map"@,
            "0:a?"@,
            "-map"@,
            "0:s:0"@,
            "-vf"@,
            fit_filter(),
            "-c:s"@,
            "webvtt"@,
        ],
        SubtitleStrategy::BurnIn => seq!["-filter_complex"@, burn_in_graph(), "-map"@, "[vout]"@, "-map"@, "0:a?"@],
    }
}

/// The encoding settings and the segmented live output.
pub open spec fn encoding_args() -> Seq<Seq<char>> {
    seq![
        "-c:v"@,
        "libx264"@,
        "-preset"@,
        "veryfast"@,
        "-s"@,
        "1920x1080"@,
        "-b:v"@,
        "5M"@,
        "-maxrate"@,
        "5M"@,
        "-bufsize"@,
        "10M"@,
        "-c:a"@,
        "aac"@,
        "-b:a"@,
        "128k"@,
        "-f"@,
        "hls"@,
        "-hls_time"@,
        "4"@,
        "-hls_list_size"@,
        "5"@,
        "-hls_flags"@,
        "append_list+delete_segments+program_date_time+omit_endlist+independent_segments"@,
        "-hls_segment_filename"@,
    ]
}

/// The whole argument list of the transcode of `input` into `out_dir`.
pub open spec fn transcode_args(input: Seq<char>, out_dir: Seq<char>, s: SubtitleStrategy) -> Seq<Seq<char>> {
    seq!["-re"@, "-i"@, input] + mapping_args(s) + encoding_args() + seq![
        joined(out_dir, SEGMENT_PATTERN@),
        joined(out_dir, PLAYLIST_FILE@),
    ]
}

fn push_mapping(args: &mut Vec<String>, s: SubtitleStrategy)
    ensures
        texts(final(args)@) == texts(old(args)@) + mapping_args(s),
{
    let ghost start = texts(args@);
    match s {
        SubtitleStrategy::Passthrough => {
            push_arg(args, "-map");
            push_arg(args, "0:v:0");
            push_arg(args, "-map");
            push_arg(args, "0:a?");
            push_arg(args, "-vf");
            push_arg(args, "scale=1920:1080:force_original_aspect_ratio=decrease,pad=1920:1080:(ow-iw)/2:(oh-ih)/2");
        },
        SubtitleStrategy::ConvertToText => {
            push_arg(args, "-map");
            push_arg(args, "0:v:0");
            push_arg(args, "-map");
            push_arg(args, "0:a?");
            push_arg(args, "-map");
            push_arg(args, "0:s:0");
            push_arg(args, "-vf");
            push_arg(args, "scale=1920:1080:force_original_aspect_ratio=decrease,pad=1920:1080:(ow-iw)/2:(oh-ih)/2");
            push_arg(args, "-c:s");
            push_arg(args, "webvtt");
        },
        SubtitleStrategy::BurnIn => {
            push_arg(args, "-filter_complex");
            push_arg(
                args,
                "[0:v:0]scale=1920:1080:force_original_aspect_ratio=decrease,pad=1920:1080:(ow-iw)/2:(oh-ih)/2[v];[0:s:0]scale=1920:1080[s];[v][s]overlay[vout]",
            );
            push_arg(args, "-map");
            push_arg(args, "[vout]");
            push_arg(args, "-map");
            push_arg(args, "0:a?");
        },
    }
    assert(texts(args@) =~= start + mapping_args(s));
}

fn push_encoding(args: &mut Vec<String>)
    ensures
        texts(final(args)@) == texts(old(args)@) + encoding_args(),
{
    let ghost start = texts(args@);
    push_arg(args, "-c:v");
    push_arg(args, "libx264");
    push_arg(args, "-preset");
    push_arg(args, "veryfast");
    push_arg(args, "-s");
    push_arg(args, "1920x1080");
    push_arg(args, "-b:v");
    push_arg(args, "5M");
    push_arg(args, "-maxrate");
    push_arg(args, "5M");
    push_arg(args, "-bufsize");
    push_arg(args, "10M");
    push_arg(args, "-c:a");
    push_arg(args, "aac");
    push_arg(args, "-b:a");
    push_arg(args, "128k");
    push_arg(args, "-f");
    push_arg(args, "hls");
    push_arg(args, "-hls_time");
    push_arg(args, "4");
    push_arg(args, "-hls_list_size");
    push_arg(args, "5");
    push_arg(args, "-hls_flags");
    push_arg(args, "append_list+delete_segments+program_date_time+omit_endlist+independent_segments");
    push_arg(args, "-hls_segment_filename");
    assert(texts(args@) =~= start + encoding_args());
}

/// The transcode of `input` into the segmented live output in `out_dir`:
/// read at native rate, fit to 1920x1080, map tracks as the strategy says,
/// encode at 5 Mbps, and write 4-second segments in a five-segment window.
pub fn build_transcode_command(input: &str, out_dir: &str, strategy: SubtitleStrategy) -> (r: ProcessCommand)
    ensures
        r.program@ == "ffmpeg"@,
        texts(r.args@) == transcode_args(input@, out_dir@, strategy),
{
    let mut args: Vec<String> = Vec::new();
    push_arg(&mut args, "-re");
    push_arg(&mut args, "-i");
    push_arg(&mut args, input);
    push_mapping(&mut args, strategy);
    push_encoding(&mut args);
    let seg = join_path(out_dir, SEGMENT_PATTERN);
    let ghost before = texts(args@);
    args.push(seg);
    let list = join_path(out_dir, PLAYLIST_FILE);
    args.push(list);
    assert(texts(args@) =~= before.push(joined(out_dir@, SEGMENT_PATTERN@)).push(joined(out_dir@, PLAYLIST_FILE@)));
    assert(texts(args@) =~= transcode_args(input@, out_dir@, strategy));
    ProcessCommand { program: String::from_str("ffmpeg"), args }
}

/// The probe of the subtitle streams of `input`, written as JSON.
pub fn subtitle_probe_command(input: &str) -> (r: ProcessCommand)
    ensures
        r.program@ == "ffprobe"@,
        texts(r.args@) == seq![
            "-v"@,
            "quiet"@,
            "-print_format"@,
            "json"@,
            "-show_streams"@,
            "-select_streams"@,
            "s"@,
            input@,
        ],
{
    let mut args: Vec<String> = Vec::new();
    push_arg(&mut args, "-v");
    push_arg(&mut args, "quiet");
    push_arg(&mut args, "-print_format");
    push_arg(&mut args, "json");
    push_arg(&mut args, "-show_streams");
    push_arg(&mut args, "-select_streams");
    push_arg(&mut args, "s");
    push_arg(&mut args, input);
    ProcessCommand { program: String::from_str("ffprobe"), args }
}

/// The check that the transcoder runs at all.
pub fn version_probe_command() -> (r: ProcessCommand)
    ensures
        r.program@ == "ffmpeg"@,
        texts(r.args@) == seq!["-version"@],
{
    let mut args: Vec<String> = Vec::new();
    push_arg(&mut args, "-version");
    ProcessCommand { program: String::from_str("ffmpeg"), args }
}

} // verus!
