//! The subtitle strategy resolver: how a source's subtitle tracks are
//! handled, decided from the subtitle mode and the metadata probe's output.

use vstd::prelude::*;
use crate::models::SubtitleMode;

verus! {

/// Whether `needle` occurs in `hay` as a contiguous run of characters.
pub open spec fn seq_contains(hay: Seq<char>, needle: Seq<char>) -> bool {
    exists|i: int| 0 <= i && i + needle.len() <= hay.len() && #[trigger] hay.subrange(i, i + needle.len()) == needle
}

/// Relies on `str::contains` with a `&str` pattern: true exactly when the
/// pattern occurs in the string.
#[verifier::external_body]
fn text_contains(hay: &str, needle: &str) -> (r: bool)
    ensures
        r == seq_contains(hay@, needle@),
{
    hay.contains(needle)
}

/// How a source's subtitles are carried into the stream.
#[derive(Clone, Copy, Debug, PartialEq, Eq, Structural)]
pub enum SubtitleStrategy {
    /// Video and audio only; subtitle tracks are dropped.
    Passthrough,
    /// The first subtitle track is re-encoded as text subtitles.
    ConvertToText,
    /// The first subtitle track is drawn into the video.
    BurnIn,
}

/// The probe output names a text-based subtitle codec.
pub open spec fn mentions_text_codec(out: Seq<char>) -> bool {
    ||| seq_contains(out, "subrip"@)
    ||| seq_contains(out, "srt"@)
    ||| seq_contains(out, "ass"@)
    ||| seq_contains(out, "ssa"@)
    ||| seq_contains(out, "mov_text"@)
    ||| seq_contains(out, "webvtt"@)
    ||| seq_contains(out, "text"@)
}

/// The probe output names a bitmap-based subtitle codec.
pub open spec fn mentions_bitmap_codec(out: Seq<char>) -> bool {
    ||| seq_contains(out, "hdmv_pgs_subtitle"@)
    ||| seq_contains(out, "dvd_subtitle"@)
    ||| seq_contains(out, "dvdsub"@)
    ||| seq_contains(out, "pgssub"@)
}

/// The probe output describes a subtitle stream of some codec.
pub open spec fn mentions_subtitle_stream(out: Seq<char>) -> bool {
    seq_contains(out, "\"codec_type\": \"subtitle\""@)
}

/// The strategy that a successful probe's output calls for: text codecs
/// first, then bitmap codecs, then any subtitle stream (burned in); with no
/// subtitle stream, passthrough.
pub open spec fn probe_strategy(out: Seq<char>) -> SubtitleStrategy {
    if mentions_text_codec(out) {
        SubtitleStrategy::ConvertToText
    } else if mentions_bitmap_codec(out) {
        SubtitleStrategy::BurnIn
    } else if mentions_subtitle_stream(out) {
        SubtitleStrategy::BurnIn
    } else {
        SubtitleStrategy::Passthrough
    }
}

/// The strategy for a mode and a probe outcome (`None`: the probe failed).
pub open spec fn resolved_strategy(mode: SubtitleMode, probe: Option<Seq<char>>) -> SubtitleStrategy {
    match mode {
        SubtitleMode::Disabled => SubtitleStrategy::Passthrough,
        SubtitleMode::Smart => match probe {
            None => SubtitleStrategy::BurnIn,
            Some(out) => probe_strategy(out),
        },
    }
}

fn names_text_codec(out: &str) -> (r: bool)
    ensures
        r == mentions_text_codec(out@),
{
    text_contains(out, "subrip") || text_contains(out, "srt") || text_contains(out, "ass")
        || text_contains(out, "ssa") || text_contains(out, "mov_text") || text_contains(out, "webvtt")
        || text_contains(out, "text")
}

fn names_bitmap_codec(out: &str) -> (r: bool)
    ensures
        r == mentions_bitmap_codec(out@),
{
    text_contains(out, "hdmv_pgs_subtitle") || text_contains(out, "dvd_subtitle") || text_contains(
        out,
        "dvdsub",
    ) || text_contains(out, "pgssub")
}

/// Classifies the output of a successful subtitle probe.
pub fn classify_probe_output(out: &str) -> (r: SubtitleStrategy)
    ensures
        r == probe_strategy(out@),
{
    if names_text_codec(out) {
        SubtitleStrategy::ConvertToText
    } else if names_bitmap_codec(out) {
        SubtitleStrategy::BurnIn
    } else if text_contains(out, "\"codec_type\": \"subtitle\"") {
        SubtitleStrategy::BurnIn
    } else {
        SubtitleStrategy::Passthrough
    }
}

/// The strategy for `mode`, given the probe's output, or `None` where the
/// probe failed (the tool missing, a nonzero exit): a failed probe burns in.
pub fn resolve_strategy(mode: SubtitleMode, probe: Option<&str>) -> (r: SubtitleStrategy)
    ensures
        r == resolved_strategy(
            mode,
            match probe {
                Some(s) => Some(s@),
                None => None,
            },
        ),
{
    match mode {
        SubtitleMode::Disabled => SubtitleStrategy::Passthrough,
        SubtitleMode::Smart => match probe {
            None => SubtitleStrategy::BurnIn,
            Some(out) => classify_probe_output(out),
        },
    }
}

/// The resolver's classes: a probe output naming "subrip" converts to text;
/// one naming "dvd_subtitle" and no text codec burns in; one with no
/// subtitle marker at all passes through; a failed probe burns in; with
/// subtitles disabled nothing is probed and everything passes through.
pub proof fn lemma_resolver_classes(out: Seq<char>, probe: Option<Seq<char>>)
    ensures
        seq_contains(out, "subrip"@) ==> probe_strategy(out) == SubtitleStrategy::ConvertToText,
        seq_contains(out, "dvd_subtitle"@) && !mentions_text_codec(out) ==> probe_strategy(out)
            == SubtitleStrategy::BurnIn,
        !mentions_text_codec(out) && !mentions_bitmap_codec(out) && !mentions_subtitle_stream(out)
            ==> probe_strategy(out) == SubtitleStrategy::Passthrough,
        resolved_strategy(SubtitleMode::Smart, None) == SubtitleStrategy::BurnIn,
        resolved_strategy(SubtitleMode::Disabled, probe) == SubtitleStrategy::Passthrough,
{
}

} // verus!
