//! Library scanning logic: which files are videos, and what a file's path
//! says about its show and episode.

use vstd::prelude::*;
use vstd::string::StringExecFns;
use vstd::string::StrSliceExecFns;
use crate::library::{has_show, names_unique, Show, ShowLibrary};
use crate::models::{same_text, Episode};
use crate::order::{lemma_insert_multiset, lemma_text_order, text_less, text_lt};

verus! {

/// What `Path::file_stem` gives for a path, as text.
pub uninterp spec fn stem_of(path: Seq<char>) -> Option<Seq<char>>;

/// What `Path::parent` gives for a path, as text.
pub uninterp spec fn parent_of(path: Seq<char>) -> Option<Seq<char>>;

/// What `Path::file_name` gives for a path, as text.
pub uninterp spec fn file_name_of(path: Seq<char>) -> Option<Seq<char>>;

/// What `Path::extension` gives for a path, as text.
pub uninterp spec fn extension_of(path: Seq<char>) -> Option<Seq<char>>;

/// What `str::to_lowercase` gives for a string.
pub uninterp spec fn lower_of(s: Seq<char>) -> Seq<char>;

/// The match of a regular expression on a text: `None` when nothing
/// matches, else the text of capture group 1 of the first match (`None`
/// inside when the group took no part).
pub uninterp spec fn first_group_of(pattern: Seq<char>, text: Seq<char>) -> Option<Option<Seq<char>>>;

pub open spec fn text_view(o: Option<String>) -> Option<Seq<char>> {
    match o {
        Some(s) => Some(s@),
        None => None,
    }
}

pub open spec fn group_view(o: Option<Option<String>>) -> Option<Option<Seq<char>>> {
    match o {
        Some(g) => Some(text_view(g)),
        None => None,
    }
}

/// Relies on `std::path::Path::file_stem`: the file name without its last
/// extension, as text.
#[verifier::external_body]
fn path_stem(path: &str) -> (r: Option<String>)
    ensures
        text_view(r) == stem_of(path@),
{
    std::path::Path::new(path).file_stem().and_then(|s| s.to_str()).map(|s| s.to_string())
}

/// Relies on `std::path::Path::parent`: the path without its last component.
#[verifier::external_body]
fn path_parent(path: &str) -> (r: Option<String>)
    ensures
        text_view(r) == parent_of(path@),
{
    std::path::Path::new(path).parent().and_then(|s| s.to_str()).map(|s| s.to_string())
}

/// Relies on `std::path::Path::file_name`: the last component of the path.
#[verifier::external_body]
fn path_file_name(path: &str) -> (r: Option<String>)
    ensures
        text_view(r) == file_name_of(path@),
{
    std::path::Path::new(path).file_name().and_then(|s| s.to_str()).map(|s| s.to_string())
}

/// Relies on `std::path::Path::extension`: the text after the last dot of
/// the file name.
#[verifier::external_body]
fn path_extension(path: &str) -> (r: Option<String>)
    ensures
        text_view(r) == extension_of(path@),
{
    std::path::Path::new(path).extension().and_then(|s| s.to_str()).map(|s| s.to_string())
}

/// Relies on `str::to_lowercase`: the lowercase form of the string, which
/// depends on its characters alone.
#[verifier::external_body]
fn lowercase(s: &str) -> (r: String)
    ensures
        r@ == lower_of(s@),
{
    s.to_lowercase()
}

/// Relies on `regex::Regex::new` and `regex::Regex::captures`: the pattern is
/// compiled (one that does not compile matches nothing) and searched for in
/// `text`; of the first match, the text of capture group 1 is returned.
#[verifier::external_body]
fn first_group(pattern: &str, text: &str) -> (r: Option<Option<String>>)
    ensures
        group_view(r) == first_group_of(pattern@, text@),
{
    match regex::Regex::new(pattern) {
        Ok(re) => re.captures(text).map(|c| c.get(1).map(|m| m.as_str().to_string())),
        Err(_) => None,
    }
}

/// The extensions that mark a video file, in lowercase.
pub open spec fn is_video_extension(e: Seq<char>) -> bool {
    ||| e == "mp4"@
    ||| e == "mkv"@
    ||| e == "avi"@
    ||| e == "mov"@
    ||| e == "wmv"@
    ||| e == "flv"@
    ||| e == "webm"@
    ||| e == "m4v"@
}

/// A path is a video when its extension, in lowercase, is a video extension.
pub open spec fn is_video_path(path: Seq<char>) -> bool {
    extension_of(path) matches Some(e) && is_video_extension(lower_of(e))
}

/// Whether `path` names a video file by its extension, in any case.
pub fn is_video_file(path: &str) -> (r: bool)
    ensures
        r == is_video_path(path@),
{
    match path_extension(path) {
        None => false,
        Some(ext) => {
            let e = lowercase(ext.as_str());
            let s = e.as_str();
            same_text(s, "mp4") || same_text(s, "mkv") || same_text(s, "avi") || same_text(s, "mov")
                || same_text(s, "wmv") || same_text(s, "flv") || same_text(s, "webm") || same_text(
                s,
                "m4v",
            )
        },
    }
}

/// The paths, in order, that name video files.
pub fn filter_video_files(paths: &Vec<String>) -> (r: Vec<String>)
    ensures
        r@.map_values(|s: String| s@) == paths@.map_values(|s: String| s@).filter(|p: Seq<char>| is_video_path(p)),
{
    let mut r: Vec<String> = Vec::new();
    let mut i: usize = 0;
    let ghost all = paths@.map_values(|s: String| s@);
    let ghost keep = |p: Seq<char>| is_video_path(p);
    while i < paths.len()
        invariant
            i <= paths@.len(),
            all == paths@.map_values(|s: String| s@),
            keep == (|p: Seq<char>| is_video_path(p)),
            r@.map_values(|s: String| s@) == all.subrange(0, i as int).filter(keep),
        decreases paths.len() - i,
    {
        let ghost prev = r@;
        let v = is_video_file(paths[i].as_str());
        if v {
            r.push(paths[i].clone());
        }
        proof {
            assert(all.subrange(0, i + 1) =~= all.subrange(0, i as int).push(all[i as int]));
            all.subrange(0, i as int).lemma_filter_push(all[i as int], keep);
            if v {
                assert(r@.map_values(|s: String| s@) =~= prev.map_values(|s: String| s@).push(all[i as int]));
            } else {
                assert(r@ == prev);
            }
        }
        i = i + 1;
    }
    assert(all.subrange(0, paths@.len() as int) =~= all);
    r
}

/// Whether every character is an ASCII digit.
pub open spec fn all_digits(s: Seq<char>) -> bool {
    forall|i: int| 0 <= i < s.len() ==> '0' <= #[trigger] s[i] <= '9'
}

/// The value of a run of decimal digits.
pub open spec fn digits_value(s: Seq<char>) -> nat
    decreases s.len(),
{
    if s.len() == 0 {
        0
    } else {
        digits_value(s.drop_last()) * 10 + (s.last() as nat - '0' as nat) as nat
    }
}

/// What `usize::from_str` accepts: an optional `+`, then one or more ASCII
/// digits whose value fits in `usize`.
pub open spec fn parsed_usize(s: Seq<char>) -> Option<usize> {
    let d = if s.len() > 0 && s[0] == '+' {
        s.drop_first()
    } else {
        s
    };
    if d.len() > 0 && all_digits(d) && digits_value(d) <= usize::MAX {
        Some(digits_value(d) as usize)
    } else {
        None
    }
}

proof fn lemma_digits_grow(s: Seq<char>, i: int, j: int)
    requires
        0 <= i <= j <= s.len(),
        all_digits(s),
    ensures
        digits_value(s.subrange(0, i)) <= digits_value(s.subrange(0, j)),
    decreases j - i,
{
    if i < j {
        lemma_digits_grow(s, i, j - 1);
        assert(s.subrange(0, j).drop_last() =~= s.subrange(0, j - 1));
        assert('0' <= s[j - 1] <= '9');
    }
}

/// Reads a decimal number as `usize::from_str` does.
pub fn parse_usize(s: &str) -> (r: Option<usize>)
    ensures
        r == parsed_usize(s@),
{
    let n = s.unicode_len();
    let mut i: usize = 0;
    if n > 0 && s.get_char(0) == '+' {
        i = 1;
    }
    let start = i;
    let ghost d = s@.subrange(start as int, n as int);
    proof {
        if n > 0 && s@[0] == '+' {
            assert(d =~= s@.drop_first());
        } else {
            assert(d =~= s@);
        }
    }
    if i >= n {
        return None;
    }
    let mut acc: usize = 0;
    while i < n
        invariant
            n == s@.len(),
            start <= i <= n,
            start < n,
            d == s@.subrange(start as int, n as int),
            parsed_usize(s@) == (if all_digits(d) && digits_value(d) <= usize::MAX {
                Some(digits_value(d) as usize)
            } else {
                None
            }),
            all_digits(d.subrange(0, i - start)),
            acc == digits_value(d.subrange(0, i - start)),
        decreases n - i,
    {
        let c = s.get_char(i);
        if c < '0' || c > '9' {
            assert(d[i - start] == c);
            assert(!('0' <= d[i - start] <= '9'));
            return None;
        }
        let digit = (c as u32 - '0' as u32) as usize;
        let ghost k = i - start;
        proof {
            assert(d.subrange(0, k + 1).drop_last() =~= d.subrange(0, k));
            assert(d.subrange(0, k + 1).last() == c);
            assert(all_digits(d.subrange(0, k + 1))) by {
                assert forall|m: int| 0 <= m < k + 1 implies '0' <= #[trigger] d.subrange(0, k + 1)[m] <= '9' by {
                    if m < k {
                        assert(d.subrange(0, k + 1)[m] == d.subrange(0, k)[m]);
                    }
                }
            }
        }
        match acc.checked_mul(10) {
            None => {
                proof {
                    if all_digits(d) {
                        lemma_digits_grow(d, k + 1, d.len() as int);
                        assert(d.subrange(0, d.len() as int) =~= d);
                    }
                }
                return None;
            },
            Some(m) => match m.checked_add(digit) {
                None => {
                    proof {
                        if all_digits(d) {
                            lemma_digits_grow(d, k + 1, d.len() as int);
                            assert(d.subrange(0, d.len() as int) =~= d);
                        }
                    }
                    return None;
                },
                Some(v) => {
                    acc = v;
                },
            },
        }
        i = i + 1;
    }
    assert(d.subrange(0, n - start) =~= d);
    Some(acc)
}

/// The number a capture gives: the parsed group, where there is one.
pub open spec fn group_number(g: Option<Seq<char>>) -> Option<usize> {
    match g {
        Some(t) => parsed_usize(t),
        None => None,
    }
}

pub open spec fn pattern_dash() -> Seq<char> {
    "- (\\d+)"@
}

pub open spec fn pattern_word() -> Seq<char> {
    "(?i)(?:episode|ep)\\s+(\\d+)"@
}

pub open spec fn pattern_trailing() -> Seq<char> {
    "\\s+(\\d+)$"@
}

/// The episode number a file name carries: the first of "Name - 01",
/// "Name Episode 5" / "Name Ep 5", "Name 01" that matches decides.
pub open spec fn episode_number_of(name: Seq<char>) -> Option<usize> {
    match first_group_of(pattern_dash(), name) {
        Some(g) => group_number(g),
        None => match first_group_of(pattern_word(), name) {
            Some(g) => group_number(g),
            None => match first_group_of(pattern_trailing(), name) {
                Some(g) => group_number(g),
                None => None,
            },
        },
    }
}

fn number_of_group(g: Option<String>) -> (r: Option<usize>)
    ensures
        r == group_number(text_view(g)),
{
    match g {
        Some(t) => parse_usize(t.as_str()),
        None => None,
    }
}

/// Reads the episode number out of a file name.
pub fn extract_episode_number(filename: &str) -> (r: Option<usize>)
    ensures
        r == episode_number_of(filename@),
{
    if let Some(g) = first_group(r"- (\d+)", filename) {
        return number_of_group(g);
    }
    if let Some(g) = first_group(r"(?i)(?:episode|ep)\s+(\d+)", filename) {
        return number_of_group(g);
    }
    if let Some(g) = first_group(r"\s+(\d+)$", filename) {
        return number_of_group(g);
    }
    None
}

/// The episode a path describes, before it is given its id: named by the
/// file stem, of the show named by the parent directory, "Unknown" where
/// either is missing.
pub open spec fn episode_info(path: Seq<char>) -> (Seq<char>, Seq<char>, Option<usize>) {
    let name = match stem_of(path) {
        Some(s) => s,
        None => "Unknown"@,
    };
    let show = match parent_of(path) {
        Some(p) => match file_name_of(p) {
            Some(f) => f,
            None => "Unknown"@,
        },
        None => "Unknown"@,
    };
    (name, show, episode_number_of(name))
}

/// The episode that the file at `file_path` holds, with id 0.
pub fn parse_episode_info(file_path: &str) -> (r: Episode)
    ensures
        r.id == 0,
        r.file_path@ == file_path@,
        (r.name@, r.show_name@, r.episode_number) == episode_info(file_path@),
{
    let name = match path_stem(file_path) {
        Some(s) => s,
        None => String::from_str("Unknown"),
    };
    let show = match path_parent(file_path) {
        Some(p) => match path_file_name(p.as_str()) {
            Some(f) => f,
            None => String::from_str("Unknown"),
        },
        None => String::from_str("Unknown"),
    };
    let episode_number = extract_episode_number(name.as_str());
    Episode { id: 0, name, file_path: String::from_str(file_path), show_name: show, episode_number }
}

/// Episode order within a show: numbered episodes by number, then those
/// without a number by name. `a` comes strictly before `b`.
pub open spec fn episode_before(a: Episode, b: Episode) -> bool {
    match (a.episode_number, b.episode_number) {
        (Some(x), Some(y)) => x < y,
        (Some(_), None) => true,
        (None, Some(_)) => false,
        (None, None) => text_lt(a.name@, b.name@),
    }
}

/// No episode comes strictly before one that precedes it.
pub open spec fn sorted_episodes(s: Seq<Episode>) -> bool {
    forall|i: int, j: int| 0 <= i < j < s.len() ==> !episode_before(s[j], s[i])
}

/// What an episode holds besides its id.
pub open spec fn info_of(e: Episode) -> (Seq<char>, Seq<char>, Seq<char>, Option<usize>) {
    (e.name@, e.file_path@, e.show_name@, e.episode_number)
}

/// What the episode read from `path` holds besides its id.
pub open spec fn path_info(path: Seq<char>) -> (Seq<char>, Seq<char>, Seq<char>, Option<usize>) {
    (episode_info(path).0, path, episode_info(path).1, episode_info(path).2)
}

/// The paths, in order, whose episodes belong to the show `name`.
pub open spec fn paths_of_show(paths: Seq<Seq<char>>, name: Seq<char>) -> Seq<Seq<char>> {
    paths.filter(|p: Seq<char>| episode_info(p).1 == name)
}

proof fn lemma_before_order(a: Episode, b: Episode, c: Episode)
    ensures
        !episode_before(a, a),
        episode_before(a, b) ==> !episode_before(b, a),
        !episode_before(a, b) && !episode_before(b, c) ==> !episode_before(a, c),
{
    lemma_text_order(a.name@, b.name@, c.name@);
    lemma_text_order(b.name@, c.name@, a.name@);
    lemma_text_order(c.name@, a.name@, b.name@);
    lemma_text_order(a.name@, c.name@, b.name@);
    lemma_text_order(b.name@, a.name@, c.name@);
    lemma_text_order(c.name@, b.name@, a.name@);
}

fn episode_less(a: &Episode, b: &Episode) -> (r: bool)
    ensures
        r == episode_before(*a, *b),
{
    match (a.episode_number, b.episode_number) {
        (Some(x), Some(y)) => x < y,
        (Some(_), None) => true,
        (None, Some(_)) => false,
        (None, None) => text_less(a.name.as_str(), b.name.as_str()),
    }
}

/// The episodes in episode order; equal ones keep their relative order.
pub fn sort_episodes(v: &Vec<Episode>) -> (r: Vec<Episode>)
    ensures
        sorted_episodes(r@),
        r@.map_values(|e: Episode| info_of(e)).to_multiset() == v@.map_values(|e: Episode| info_of(e)).to_multiset(),
{
    let mut r: Vec<Episode> = Vec::new();
    let mut i: usize = 0;
    assert(r@.map_values(|e: Episode| info_of(e)) =~= v@.subrange(0, 0).map_values(|e: Episode| info_of(e)));
    while i < v.len()
        invariant
            i <= v@.len(),
            sorted_episodes(r@),
            r@.map_values(|e: Episode| info_of(e)).to_multiset() == v@.subrange(0, i as int).map_values(
                |e: Episode| info_of(e),
            ).to_multiset(),
        decreases v.len() - i,
    {
        let x = v[i].duplicate();
        let ghost before = r@;
        let mut j: usize = r.len();
        while j > 0 && episode_less(&x, &r[j - 1])
            invariant
                j <= r@.len(),
                r@ == before,
                forall|k: int| j <= k < before.len() ==> episode_before(x, before[k]),
            decreases j,
        {
            j = j - 1;
        }
        r.insert(j, x);
        proof {
            let after = r@;
            assert(after =~= before.insert(j as int, x));
            assert forall|a: int, b: int| 0 <= a < b < after.len() implies !episode_before(after[b], after[a]) by {
                if b == j {
                    if a < j - 1 {
                        lemma_before_order(x, before[j - 1], before[a]);
                    }
                } else if a == j {
                    lemma_before_order(x, before[b - 1], x);
                } else if a < j && b > j {
                    assert(after[b] == before[b - 1]);
                } else if a > j {
                    assert(after[a] == before[a - 1] && after[b] == before[b - 1]);
                }
            }
            let f = |e: Episode| info_of(e);
            assert(after.map_values(f) =~= before.map_values(f).insert(j as int, info_of(x)));
            lemma_insert_multiset(before.map_values(f), j as int, info_of(x));
            let p = v@.subrange(0, i as int);
            assert(v@.subrange(0, i + 1) =~= p.push(v@[i as int]));
            assert(p.push(v@[i as int]).map_values(f) =~= p.map_values(f).push(info_of(x)));
            p.map_values(f).to_multiset_ensures();
        }
        i = i + 1;
    }
    assert(v@.subrange(0, v@.len() as int) =~= v@);
    r
}

/// The episodes with ids set to their positions.
fn renumber(v: Vec<Episode>) -> (r: Vec<Episode>)
    ensures
        r@.len() == v@.len(),
        forall|k: int| 0 <= k < r@.len() ==> (#[trigger] r@[k]).id == k,
        r@.map_values(|e: Episode| info_of(e)) == v@.map_values(|e: Episode| info_of(e)),
        forall|k: int| 0 <= k < r@.len() ==> (#[trigger] r@[k]).episode_number == v@[k].episode_number && r@[k].name
            == v@[k].name && r@[k].show_name == v@[k].show_name,
{
    let mut r: Vec<Episode> = Vec::new();
    let mut k: usize = 0;
    while k < v.len()
        invariant
            k <= v@.len(),
            r@.len() == k,
            forall|m: int| 0 <= m < k ==> (#[trigger] r@[m]).id == m,
            forall|m: int|
                0 <= m < k ==> (#[trigger] r@[m]).episode_number == v@[m].episode_number && r@[m].name == v@[m].name
                    && r@[m].show_name == v@[m].show_name && r@[m].file_path == v@[m].file_path,
        decreases v.len() - k,
    {
        let e = &v[k];
        r.push(
            Episode {
                id: k,
                name: e.name.clone(),
                file_path: e.file_path.clone(),
                show_name: e.show_name.clone(),
                episode_number: e.episode_number,
            },
        );
        k = k + 1;
    }
    assert(r@.map_values(|e: Episode| info_of(e)) =~= v@.map_values(|e: Episode| info_of(e)));
    r
}

fn show_position(shows: &Vec<Show>, name: &String) -> (r: Option<usize>)
    ensures
        match r {
            Some(k) => k < shows@.len() && shows@[k as int].name@ == name@,
            None => forall|m: int| 0 <= m < shows@.len() ==> shows@[m].name@ != name@,
        },
{
    let mut k: usize = 0;
    while k < shows.len()
        invariant
            k <= shows@.len(),
            forall|m: int| 0 <= m < k ==> shows@[m].name@ != name@,
        decreases shows.len() - k,
    {
        if shows[k].name == *name {
            return Some(k);
        }
        k = k + 1;
    }
    None
}

/// Groups the video files into shows by parent directory, sorts each show's
/// episodes by number, then unnumbered ones by name, and numbers them from 0.
pub fn organize_shows_and_episodes(video_files: &Vec<String>) -> (r: ShowLibrary)
    ensures
        r.wf(),
        forall|p: Seq<char>|
            video_files@.map_values(|s: String| s@).contains(p) ==> has_show(r@, #[trigger] episode_info(p).1),
        forall|k: int|
            #![trigger r@[k]]
            0 <= k < r@.len() ==> {
                let eps = r@[k].episodes@;
                &&& eps.len() > 0
                &&& sorted_episodes(eps)
                &&& forall|m: int| 0 <= m < eps.len() ==> (#[trigger] eps[m]).id == m
                &&& eps.map_values(|e: Episode| info_of(e)).to_multiset() == paths_of_show(
                    video_files@.map_values(|s: String| s@),
                    r@[k].name@,
                ).map_values(|p: Seq<char>| path_info(p)).to_multiset()
            },
{
    let ghost all = video_files@.map_values(|s: String| s@);
    let ghost f = |e: Episode| info_of(e);
    let ghost g = |p: Seq<char>| path_info(p);
    let mut shows: Vec<Show> = Vec::new();
    let mut i: usize = 0;
    while i < video_files.len()
        invariant
            i <= video_files@.len(),
            all == video_files@.map_values(|s: String| s@),
            f == (|e: Episode| info_of(e)),
            g == (|p: Seq<char>| path_info(p)),
            names_unique(shows@),
            forall|p: Seq<char>| all.subrange(0, i as int).contains(p) ==> has_show(shows@, #[trigger] episode_info(p).1),
            forall|k: int|
                #![trigger shows@[k]]
                0 <= k < shows@.len() ==> shows@[k].episodes@.len() > 0 && shows@[k].episodes@.map_values(f)
                    == paths_of_show(all.subrange(0, i as int), shows@[k].name@).map_values(g),
        decreases video_files.len() - i,
    {
        let ep = parse_episode_info(video_files[i].as_str());
        let ghost path = all[i as int];
        let ghost prefix = all.subrange(0, i as int);
        let ghost old_shows = shows@;
        proof {
            assert(all.subrange(0, i + 1) =~= prefix.push(path));
            assert(info_of(ep) == path_info(path));
        }
        match show_position(&shows, &ep.show_name) {
            Some(k) => {
                let mut s = shows.remove(k);
                s.episodes.push(ep);
                shows.insert(k, s);
                proof {
                    let new_shows = shows@;
                    assert(new_shows =~= old_shows.update(k as int, new_shows[k as int]));
                    assert forall|a: int, b: int|
                        0 <= a < new_shows.len() && 0 <= b < new_shows.len() && a != b implies new_shows[a].name@
                        != new_shows[b].name@ by {
                        assert(new_shows[a].name == old_shows[a].name);
                        assert(new_shows[b].name == old_shows[b].name);
                    }
                    assert forall|p: Seq<char>| all.subrange(0, i + 1).contains(p) implies has_show(
                        new_shows,
                        #[trigger] episode_info(p).1,
                    ) by {
                        if p == path {
                            assert(new_shows[k as int].name@ == episode_info(p).1);
                        } else {
                            let x = choose|x: int| 0 <= x < prefix.push(path).len() && prefix.push(path)[x] == p;
                            assert(prefix[x] == p);
                            assert(prefix.contains(p));
                            let y = choose|y: int| 0 <= y < old_shows.len() && old_shows[y].name@ == episode_info(p).1;
                            assert(new_shows[y].name == old_shows[y].name);
                        }
                    }
                    assert forall|m: int|
                        #![trigger new_shows[m]]
                        0 <= m < new_shows.len() implies new_shows[m].episodes@.len() > 0
                            && new_shows[m].episodes@.map_values(f) == paths_of_show(
                            all.subrange(0, i + 1),
                            new_shows[m].name@,
                        ).map_values(g) by {
                        let sel = |p: Seq<char>| episode_info(p).1 == new_shows[m].name@;
                        prefix.lemma_filter_push(path, sel);
                        assert(new_shows[m].name == old_shows[m].name);
                        if m == k {
                            assert(new_shows[m].episodes@.map_values(f) =~= old_shows[m].episodes@.map_values(f).push(
                                info_of(ep),
                            ));
                            assert(prefix.push(path).filter(sel).map_values(g) =~= prefix.filter(sel).map_values(g).push(
                                g(path),
                            ));
                        } else {
                            assert(new_shows[m] == old_shows[m]);
                        }
                    }
                }
            },
            None => {
                let name = ep.show_name.clone();
                let mut eps: Vec<Episode> = Vec::new();
                eps.push(ep);
                shows.push(Show { name, episodes: eps });
                proof {
                    let new_shows = shows@;
                    let n = old_shows.len() as int;
                    assert forall|a: int, b: int|
                        0 <= a < new_shows.len() && 0 <= b < new_shows.len() && a != b implies new_shows[a].name@
                        != new_shows[b].name@ by {
                        if a < n {
                            assert(new_shows[a] == old_shows[a]);
                        }
                        if b < n {
                            assert(new_shows[b] == old_shows[b]);
                        }
                    }
                    assert forall|p: Seq<char>| all.subrange(0, i + 1).contains(p) implies has_show(
                        new_shows,
                        #[trigger] episode_info(p).1,
                    ) by {
                        if p == path {
                            assert(new_shows[n].name@ == episode_info(p).1);
                        } else {
                            let x = choose|x: int| 0 <= x < prefix.push(path).len() && prefix.push(path)[x] == p;
                            assert(prefix[x] == p);
                            assert(prefix.contains(p));
                            let y = choose|y: int| 0 <= y < old_shows.len() && old_shows[y].name@ == episode_info(p).1;
                            assert(new_shows[y] == old_shows[y]);
                        }
                    }
                    let sel_new = |p: Seq<char>| episode_info(p).1 == ep.show_name@;
                    assert(prefix.filter(sel_new).len() == 0) by {
                        if prefix.filter(sel_new).len() > 0 {
                            let q = prefix.filter(sel_new)[0];
                            prefix.lemma_filter_pred(sel_new, 0);
                            prefix.lemma_filter_contains_rev(sel_new, q);
                            assert(prefix.filter(sel_new).contains(q));
                            assert(prefix.contains(q));
                            assert(has_show(old_shows, episode_info(q).1));
                        }
                    }
                    assert forall|m: int|
                        #![trigger new_shows[m]]
                        0 <= m < new_shows.len() implies new_shows[m].episodes@.len() > 0
                            && new_shows[m].episodes@.map_values(f) == paths_of_show(
                            all.subrange(0, i + 1),
                            new_shows[m].name@,
                        ).map_values(g) by {
                        let sel = |p: Seq<char>| episode_info(p).1 == new_shows[m].name@;
                        prefix.lemma_filter_push(path, sel);
                        if m == n {
                            assert(sel == sel_new);
                            assert(prefix.filter(sel) =~= Seq::<Seq<char>>::empty());
                            assert(new_shows[m].episodes@.map_values(f) =~= seq![info_of(ep)]);
                            assert(prefix.push(path).filter(sel).map_values(g) =~= seq![g(path)]);
                        } else {
                            assert(new_shows[m] == old_shows[m]);
                        }
                    }
                }
            },
        }
        i = i + 1;
    }
    proof {
        assert(all.subrange(0, video_files@.len() as int) =~= all);
    }
    let mut out: Vec<Show> = Vec::new();
    let mut k: usize = 0;
    while k < shows.len()
        invariant
            k <= shows@.len(),
            f == (|e: Episode| info_of(e)),
            g == (|p: Seq<char>| path_info(p)),
            names_unique(shows@),
            forall|m: int| #![trigger shows@[m]] 0 <= m < shows@.len() ==> shows@[m].episodes@.len() > 0,
            out@.len() == k,
            forall|m: int| 0 <= m < k ==> (#[trigger] out@[m]).name == shows@[m].name,
            forall|m: int|
                #![trigger out@[m]]
                0 <= m < k ==> {
                    let eps = out@[m].episodes@;
                    &&& eps.len() > 0
                    &&& sorted_episodes(eps)
                    &&& forall|x: int| 0 <= x < eps.len() ==> (#[trigger] eps[x]).id == x
                    &&& eps.map_values(f).to_multiset() == shows@[m].episodes@.map_values(f).to_multiset()
                },
        decreases shows.len() - k,
    {
        let sorted = sort_episodes(&shows[k].episodes);
        let numbered = renumber(sorted);
        proof {
            sorted@.map_values(f).to_multiset_ensures();
            shows@[k as int].episodes@.map_values(f).to_multiset_ensures();
            assert(sorted@.map_values(f).len() == shows@[k as int].episodes@.map_values(f).len());
            assert forall|a: int, b: int| 0 <= a < b < numbered@.len() implies !episode_before(numbered@[b], numbered@[a]) by {
                assert(numbered@[a].episode_number == sorted@[a].episode_number && numbered@[a].name == sorted@[a].name);
                assert(numbered@[b].episode_number == sorted@[b].episode_number && numbered@[b].name == sorted@[b].name);
                assert(!episode_before(sorted@[b], sorted@[a]));
            }
        }
        let ghost prev = out@;
        out.push(Show { name: shows[k].name.clone(), episodes: numbered });
        proof {
            let eps = out@[k as int].episodes@;
            assert(eps == numbered@);
            assert(numbered@.map_values(f) =~= sorted@.map_values(f));
            assert(forall|x: int| 0 <= x < eps.len() ==> (#[trigger] eps[x]).id == x);
            assert forall|m: int| 0 <= m < k implies #[trigger] out@[m] == prev[m] by {}
        }
        k = k + 1;
    }
    let r = ShowLibrary { shows: out };
    proof {
        assert forall|a: int, b: int| 0 <= a < r@.len() && 0 <= b < r@.len() && a != b implies r@[a].name@ != r@[b].name@ by {
            assert(r@[a].name == shows@[a].name && r@[b].name == shows@[b].name);
        }
        assert forall|p: Seq<char>| all.contains(p) implies has_show(r@, #[trigger] episode_info(p).1) by {
            assert(all.subrange(0, video_files@.len() as int).contains(p));
            let y = choose|y: int| 0 <= y < shows@.len() && shows@[y].name@ == episode_info(p).1;
            assert(r@[y].name == shows@[y].name);
        }
        assert forall|m: int| #![trigger r@[m]] 0 <= m < r@.len() implies r@[m].episodes@.map_values(f).to_multiset()
            == paths_of_show(all, r@[m].name@).map_values(g).to_multiset() by {
            assert(r@[m].name == shows@[m].name);
        }
    }
    r
}

} // verus!
