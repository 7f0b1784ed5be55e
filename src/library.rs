//! The show library: each show's name with its ordered episodes.

use vstd::prelude::*;
use crate::models::{duplicate_episodes, Episode};

verus! {

/// A show and its episodes, in play order.
#[derive(Clone, Debug)]
pub struct Show {
    pub name: String,
    pub episodes: Vec<Episode>,
}

/// No two shows of the sequence carry the same name.
pub open spec fn names_unique(shows: Seq<Show>) -> bool {
    forall|i: int, j: int|
        0 <= i < shows.len() && 0 <= j < shows.len() && i != j ==> shows[i].name@ != shows[j].name@
}

/// Whether a show of the given name is in the sequence.
pub open spec fn has_show(shows: Seq<Show>, name: Seq<char>) -> bool {
    exists|i: int| 0 <= i < shows.len() && shows[i].name@ == name
}

/// The episodes of the show of the given name, if there is one.
pub open spec fn episodes_named(shows: Seq<Show>, name: Seq<char>) -> Option<Seq<Episode>> {
    if has_show(shows, name) {
        Some(shows[choose|i: int| 0 <= i < shows.len() && shows[i].name@ == name].episodes@)
    } else {
        None
    }
}

/// The number of episodes over all shows.
pub open spec fn episode_total(shows: Seq<Show>) -> nat
    decreases shows.len(),
{
    if shows.len() == 0 {
        0
    } else {
        episode_total(shows.drop_last()) + shows.last().episodes@.len()
    }
}

/// The source paths of all episodes, show by show, each show in its order.
pub open spec fn all_paths(shows: Seq<Show>) -> Seq<Seq<char>>
    decreases shows.len(),
{
    if shows.len() == 0 {
        Seq::empty()
    } else {
        all_paths(shows.drop_last()) + shows.last().episodes@.map_values(|e: Episode| e.file_path@)
    }
}

/// A name lookup finds the one show that carries the name.
pub proof fn lemma_lookup_at(shows: Seq<Show>, name: Seq<char>, i: int)
    requires
        names_unique(shows),
        0 <= i < shows.len(),
        shows[i].name@ == name,
    ensures
        episodes_named(shows, name) == Some(shows[i].episodes@),
{
    let k = choose|k: int| 0 <= k < shows.len() && shows[k].name@ == name;
    assert(k == i);
}

impl Show {
    /// A copy of the show.
    pub fn duplicate(&self) -> (r: Show)
        ensures
            r.name == self.name,
            r.episodes@ == self.episodes@,
    {
        Show { name: self.name.clone(), episodes: duplicate_episodes(&self.episodes) }
    }
}

/// The show names, in order.
pub open spec fn names_of(shows: Seq<Show>) -> Seq<Seq<char>> {
    shows.map_values(|s: Show| s.name@)
}

proof fn lemma_same_shape_paths(a: Seq<Show>, b: Seq<Show>)
    requires
        a.len() == b.len(),
        forall|i: int| 0 <= i < a.len() ==> a[i].episodes@ == #[trigger] b[i].episodes@,
    ensures
        all_paths(a) == all_paths(b),
        episode_total(a) == episode_total(b),
    decreases a.len(),
{
    if a.len() > 0 {
        lemma_same_shape_paths(a.drop_last(), b.drop_last());
        assert(a.last().episodes@ == b.last().episodes@);
    }
}

/// Shows by name; names are unique.
#[derive(Clone, Debug)]
pub struct ShowLibrary {
    pub shows: Vec<Show>,
}

impl View for ShowLibrary {
    type V = Seq<Show>;

    open spec fn view(&self) -> Seq<Show> {
        self.shows@
    }
}

impl ShowLibrary {
    pub open spec fn wf(&self) -> bool {
        names_unique(self@)
    }

    /// A library with no show.
    pub fn new() -> (r: ShowLibrary)
        ensures
            r.wf(),
            r@ == Seq::<Show>::empty(),
    {
        ShowLibrary { shows: Vec::new() }
    }

    /// The index of the show of the given name.
    pub fn find_show(&self, name: &str) -> (r: Option<usize>)
        ensures
            match r {
                Some(i) => i < self@.len() && self@[i as int].name@ == name@,
                None => !has_show(self@, name@),
            },
    {
        let key = name.to_owned();
        let mut i: usize = 0;
        while i < self.shows.len()
            invariant
                i <= self.shows.len(),
                key@ == name@,
                forall|k: int| 0 <= k < i ==> self.shows@[k].name@ != name@,
            decreases self.shows.len() - i,
        {
            if self.shows[i].name == key {
                return Some(i);
            }
            i = i + 1;
        }
        None
    }

    /// The episodes of the show of the given name.
    pub fn episodes_of(&self, name: &str) -> (r: Option<&Vec<Episode>>)
        requires
            self.wf(),
        ensures
            match r {
                Some(v) => episodes_named(self@, name@) == Some(v@),
                None => episodes_named(self@, name@) is None,
            },
    {
        match self.find_show(name) {
            Some(i) => {
                proof {
                    lemma_lookup_at(self@, name@, i as int);
                }
                Some(&self.shows[i].episodes)
            },
            None => None,
        }
    }

    /// Builds a library from shows, refusing a list that repeats a name.
    pub fn from_shows(shows: Vec<Show>) -> (r: Option<ShowLibrary>)
        ensures
            r is Some <==> names_unique(shows@),
            r matches Some(lib) ==> lib.wf() && lib@ == shows@,
    {
        let mut i: usize = 0;
        while i < shows.len()
            invariant
                i <= shows.len(),
                names_unique(shows@.subrange(0, i as int)),
            decreases shows.len() - i,
        {
            let mut j: usize = 0;
            while j < i
                invariant
                    i < shows.len(),
                    j <= i,
                    forall|k: int| 0 <= k < j ==> shows@[k].name@ != shows@[i as int].name@,
                decreases i - j,
            {
                if shows[j].name == shows[i].name {
                    proof {
                        assert(!names_unique(shows@)) by {
                            assert(shows@[j as int].name@ == shows@[i as int].name@);
                        }
                    }
                    return None;
                }
                j = j + 1;
            }
            proof {
                let s = shows@.subrange(0, i + 1);
                assert forall|a: int, b: int|
                    0 <= a < s.len() && 0 <= b < s.len() && a != b implies s[a].name@ != s[b].name@ by {
                    if a < i && b < i {
                        assert(s[a] == shows@.subrange(0, i as int)[a]);
                        assert(s[b] == shows@.subrange(0, i as int)[b]);
                    }
                }
            }
            i = i + 1;
        }
        assert(shows@.subrange(0, shows@.len() as int) =~= shows@);
        Some(ShowLibrary { shows })
    }

    /// A copy of the library.
    pub fn duplicate(&self) -> (r: ShowLibrary)
        requires
            self.wf(),
        ensures
            r.wf(),
            r@.len() == self@.len(),
            forall|i: int|
                0 <= i < self@.len() ==> r@[i].name == #[trigger] self@[i].name && r@[i].episodes@
                    == self@[i].episodes@,
            names_of(r@) == names_of(self@),
            all_paths(r@) == all_paths(self@),
            forall|name: Seq<char>| #[trigger] episodes_named(r@, name) == episodes_named(self@, name),
    {
        let mut shows: Vec<Show> = Vec::new();
        let mut i: usize = 0;
        while i < self.shows.len()
            invariant
                i <= self@.len(),
                shows@.len() == i,
                forall|k: int|
                    #![trigger shows@[k]]
                    0 <= k < i ==> shows@[k].name == self@[k].name && shows@[k].episodes@ == self@[k].episodes@,
            decreases self.shows.len() - i,
        {
            shows.push(self.shows[i].duplicate());
            i = i + 1;
        }
        let r = ShowLibrary { shows };
        proof {
            assert(names_of(r@) =~= names_of(self@));
            lemma_same_shape_paths(r@, self@);
            assert forall|a: int, b: int|
                0 <= a < r@.len() && 0 <= b < r@.len() && a != b implies r@[a].name@ != r@[b].name@ by {
                assert(r@[a].name == self@[a].name && r@[b].name == self@[b].name);
            }
            assert forall|name: Seq<char>| #[trigger] episodes_named(r@, name) == episodes_named(self@, name) by {
                if has_show(self@, name) {
                    let k = choose|k: int| 0 <= k < self@.len() && self@[k].name@ == name;
                    assert(r@[k].name == self@[k].name);
                    lemma_lookup_at(self@, name, k);
                    lemma_lookup_at(r@, name, k);
                } else if has_show(r@, name) {
                    let k = choose|k: int| 0 <= k < r@.len() && r@[k].name@ == name;
                    assert(r@[k].name == self@[k].name);
                }
            }
        }
        r
    }

    /// The number of episodes over all shows, saturating at `usize::MAX`.
    pub fn episode_count(&self) -> (r: usize)
        ensures
            r == (if episode_total(self@) <= usize::MAX { episode_total(self@) } else { usize::MAX as nat }),
    {
        let mut acc: usize = 0;
        let mut i: usize = 0;
        while i < self.shows.len()
            invariant
                i <= self@.len(),
                acc == (if episode_total(self@.subrange(0, i as int)) <= usize::MAX {
                    episode_total(self@.subrange(0, i as int))
                } else {
                    usize::MAX as nat
                }),
            decreases self.shows.len() - i,
        {
            proof {
                assert(self@.subrange(0, i + 1).drop_last() =~= self@.subrange(0, i as int));
            }
            let n = self.shows[i].episodes.len();
            acc = if acc > usize::MAX - n { usize::MAX } else { acc + n };
            i = i + 1;
        }
        assert(self@.subrange(0, self@.len() as int) =~= self@);
        acc
    }

    /// The show names, in library order.
    pub fn show_names(&self) -> (r: Vec<String>)
        ensures
            r@.map_values(|s: String| s@) == names_of(self@),
    {
        let mut r: Vec<String> = Vec::new();
        let mut i: usize = 0;
        while i < self.shows.len()
            invariant
                i <= self@.len(),
                r@.map_values(|s: String| s@) == names_of(self@.subrange(0, i as int)),
            decreases self.shows.len() - i,
        {
            let ghost prev = r@;
            r.push(self.shows[i].name.clone());
            proof {
                assert(r@.map_values(|s: String| s@) =~= prev.map_values(|s: String| s@).push(self@[i as int].name@));
                assert(names_of(self@.subrange(0, i + 1)) =~= names_of(self@.subrange(0, i as int)).push(self@[i as int].name@));
            }
            i = i + 1;
        }
        assert(self@.subrange(0, self@.len() as int) =~= self@);
        r
    }

    /// The source paths of every episode, show by show.
    pub fn all_file_paths(&self) -> (r: Vec<String>)
        ensures
            r@.map_values(|s: String| s@) == all_paths(self@),
    {
        let mut r: Vec<String> = Vec::new();
        let mut i: usize = 0;
        while i < self.shows.len()
            invariant
                i <= self.shows.len(),
                r@.map_values(|s: String| s@) == all_paths(self@.subrange(0, i as int)),
            decreases self.shows.len() - i,
        {
            let eps = &self.shows[i].episodes;
            let ghost base = r@.map_values(|s: String| s@);
            let mut j: usize = 0;
            while j < eps.len()
                invariant
                    j <= eps.len(),
                    eps@ == self@[i as int].episodes@,
                    r@.map_values(|s: String| s@) == base + eps@.subrange(0, j as int).map_values(
                        |e: Episode| e.file_path@,
                    ),
                decreases eps.len() - j,
            {
                let ghost prev = r@;
                r.push(eps[j].file_path.clone());
                proof {
                    assert(r@.map_values(|s: String| s@) =~= prev.map_values(|s: String| s@).push(
                        eps@[j as int].file_path@,
                    ));
                    assert(eps@.subrange(0, j + 1).map_values(|e: Episode| e.file_path@)
                        =~= eps@.subrange(0, j as int).map_values(|e: Episode| e.file_path@).push(
                        eps@[j as int].file_path@,
                    ));
                }
                j = j + 1;
            }
            proof {
                let s = self@.subrange(0, i + 1);
                assert(s.drop_last() =~= self@.subrange(0, i as int));
                assert(eps@.subrange(0, j as int) =~= eps@);
            }
            i = i + 1;
        }
        assert(self@.subrange(0, self@.len() as int) =~= self@);
        r
    }
}

} // verus!
