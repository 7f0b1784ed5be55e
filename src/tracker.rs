//! The played-episode tracker: for each show, the ids of the episodes that
//! play-once items have already emitted.

use vstd::prelude::*;
use crate::models::PlaylistItem;

verus! {

/// The ids already played of one show, in the order they were marked.
#[derive(Clone, Debug)]
pub struct PlayedShow {
    pub show: String,
    pub ids: Vec<usize>,
}

/// No two entries are about the same show.
pub open spec fn shows_unique(e: Seq<PlayedShow>) -> bool {
    forall|i: int, j: int|
        0 <= i < e.len() && 0 <= j < e.len() && i != j ==> e[i].show@ != e[j].show@
}

/// The entries read as a map from show name to marked ids.
pub open spec fn entries_map(e: Seq<PlayedShow>) -> Map<Seq<char>, Seq<usize>> {
    Map::new(
        |k: Seq<char>| exists|i: int| 0 <= i < e.len() && e[i].show@ == k,
        |k: Seq<char>| e[choose|i: int| 0 <= i < e.len() && e[i].show@ == k].ids@,
    )
}

/// Whether the episode `id` of `show` is recorded as played.
pub open spec fn is_played(m: Map<Seq<char>, Seq<usize>>, show: Seq<char>, id: usize) -> bool {
    m.contains_key(show) && m[show].contains(id)
}

/// The map after `id` is marked for `show`: appended to its list, which is
/// created when the show has none.
pub open spec fn marked(m: Map<Seq<char>, Seq<usize>>, show: Seq<char>, id: usize) -> Map<
    Seq<char>,
    Seq<usize>,
> {
    if m.contains_key(show) {
        m.insert(show, m[show].push(id))
    } else {
        m.insert(show, seq![id])
    }
}

/// What happens to an item's episode when a pass reaches it: whether it is
/// encoded, and the tracker after the decision.
pub open spec fn claim_outcome(
    m: Map<Seq<char>, Seq<usize>>,
    item: PlaylistItem,
    id: usize,
) -> (bool, Map<Seq<char>, Seq<usize>>) {
    if !item.plays_once() {
        (true, m)
    } else if is_played(m, item.show_name@, id) {
        (false, m)
    } else {
        (true, marked(m, item.show_name@, id))
    }
}

proof fn lemma_entry_in_map(e: Seq<PlayedShow>, i: int)
    requires
        shows_unique(e),
        0 <= i < e.len(),
    ensures
        entries_map(e).contains_key(e[i].show@),
        entries_map(e)[e[i].show@] == e[i].ids@,
{
    let k = choose|k: int| 0 <= k < e.len() && e[k].show@ == e[i].show@;
    assert(k == i);
}

/// Per show, the episodes already played.
#[derive(Clone, Debug)]
pub struct PlayedTracker {
    pub entries: Vec<PlayedShow>,
}

impl View for PlayedTracker {
    type V = Map<Seq<char>, Seq<usize>>;

    open spec fn view(&self) -> Map<Seq<char>, Seq<usize>> {
        entries_map(self.entries@)
    }
}

impl PlayedTracker {
    pub open spec fn wf(&self) -> bool {
        shows_unique(self.entries@)
    }

    /// A tracker with nothing played.
    pub fn new() -> (r: PlayedTracker)
        ensures
            r.wf(),
            r@ == Map::<Seq<char>, Seq<usize>>::empty(),
    {
        let r = PlayedTracker { entries: Vec::new() };
        assert(r@ =~= Map::<Seq<char>, Seq<usize>>::empty());
        r
    }

    /// A copy of the tracker.
    pub fn duplicate(&self) -> (r: PlayedTracker)
        requires
            self.wf(),
        ensures
            r.wf(),
            r@ == self@,
    {
        let mut entries: Vec<PlayedShow> = Vec::new();
        let mut i: usize = 0;
        while i < self.entries.len()
            invariant
                i <= self.entries@.len(),
                entries@.len() == i,
                forall|k: int|
                    #![trigger entries@[k]]
                    0 <= k < i ==> entries@[k].show == self.entries@[k].show && entries@[k].ids@
                        == self.entries@[k].ids@,
            decreases self.entries.len() - i,
        {
            let src = &self.entries[i];
            let mut ids: Vec<usize> = Vec::new();
            let mut j: usize = 0;
            while j < src.ids.len()
                invariant
                    j <= src.ids@.len(),
                    ids@ == src.ids@.subrange(0, j as int),
                decreases src.ids.len() - j,
            {
                ids.push(src.ids[j]);
                proof {
                    assert(src.ids@.subrange(0, j + 1) =~= src.ids@.subrange(0, j as int).push(src.ids@[j as int]));
                }
                j = j + 1;
            }
            assert(ids@ =~= src.ids@);
            entries.push(PlayedShow { show: src.show.clone(), ids });
            i = i + 1;
        }
        let r = PlayedTracker { entries };
        proof {
            let a = r.entries@;
            let b = self.entries@;
            assert forall|x: int, y: int|
                0 <= x < a.len() && 0 <= y < a.len() && x != y implies a[x].show@ != a[y].show@ by {
                assert(a[x].show == b[x].show && a[y].show == b[y].show);
            }
            assert forall|k: Seq<char>| #![trigger entries_map(a).contains_key(k)]
                entries_map(a).contains_key(k) == entries_map(b).contains_key(k) by {
                if exists|x: int| 0 <= x < a.len() && a[x].show@ == k {
                    let x = choose|x: int| 0 <= x < a.len() && a[x].show@ == k;
                    assert(a[x].show == b[x].show);
                }
                if exists|x: int| 0 <= x < b.len() && b[x].show@ == k {
                    let x = choose|x: int| 0 <= x < b.len() && b[x].show@ == k;
                    assert(a[x].show == b[x].show);
                }
            }
            assert forall|k: Seq<char>| #[trigger] entries_map(a).contains_key(k) implies entries_map(a)[k]
                == entries_map(b)[k] by {
                let x = choose|x: int| 0 <= x < a.len() && a[x].show@ == k;
                assert(a[x].show == b[x].show);
                lemma_entry_in_map(a, x);
                lemma_entry_in_map(b, x);
            }
            assert(entries_map(a) =~= entries_map(b));
        }
        r
    }

    /// Forgets every played episode.
    pub fn reset(&mut self)
        ensures
            final(self).wf(),
            final(self)@ == Map::<Seq<char>, Seq<usize>>::empty(),
    {
        *self = PlayedTracker::new();
    }

    fn position(&self, show: &str) -> (r: Option<usize>)
        requires
            self.wf(),
        ensures
            match r {
                Some(i) => i < self.entries@.len() && self.entries@[i as int].show@ == show@,
                None => !self@.contains_key(show@),
            },
    {
        let key = show.to_owned();
        let mut i: usize = 0;
        while i < self.entries.len()
            invariant
                i <= self.entries.len(),
                key@ == show@,
                forall|k: int| 0 <= k < i ==> self.entries@[k].show@ != show@,
            decreases self.entries.len() - i,
        {
            if self.entries[i].show == key {
                return Some(i);
            }
            i = i + 1;
        }
        None
    }

    /// Whether the episode `id` of `show` has been played.
    pub fn should_skip(&self, show: &str, id: usize) -> (r: bool)
        requires
            self.wf(),
        ensures
            r == is_played(self@, show@, id),
    {
        match self.position(show) {
            None => false,
            Some(p) => {
                proof {
                    lemma_entry_in_map(self.entries@, p as int);
                }
                let ids = &self.entries[p].ids;
                let mut j: usize = 0;
                while j < ids.len()
                    invariant
                        j <= ids.len(),
                        self@.contains_key(show@),
                        ids@ == self@[show@],
                        forall|k: int| 0 <= k < j ==> ids@[k] != id,
                    decreases ids.len() - j,
                {
                    if ids[j] == id {
                        assert(ids@[j as int] == id);
                        return true;
                    }
                    j = j + 1;
                }
                false
            },
        }
    }

    /// Records the episode `id` of `show` as played.
    pub fn mark_played(&mut self, show: &str, id: usize)
        requires
            old(self).wf(),
        ensures
            final(self).wf(),
            final(self)@ == marked(old(self)@, show@, id),
    {
        let ghost old_e = self.entries@;
        match self.position(show) {
            None => {
                let mut ids: Vec<usize> = Vec::new();
                ids.push(id);
                self.entries.push(PlayedShow { show: show.to_owned(), ids });
                let ghost new_e = self.entries@;
                proof {
                    assert forall|a: int, b: int|
                        0 <= a < new_e.len() && 0 <= b < new_e.len() && a != b implies new_e[a].show@
                        != new_e[b].show@ by {
                        if a < old_e.len() && b < old_e.len() {
                            assert(new_e[a] == old_e[a] && new_e[b] == old_e[b]);
                        } else if a < old_e.len() {
                            assert(new_e[a] == old_e[a]);
                            assert(!entries_map(old_e).contains_key(show@));
                        } else {
                            assert(new_e[b] == old_e[b]);
                            assert(!entries_map(old_e).contains_key(show@));
                        }
                    }
                    assert forall|k: Seq<char>| #![trigger entries_map(new_e).contains_key(k)]
                        entries_map(new_e).contains_key(k) == marked(entries_map(old_e), show@, id).contains_key(k) by {
                        if exists|i: int| 0 <= i < old_e.len() && old_e[i].show@ == k {
                            let i = choose|i: int| 0 <= i < old_e.len() && old_e[i].show@ == k;
                            assert(new_e[i] == old_e[i]);
                        }
                        if k == show@ {
                            assert(new_e[old_e.len() as int].show@ == k);
                        }
                        if exists|i: int| 0 <= i < new_e.len() && new_e[i].show@ == k {
                            let i = choose|i: int| 0 <= i < new_e.len() && new_e[i].show@ == k;
                            if i < old_e.len() {
                                assert(old_e[i] == new_e[i]);
                            }
                        }
                    }
                    assert forall|k: Seq<char>| #[trigger] entries_map(new_e).contains_key(k) implies entries_map(new_e)[k]
                        == marked(entries_map(old_e), show@, id)[k] by {
                        let i = choose|i: int| 0 <= i < new_e.len() && new_e[i].show@ == k;
                        lemma_entry_in_map(new_e, i);
                        if i < old_e.len() {
                            assert(old_e[i] == new_e[i]);
                            lemma_entry_in_map(old_e, i);
                        } else {
                            assert(new_e[i].ids@ =~= seq![id]);
                        }
                    }
                    assert(entries_map(new_e) =~= marked(entries_map(old_e), show@, id));
                }
            },
            Some(p) => {
                proof {
                    lemma_entry_in_map(old_e, p as int);
                }
                let mut entry = self.entries.remove(p);
                entry.ids.push(id);
                self.entries.insert(p, entry);
                let ghost new_e = self.entries@;
                proof {
                    assert(new_e =~= old_e.update(p as int, new_e[p as int]));
                    assert forall|a: int, b: int|
                        0 <= a < new_e.len() && 0 <= b < new_e.len() && a != b implies new_e[a].show@
                        != new_e[b].show@ by {
                        assert(new_e[a].show@ == old_e[a].show@);
                        assert(new_e[b].show@ == old_e[b].show@);
                    }
                    assert forall|k: Seq<char>| #![trigger entries_map(new_e).contains_key(k)]
                        entries_map(new_e).contains_key(k) == marked(entries_map(old_e), show@, id).contains_key(k) by {
                        if exists|i: int| 0 <= i < old_e.len() && old_e[i].show@ == k {
                            let i = choose|i: int| 0 <= i < old_e.len() && old_e[i].show@ == k;
                            assert(new_e[i].show@ == old_e[i].show@);
                        }
                        if exists|i: int| 0 <= i < new_e.len() && new_e[i].show@ == k {
                            let i = choose|i: int| 0 <= i < new_e.len() && new_e[i].show@ == k;
                            assert(new_e[i].show@ == old_e[i].show@);
                        }
                    }
                    assert forall|k: Seq<char>| #[trigger] entries_map(new_e).contains_key(k) implies entries_map(new_e)[k]
                        == marked(entries_map(old_e), show@, id)[k] by {
                        let i = choose|i: int| 0 <= i < new_e.len() && new_e[i].show@ == k;
                        lemma_entry_in_map(new_e, i);
                        assert(new_e[i].show@ == old_e[i].show@);
                        lemma_entry_in_map(old_e, i);
                    }
                    assert(entries_map(new_e) =~= marked(entries_map(old_e), show@, id));
                }
            },
        }
    }

    /// Decides whether an item's episode is encoded in this pass. A
    /// play-once item skips an episode already played and otherwise marks it
    /// before the encode is attempted, so an encode that then fails is not
    /// retried by a later pass; any other item always encodes and leaves the
    /// tracker alone.
    pub fn claim(&mut self, item: &PlaylistItem, id: usize) -> (r: bool)
        requires
            old(self).wf(),
        ensures
            final(self).wf(),
            (r, final(self)@) == claim_outcome(old(self)@, *item, id),
    {
        if item.repeat_count != 0 {
            true
        } else if self.should_skip(item.show_name.as_str(), id) {
            false
        } else {
            self.mark_played(item.show_name.as_str(), id);
            true
        }
    }
}

} // verus!
