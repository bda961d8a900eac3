use vstd::prelude::*;
use crate::states::opt_view;

verus! {

/// The generated state of one page and when it was generated, in seconds.
pub struct CachedPage {
    pub path: String,
    pub state: Option<String>,
    pub generated_at: u64,
}

/// What the cache holds for one page: its state and its generation time.
pub open spec fn page_entry(p: CachedPage) -> (Option<Seq<char>>, u64) {
    (opt_view(p.state), p.generated_at)
}

/// The map from page path to entry that a sequence of pages describes; a
/// later page shadows an earlier one of the same path.
pub open spec fn pages_map(s: Seq<CachedPage>) -> Map<Seq<char>, (Option<Seq<char>>, u64)>
    decreases s.len(),
{
    if s.len() == 0 {
        Map::empty()
    } else {
        pages_map(s.drop_last()).insert(s.last().path@, page_entry(s.last()))
    }
}

/// No two pages share a path.
pub open spec fn distinct_paths(s: Seq<CachedPage>) -> bool {
    forall|i: int, j: int|
        0 <= i < s.len() && 0 <= j < s.len() && i != j ==> #[trigger] s[i].path@
            != #[trigger] s[j].path@
}

proof fn lemma_pages_map_keys(s: Seq<CachedPage>)
    ensures
        pages_map(s).dom().finite(),
        forall|k: Seq<char>|
            pages_map(s).contains_key(k) <==> exists|i: int| 0 <= i < s.len() && #[trigger] s[i].path@
                == k,
    decreases s.len(),
{
    if s.len() > 0 {
        let t = s.drop_last();
        lemma_pages_map_keys(t);
        assert forall|k: Seq<char>|
            pages_map(s).contains_key(k) <==> exists|i: int| 0 <= i < s.len() && #[trigger] s[i].path@
                == k by {
            if pages_map(t).contains_key(k) {
                let i = choose|i: int| 0 <= i < t.len() && #[trigger] t[i].path@ == k;
                assert(s[i] == t[i]);
            }
            if exists|i: int| 0 <= i < s.len() && #[trigger] s[i].path@ == k {
                let i = choose|i: int| 0 <= i < s.len() && #[trigger] s[i].path@ == k;
                if i < s.len() - 1 {
                    assert(t[i] == s[i]);
                }
            }
        }
    }
}

proof fn lemma_pages_map_value(s: Seq<CachedPage>, i: int)
    requires
        distinct_paths(s),
        0 <= i < s.len(),
    ensures
        pages_map(s).contains_key(s[i].path@),
        pages_map(s)[s[i].path@] == page_entry(s[i]),
    decreases s.len(),
{
    if i < s.len() - 1 {
        let t = s.drop_last();
        assert(t[i] == s[i]);
        assert(distinct_paths(t)) by {
            assert forall|a: int, b: int|
                0 <= a < t.len() && 0 <= b < t.len() && a != b implies #[trigger] t[a].path@
                    != #[trigger] t[b].path@ by {
                assert(t[a] == s[a] && t[b] == s[b]);
            }
        }
        lemma_pages_map_value(t, i);
        assert(s[i].path@ != s[s.len() - 1].path@);
    }
}

proof fn lemma_pages_map_update(s: Seq<CachedPage>, i: int, e: CachedPage)
    requires
        distinct_paths(s),
        0 <= i < s.len(),
        s[i].path@ == e.path@,
    ensures
        pages_map(s.update(i, e)) =~= pages_map(s).insert(e.path@, page_entry(e)),
    decreases s.len(),
{
    let u = s.update(i, e);
    let t = s.drop_last();
    if i == s.len() - 1 {
        assert(u.drop_last() =~= t);
    } else {
        assert(u.drop_last() =~= t.update(i, e));
        assert(distinct_paths(t)) by {
            assert forall|a: int, b: int|
                0 <= a < t.len() && 0 <= b < t.len() && a != b implies #[trigger] t[a].path@
                    != #[trigger] t[b].path@ by {
                assert(t[a] == s[a] && t[b] == s[b]);
            }
        }
        assert(t[i] == s[i]);
        lemma_pages_map_update(t, i, e);
        assert(s[i].path@ != s[s.len() - 1].path@);
    }
}

proof fn lemma_pages_map_len(s: Seq<CachedPage>)
    requires
        distinct_paths(s),
    ensures
        pages_map(s).len() == s.len(),
    decreases s.len(),
{
    if s.len() > 0 {
        let t = s.drop_last();
        assert(distinct_paths(t)) by {
            assert forall|a: int, b: int|
                0 <= a < t.len() && 0 <= b < t.len() && a != b implies #[trigger] t[a].path@
                    != #[trigger] t[b].path@ by {
                assert(t[a] == s[a] && t[b] == s[b]);
            }
        }
        lemma_pages_map_len(t);
        lemma_pages_map_keys(t);
        if pages_map(t).contains_key(s.last().path@) {
            let i = choose|i: int| 0 <= i < t.len() && #[trigger] t[i].path@ == s.last().path@;
            assert(t[i] == s[i]);
        }
    }
}

/// The texts of a sequence of strings.
pub open spec fn names_of(v: Seq<String>) -> Set<Seq<char>> {
    Set::new(|k: Seq<char>| exists|i: int| 0 <= i < v.len() && #[trigger] v[i]@ == k)
}

proof fn lemma_names_of_push(v: Seq<String>, x: String)
    ensures
        names_of(v.push(x)) =~= names_of(v).insert(x@),
{
    let w = v.push(x);
    assert forall|k: Seq<char>| #[trigger] names_of(w).contains(k) == names_of(v).insert(x@).contains(k) by {
        if exists|i: int| 0 <= i < v.len() && #[trigger] v[i]@ == k {
            let i = choose|i: int| 0 <= i < v.len() && #[trigger] v[i]@ == k;
            assert(w[i] == v[i]);
        }
        if exists|i: int| 0 <= i < w.len() && #[trigger] w[i]@ == k {
            let i = choose|i: int| 0 <= i < w.len() && #[trigger] w[i]@ == k;
            if i < v.len() {
                assert(w[i] == v[i]);
            }
        }
        if k == x@ {
            assert(w[v.len() as int]@ == k);
        }
    }
}

/// The generated state of every page that has been generated, one entry per
/// path, and the paths whose regeneration is under way. An entry is only ever
/// replaced whole, and a path is regenerated by one caller at a time.
pub struct StateCache {
    pages: Vec<CachedPage>,
    regenerating: Vec<String>,
}

impl View for StateCache {
    type V = Map<Seq<char>, (Option<Seq<char>>, u64)>;

    closed spec fn view(&self) -> Self::V {
        pages_map(self.pages@)
    }
}

impl StateCache {
    /// The cache keeps one entry per path.
    pub closed spec fn wf(&self) -> bool {
        distinct_paths(self.pages@)
    }

    /// The paths whose regeneration has been claimed and not yet finished.
    pub closed spec fn regenerating(&self) -> Set<Seq<char>> {
        names_of(self.regenerating@)
    }

    /// An empty cache.
    pub fn new() -> (r: Self)
        ensures
            r.wf(),
            r@ == Map::<Seq<char>, (Option<Seq<char>>, u64)>::empty(),
            r.regenerating() == Set::<Seq<char>>::empty(),
    {
        let r = StateCache { pages: Vec::new(), regenerating: Vec::new() };
        assert(r.regenerating() =~= Set::<Seq<char>>::empty());
        r
    }

    /// Whether the regeneration of `path` is under way.
    pub fn is_regenerating(&self, path: &String) -> (r: bool)
        ensures
            r == self.regenerating().contains(path@),
    {
        let mut i: usize = 0;
        while i < self.regenerating.len()
            invariant
                0 <= i <= self.regenerating@.len(),
                forall|j: int| 0 <= j < i ==> #[trigger] self.regenerating@[j]@ != path@,
            decreases self.regenerating@.len() - i,
        {
            if self.regenerating[i] == *path {
                return true;
            }
            i = i + 1;
        }
        false
    }

    /// Claims the regeneration of `path` for the caller: succeeds only if
    /// no other regeneration of it is under way, so that concurrent requests
    /// for a stale page regenerate it once.
    pub fn claim_regeneration(&mut self, path: &String) -> (r: bool)
        requires
            old(self).wf(),
        ensures
            final(self).wf(),
            r == !old(self).regenerating().contains(path@),
            final(self).regenerating() == old(self).regenerating().insert(path@),
            final(self)@ == old(self)@,
    {
        if self.is_regenerating(path) {
            assert(self.regenerating() =~= old(self).regenerating().insert(path@));
            return false;
        }
        let c = path.clone();
        proof {
            lemma_names_of_push(self.regenerating@, c);
        }
        self.regenerating.push(c);
        true
    }

    /// Gives up the claim on the regeneration of `path`, if there is one.
    pub fn release_regeneration(&mut self, path: &String)
        requires
            old(self).wf(),
        ensures
            final(self).wf(),
            final(self).regenerating() == old(self).regenerating().remove(path@),
            final(self)@ == old(self)@,
    {
        let mut kept: Vec<String> = Vec::new();
        let mut i: usize = 0;
        proof {
            assert(names_of(kept@) =~= names_of(self.regenerating@.take(0)).remove(path@));
        }
        while i < self.regenerating.len()
            invariant
                0 <= i <= self.regenerating@.len(),
                names_of(kept@) == names_of(self.regenerating@.take(i as int)).remove(path@),
            decreases self.regenerating@.len() - i,
        {
            let ghost r = self.regenerating@;
            proof {
                assert(r.take(i + 1) =~= r.take(i as int).push(r[i as int]));
                lemma_names_of_push(r.take(i as int), r[i as int]);
            }
            if self.regenerating[i] != *path {
                let c = self.regenerating[i].clone();
                proof {
                    lemma_names_of_push(kept@, c);
                }
                kept.push(c);
                assert(names_of(kept@) =~= names_of(r.take(i + 1)).remove(path@));
            } else {
                assert(names_of(kept@) =~= names_of(r.take(i + 1)).remove(path@));
            }
            i = i + 1;
        }
        proof {
            assert(self.regenerating@.take(i as int) =~= self.regenerating@);
        }
        self.regenerating = kept;
    }

    fn position(&self, path: &String) -> (r: Option<usize>)
        requires
            self.wf(),
        ensures
            r is Some ==> r->Some_0 < self.pages@.len() && self.pages@[r->Some_0 as int].path@
                == path@,
            r is None ==> !self@.contains_key(path@),
    {
        let mut i: usize = 0;
        while i < self.pages.len()
            invariant
                0 <= i <= self.pages@.len(),
                forall|j: int| 0 <= j < i ==> #[trigger] self.pages@[j].path@ != path@,
            decreases self.pages@.len() - i,
        {
            if self.pages[i].path == *path {
                return Some(i);
            }
            i = i + 1;
        }
        proof {
            lemma_pages_map_keys(self.pages@);
        }
        None
    }

    /// The number of pages in the cache.
    pub fn len(&self) -> (r: usize)
        requires
            self.wf(),
        ensures
            r == self@.len(),
    {
        proof {
            lemma_pages_map_len(self.pages@);
        }
        self.pages.len()
    }

    /// The cached page at `path`, if any.
    pub fn get(&self, path: &String) -> (r: Option<&CachedPage>)
        requires
            self.wf(),
        ensures
            r is None <==> !self@.contains_key(path@),
            r is Some ==> r->Some_0.path@ == path@ && page_entry(*r->Some_0) == self@[path@],
    {
        match self.position(path) {
            Some(i) => {
                proof {
                    lemma_pages_map_value(self.pages@, i as int);
                }
                Some(&self.pages[i])
            },
            None => None,
        }
    }

    /// When the page at `path` was generated, if it is cached.
    pub fn generated_at(&self, path: &String) -> (r: Option<u64>)
        requires
            self.wf(),
        ensures
            r is None <==> !self@.contains_key(path@),
            r is Some ==> r->Some_0 == self@[path@].1,
    {
        match self.get(path) {
            Some(p) => Some(p.generated_at),
            None => None,
        }
    }

    /// Caches `state` as the state of `path`, generated at `now`, replacing
    /// whatever entry the path had.
    pub fn store(&mut self, path: String, state: Option<String>, now: u64)
        requires
            old(self).wf(),
        ensures
            final(self).wf(),
            final(self)@ == old(self)@.insert(path@, (opt_view(state), now)),
            final(self).regenerating() == old(self).regenerating().remove(path@),
    {
        self.release_regeneration(&path);
        let ghost pre = self.pages@;
        let page = CachedPage { path, state, generated_at: now };
        match self.position(&page.path) {
            Some(i) => {
                proof {
                    lemma_pages_map_update(self.pages@, i as int, page);
                }
                self.pages.set(i, page);
                proof {
                    assert(self.pages@ == pre.update(i as int, page));
                    assert(distinct_paths(self.pages@)) by {
                        let s = self.pages@;
                        assert forall|a: int, b: int|
                            0 <= a < s.len() && 0 <= b < s.len() && a != b implies #[trigger] s[a].path@
                                != #[trigger] s[b].path@ by {
                            let o = pre;
                            if a != i && b != i {
                                assert(s[a] == o[a] && s[b] == o[b]);
                            } else if a == i {
                                assert(s[b] == o[b]);
                            } else {
                                assert(s[a] == o[a]);
                            }
                        }
                    }
                }
            },
            None => {
                proof {
                    lemma_pages_map_keys(self.pages@);
                }
                self.pages.push(page);
                proof {
                    let s = self.pages@;
                    let o = pre;
                    assert(s.drop_last() =~= o);
                    assert(distinct_paths(s)) by {
                        assert forall|a: int, b: int|
                            0 <= a < s.len() && 0 <= b < s.len() && a != b implies #[trigger] s[a].path@
                                != #[trigger] s[b].path@ by {
                            if a < o.len() && b < o.len() {
                                assert(s[a] == o[a] && s[b] == o[b]);
                            } else if a < o.len() {
                                assert(s[a] == o[a]);
                            } else {
                                assert(s[b] == o[b]);
                            }
                        }
                    }
                }
            },
        }
    }
}

} // verus!
