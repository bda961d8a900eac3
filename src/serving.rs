use vstd::prelude::*;
use vstd::string::{StrSliceExecFns, StringExecFns};
use crate::duration::{interval_seconds, parse_interval};
use crate::errors::ErrorKind;
use crate::states::opt_view;
use crate::template::{Template, TemplateView};

verus! {

/// The path of the page `suffix` under the route root `root`: the root itself
/// for an empty suffix, the suffix itself under an empty root, else the two
/// joined by a slash.
pub open spec fn page_path_spec(root: Seq<char>, suffix: Seq<char>) -> Seq<char> {
    if suffix.len() == 0 {
        root
    } else if root.len() == 0 {
        suffix
    } else {
        root + seq!['/'] + suffix
    }
}

/// The part of `path` below the route root `root`, if `path` lies strictly
/// beneath it. The root itself does not lie beneath itself.
pub open spec fn suffix_under(root: Seq<char>, path: Seq<char>) -> Option<Seq<char>> {
    if root.len() == 0 {
        if path.len() > 0 {
            Some(path)
        } else {
            None
        }
    } else if path.len() > root.len() + 1 && path.take(root.len() as int) == root && path[root.len()
        as int] == '/' {
        Some(path.skip(root.len() + 1 as int))
    } else {
        None
    }
}

/// The path of the page `suffix` under the route root `root`.
pub fn page_path(root: &String, suffix: &String) -> (r: String)
    ensures
        r@ == page_path_spec(root@, suffix@),
{
    if suffix.as_str().unicode_len() == 0 {
        root.clone()
    } else if root.as_str().unicode_len() == 0 {
        suffix.clone()
    } else {
        let mut r = root.clone();
        r.append("/");
        r.append(suffix.as_str());
        proof {
            reveal_strlit("/");
            assert(r@ =~= root@ + seq!['/'] + suffix@);
        }
        r
    }
}

/// Whether `path` lies strictly beneath the route root `root`.
pub fn is_under(root: &String, path: &String) -> (r: bool)
    ensures
        r == suffix_under(root@, path@) is Some,
{
    let rs = root.as_str();
    let ps = path.as_str();
    let n = rs.unicode_len();
    let m = ps.unicode_len();
    if n == 0 {
        return m > 0;
    }
    if m <= n || m - n <= 1 {
        return false;
    }
    let mut i: usize = 0;
    while i < n
        invariant
            n == root@.len(),
            m == path@.len(),
            m > n + 1,
            rs@ == root@,
            ps@ == path@,
            0 <= i <= n,
            forall|j: int| 0 <= j < i ==> path@[j] == root@[j],
        decreases n - i,
    {
        if rs.get_char(i) != ps.get_char(i) {
            assert(path@.take(n as int)[i as int] != root@[i as int]);
            return false;
        }
        i = i + 1;
    }
    assert(path@.take(n as int) =~= root@);
    ps.get_char(n) == '/'
}

/// What the server does with a request for one page.
#[derive(Clone, Copy, Debug, PartialEq, Eq, Structural)]
pub enum RequestPlan {
    /// The page does not exist.
    NotFound,
    /// Serve the cached state as it is.
    Serve,
    /// Generate the state of a page that was not built, then cache it.
    Generate,
    /// Run the route's revalidation predicate to decide.
    CheckLogic,
    /// Generate the state again and replace the cached entry.
    Regenerate,
}

/// The cached state, generated at `generated_at`, is at least `interval`
/// seconds old at `now`.
pub open spec fn stale_by_time(generated_at: u64, now: u64, interval: u64) -> bool {
    now >= generated_at && now - generated_at >= interval
}

/// The revalidation interval of a route in seconds, where it has one that reads.
pub open spec fn view_interval(v: TemplateView) -> Option<u64> {
    match v.revalidate_after {
        Some(s) => interval_seconds(s),
        None => None,
    }
}

/// What to do with a request for `path` on the route `v` at `now`, given
/// when its state was cached, if it was. A page that was not built is
/// generated only under incremental rendering and strictly beneath the
/// route's root. Time throttles the predicate: with an interval, the
/// predicate runs only once the interval has passed.
pub open spec fn request_plan(
    v: TemplateView,
    path: Seq<char>,
    cached_at: Option<u64>,
    now: u64,
) -> RequestPlan {
    match cached_at {
        None => if v.incremental && suffix_under(v.path, path) is Some {
            RequestPlan::Generate
        } else {
            RequestPlan::NotFound
        },
        Some(t) => if v.revalidate_after is Some && !stale_by_time(
            t,
            now,
            view_interval(v)->Some_0,
        ) {
            RequestPlan::Serve
        } else if v.should_revalidate {
            RequestPlan::CheckLogic
        } else if v.revalidate_after is Some {
            RequestPlan::Regenerate
        } else {
            RequestPlan::Serve
        },
    }
}

impl RequestPlan {
    /// What follows from the revalidation predicate's verdict.
    pub fn after_logic(verdict: bool) -> (r: RequestPlan)
        ensures
            r == (if verdict {
                RequestPlan::Regenerate
            } else {
                RequestPlan::Serve
            }),
    {
        if verdict {
            RequestPlan::Regenerate
        } else {
            RequestPlan::Serve
        }
    }
}

impl<P, B, R, V, A> Template<P, B, R, V, A> {
    /// The revalidation interval in seconds, if the route has one; fails with
    /// `InvalidRevalidationInterval(path, interval)` where it does not read.
    pub fn revalidate_seconds(&self) -> (r: Result<Option<u64>, ErrorKind>)
        ensures
            self@.revalidate_after is None ==> r == Ok::<Option<u64>, ErrorKind>(None),
            self@.revalidate_after is Some && view_interval(self@) is Some ==> r == Ok::<
                Option<u64>,
                ErrorKind,
            >(view_interval(self@)),
            self@.revalidate_after is Some && view_interval(self@) is None ==> r is Err && match r->Err_0 {
                ErrorKind::InvalidRevalidationInterval(p, s) => p@ == self@.path && s@
                    == self@.revalidate_after->Some_0,
                _ => false,
            },
    {
        match self.get_revalidate_interval() {
            None => Ok(None),
            Some(s) => match parse_interval(s.as_str()) {
                Some(secs) => Ok(Some(secs)),
                None => Err(ErrorKind::InvalidRevalidationInterval(self.get_path(), s)),
            },
        }
    }

    /// Decides what to do with a request for `path` at `now`, given when its
    /// state was cached, if it was; fails where the revalidation interval
    /// does not read.
    pub fn plan_request(&self, path: &String, cached_at: Option<u64>, now: u64) -> (r: Result<
        RequestPlan,
        ErrorKind,
    >)
        ensures
            self@.revalidate_after is Some && view_interval(self@) is None ==> r is Err && match r->Err_0 {
                ErrorKind::InvalidRevalidationInterval(p, s) => p@ == self@.path && s@
                    == self@.revalidate_after->Some_0,
                _ => false,
            },
            !(self@.revalidate_after is Some && view_interval(self@) is None) ==> r == Ok::<
                RequestPlan,
                ErrorKind,
            >(request_plan(self@, path@, cached_at, now)),
    {
        let interval = match self.revalidate_seconds() {
            Ok(i) => i,
            Err(e) => return Err(e),
        };
        match cached_at {
            None => {
                if self.uses_incremental() && is_under(&self.get_path(), path) {
                    Ok(RequestPlan::Generate)
                } else {
                    Ok(RequestPlan::NotFound)
                }
            },
            Some(t) => {
                let fresh = match interval {
                    Some(iv) => !(now >= t && now - t >= iv),
                    None => false,
                };
                if fresh {
                    Ok(RequestPlan::Serve)
                } else if self.revalidates_with_logic() {
                    Ok(RequestPlan::CheckLogic)
                } else if interval.is_some() {
                    Ok(RequestPlan::Regenerate)
                } else {
                    Ok(RequestPlan::Serve)
                }
            },
        }
    }

    /// The paths of the pages that the build phase generates for the
    /// enumerated suffixes, in their order.
    pub fn page_paths(&self, suffixes: &Vec<String>) -> (r: Vec<String>)
        ensures
            r@.len() == suffixes@.len(),
            forall|i: int|
                0 <= i < r@.len() ==> #[trigger] r@[i]@ == page_path_spec(self@.path, suffixes@[i]@),
    {
        let root = self.get_path();
        let mut r: Vec<String> = Vec::new();
        let mut i: usize = 0;
        while i < suffixes.len()
            invariant
                root@ == self@.path,
                0 <= i <= suffixes@.len(),
                r@.len() == i,
                forall|j: int|
                    0 <= j < i ==> #[trigger] r@[j]@ == page_path_spec(self@.path, suffixes@[j]@),
            decreases suffixes@.len() - i,
        {
            r.push(page_path(&root, &suffixes[i]));
            i = i + 1;
        }
        r
    }
}

} // verus!
