use vstd::prelude::*;
use crate::serving::{
    page_path_spec, suffix_under, request_plan, view_interval, stale_by_time, RequestPlan,
};
use crate::template::{TemplateView, basic_view, view_is_basic};

verus! {

/// A route that configures no strategy is basic, and uses no strategy and
/// no revalidation of any kind.
pub proof fn law_new_route_is_basic(path: Seq<char>)
    ensures
        view_is_basic(basic_view(path)),
        !basic_view(path).build_paths,
        !basic_view(path).incremental,
        !basic_view(path).build_state,
        !basic_view(path).request_state,
        !basic_view(path).amalgamate,
        !(basic_view(path).should_revalidate || basic_view(path).revalidate_after is Some),
        basic_view(path).revalidate_after is None,
        !basic_view(path).should_revalidate,
{
}

/// A page enumerated under a route with a non-empty suffix lies strictly
/// beneath the route's root, and that suffix is what lies beneath it.
pub proof fn law_page_lies_under_root(root: Seq<char>, suffix: Seq<char>)
    requires
        suffix.len() > 0,
    ensures
        suffix_under(root, page_path_spec(root, suffix)) == Some(suffix),
{
    if root.len() > 0 {
        let p = root + seq!['/'] + suffix;
        assert(p.take(root.len() as int) =~= root);
        assert(p.skip(root.len() + 1 as int) =~= suffix);
    }
}

/// Incremental rendering never generates the route's root: a request for the
/// root that was not built is not found.
pub proof fn law_root_is_never_generated_on_demand(v: TemplateView, now: u64)
    ensures
        request_plan(v, v.path, None, now) == RequestPlan::NotFound,
{
}

/// Without incremental rendering, a request for a page that was not built is
/// not found.
pub proof fn law_unbuilt_page_without_incremental(v: TemplateView, path: Seq<char>, now: u64)
    requires
        !v.incremental,
    ensures
        request_plan(v, path, None, now) == RequestPlan::NotFound,
{
}

/// A page that was built is never reported missing, and a page that was not
/// built is never served from the cache nor regenerated.
pub proof fn law_cached_pages_are_found(
    v: TemplateView,
    path: Seq<char>,
    cached_at: Option<u64>,
    now: u64,
)
    ensures
        cached_at is Some ==> request_plan(v, path, cached_at, now) != RequestPlan::NotFound
            && request_plan(v, path, cached_at, now) != RequestPlan::Generate,
        cached_at is None ==> request_plan(v, path, cached_at, now) == RequestPlan::NotFound
            || request_plan(v, path, cached_at, now) == RequestPlan::Generate,
{
}

/// With a revalidation interval, cached state is served untouched, and the
/// predicate is not run, until the interval has passed; from then on the
/// page is regenerated, or the predicate decides where the route has one.
pub proof fn law_time_throttles_revalidation(
    v: TemplateView,
    path: Seq<char>,
    generated_at: u64,
    now: u64,
)
    requires
        view_interval(v) is Some,
    ensures
        !stale_by_time(generated_at, now, view_interval(v)->Some_0) ==> request_plan(
            v,
            path,
            Some(generated_at),
            now,
        ) == RequestPlan::Serve,
        stale_by_time(generated_at, now, view_interval(v)->Some_0) && !v.should_revalidate
            ==> request_plan(v, path, Some(generated_at), now) == RequestPlan::Regenerate,
        stale_by_time(generated_at, now, view_interval(v)->Some_0) && v.should_revalidate
            ==> request_plan(v, path, Some(generated_at), now) == RequestPlan::CheckLogic,
{
}

/// A route that does not revalidate always serves what it cached.
pub proof fn law_no_revalidation_serves_cache(
    v: TemplateView,
    path: Seq<char>,
    generated_at: u64,
    now: u64,
)
    requires
        !(v.should_revalidate || v.revalidate_after is Some),
    ensures
        request_plan(v, path, Some(generated_at), now) == RequestPlan::Serve,
{
}

} // verus!
