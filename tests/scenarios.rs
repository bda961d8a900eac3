use perseus::cache::StateCache;
use perseus::errors::ErrorKind;
use perseus::serving::{is_under, page_path, RequestPlan};
use perseus::template::{StringResult, StringResultWithCause, Template};
use perseus::states::States;

type PathsFn = fn() -> StringResult<Vec<String>>;
type StateFn = fn(String) -> StringResultWithCause<String>;
type RevalidateFn = fn() -> StringResultWithCause<bool>;
type AmalgamateFn = fn(States) -> StringResultWithCause<Option<String>>;
type Route = Template<PathsFn, StateFn, (), RevalidateFn, AmalgamateFn>;

fn blog_paths() -> StringResult<Vec<String>> {
    Ok(vec!["a".to_string(), "b".to_string()])
}

fn blog_state(path: String) -> StringResultWithCause<String> {
    Ok(format!("state-{}", path))
}

fn always() -> StringResultWithCause<bool> {
    Ok(true)
}

fn blog(incremental: bool) -> Route {
    Template::new("blog".to_string())
        .build_paths_fn(blog_paths as PathsFn)
        .build_state_fn(blog_state as StateFn)
        .incremental_path_rendering(incremental)
}

/// Runs the build phase of one route into `cache` at time `now`.
fn build(t: &Route, cache: &mut StateCache, now: u64) -> Result<(), ErrorKind> {
    let enumerate = t.build_paths_call()?;
    let suffixes = t.build_paths_outcome(enumerate())?;
    let pages = t.page_paths(&suffixes);
    for (suffix, page) in suffixes.into_iter().zip(pages) {
        let make = t.build_state_call()?;
        let state = t.build_state_outcome(make(suffix))?;
        cache.store(page, Some(state), now);
    }
    Ok(())
}

/// Serves one request at `now`: the state that the page is rendered with, or
/// `None` where it is not found.
fn serve(t: &Route, cache: &mut StateCache, path: &str, now: u64) -> Option<Option<String>> {
    let path = path.to_string();
    let mut plan = t.plan_request(&path, cache.generated_at(&path), now).unwrap();
    if plan == RequestPlan::CheckLogic {
        let verdict = t.should_revalidate_outcome((t.should_revalidate_call().unwrap())()).unwrap();
        plan = RequestPlan::after_logic(verdict);
    }
    match plan {
        RequestPlan::NotFound => None,
        RequestPlan::Serve => Some(cache.get(&path).unwrap().state.clone()),
        RequestPlan::Generate | RequestPlan::Regenerate => {
            let suffix = path["blog/".len()..].to_string();
            let make = t.build_state_call().unwrap();
            let state = t.build_state_outcome(make(suffix)).unwrap();
            cache.store(path.clone(), Some(state.clone()), now);
            Some(Some(state))
        }
        RequestPlan::CheckLogic => unreachable!(),
    }
}

#[test]
fn build_phase_caches_each_enumerated_path() {
    let t = blog(false);
    let mut cache = StateCache::new();
    build(&t, &mut cache, 0).unwrap();
    assert_eq!(cache.len(), 2);
    assert_eq!(cache.get(&"blog/a".to_string()).unwrap().state, Some("state-a".to_string()));
    assert_eq!(cache.get(&"blog/b".to_string()).unwrap().state, Some("state-b".to_string()));
}

#[test]
fn unbuilt_path_is_not_found_without_incremental() {
    let t = blog(false);
    let mut cache = StateCache::new();
    build(&t, &mut cache, 0).unwrap();
    assert_eq!(serve(&t, &mut cache, "blog/c", 1), None);
    assert_eq!(cache.len(), 2);
    assert_eq!(serve(&t, &mut cache, "blog/a", 1), Some(Some("state-a".to_string())));
}

#[test]
fn unbuilt_path_is_generated_and_cached_with_incremental() {
    let t = blog(true);
    let mut cache = StateCache::new();
    build(&t, &mut cache, 0).unwrap();
    let path = "blog/c".to_string();
    assert_eq!(t.plan_request(&path, None, 1), Ok(RequestPlan::Generate));
    assert_eq!(serve(&t, &mut cache, "blog/c", 1), Some(Some("state-c".to_string())));
    assert_eq!(cache.len(), 3);
    assert_eq!(cache.get(&path).unwrap().state, Some("state-c".to_string()));
    assert_eq!(t.plan_request(&path, cache.generated_at(&path), 2), Ok(RequestPlan::Serve));
}

#[test]
fn incremental_never_generates_the_root() {
    let t = blog(true);
    assert_eq!(t.plan_request(&"blog".to_string(), None, 0), Ok(RequestPlan::NotFound));
    assert_eq!(t.plan_request(&"blog/".to_string(), None, 0), Ok(RequestPlan::NotFound));
    assert_eq!(t.plan_request(&"blogs/x".to_string(), None, 0), Ok(RequestPlan::NotFound));
}

#[test]
fn time_revalidation_waits_for_the_interval() {
    let t = blog(false).revalidate_after("10s".to_string());
    let mut cache = StateCache::new();
    build(&t, &mut cache, 100).unwrap();
    let path = "blog/a".to_string();
    for now in 100..110 {
        assert_eq!(t.plan_request(&path, cache.generated_at(&path), now), Ok(RequestPlan::Serve));
    }
    assert_eq!(t.plan_request(&path, cache.generated_at(&path), 110), Ok(RequestPlan::Regenerate));
    assert_eq!(serve(&t, &mut cache, "blog/a", 111), Some(Some("state-a".to_string())));
    assert_eq!(cache.generated_at(&path), Some(111));
    assert_eq!(cache.len(), 2);
    assert_eq!(t.plan_request(&path, cache.generated_at(&path), 115), Ok(RequestPlan::Serve));
    assert_eq!(t.plan_request(&path, cache.generated_at(&path), 121), Ok(RequestPlan::Regenerate));
}

#[test]
fn logic_revalidation_runs_only_after_the_interval() {
    let t = blog(false)
        .revalidate_after("10s".to_string())
        .should_revalidate_fn(always as RevalidateFn);
    let path = "blog/a".to_string();
    assert_eq!(t.plan_request(&path, Some(0), 9), Ok(RequestPlan::Serve));
    assert_eq!(t.plan_request(&path, Some(0), 10), Ok(RequestPlan::CheckLogic));
    let only_logic = blog(false).should_revalidate_fn(always as RevalidateFn);
    assert_eq!(only_logic.plan_request(&path, Some(0), 0), Ok(RequestPlan::CheckLogic));
    assert_eq!(RequestPlan::after_logic(true), RequestPlan::Regenerate);
    assert_eq!(RequestPlan::after_logic(false), RequestPlan::Serve);
}

#[test]
fn unreadable_interval_is_an_error() {
    let t = blog(false).revalidate_after("soon".to_string());
    assert_eq!(
        t.plan_request(&"blog/a".to_string(), Some(0), 5),
        Err(ErrorKind::InvalidRevalidationInterval("blog".to_string(), "soon".to_string()))
    );
    assert_eq!(blog(false).revalidate_after("1h".to_string()).revalidate_seconds(), Ok(Some(3600)));
    assert_eq!(blog(false).revalidate_seconds(), Ok(None));
}

#[test]
fn page_paths_join_root_and_suffix() {
    assert_eq!(page_path(&"blog".to_string(), &"a".to_string()), "blog/a");
    assert_eq!(page_path(&"blog".to_string(), &"".to_string()), "blog");
    assert_eq!(page_path(&"".to_string(), &"about".to_string()), "about");
    let t = blog(false);
    assert_eq!(
        t.page_paths(&vec!["x".to_string(), "y/z".to_string()]),
        vec!["blog/x".to_string(), "blog/y/z".to_string()]
    );
    assert!(is_under(&"blog".to_string(), &"blog/a".to_string()));
    assert!(!is_under(&"blog".to_string(), &"blog".to_string()));
    assert!(!is_under(&"blog".to_string(), &"blogx".to_string()));
    assert!(is_under(&"".to_string(), &"x".to_string()));
    assert!(!is_under(&"".to_string(), &"".to_string()));
}

#[test]
fn concurrent_stale_requests_regenerate_once() {
    let t = blog(false).revalidate_after("10s".to_string());
    let mut cache = StateCache::new();
    build(&t, &mut cache, 0).unwrap();
    let path = "blog/a".to_string();
    // two requests arrive together once the interval has passed
    let first = t.plan_request(&path, cache.generated_at(&path), 10).unwrap();
    let second = t.plan_request(&path, cache.generated_at(&path), 10).unwrap();
    assert_eq!(first, RequestPlan::Regenerate);
    assert_eq!(second, RequestPlan::Regenerate);
    assert!(cache.claim_regeneration(&path));
    assert!(!cache.claim_regeneration(&path));
    // the second reader sees the old entry whole while the first regenerates
    assert_eq!(cache.get(&path).unwrap().state, Some("state-a".to_string()));
    assert_eq!(cache.get(&path).unwrap().generated_at, 0);
    cache.store(path.clone(), Some("state-a2".to_string()), 10);
    assert!(!cache.is_regenerating(&path));
    let page = cache.get(&path).unwrap();
    assert_eq!((page.state.clone(), page.generated_at), (Some("state-a2".to_string()), 10));
}
