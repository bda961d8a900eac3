use vstd::prelude::*;
use crate::errors::{ErrorCause, ErrorKind, is_not_enabled, is_render_failure};
use crate::states::{States, opt_view, clone_opt};

verus! {

/// What a user strategy function returns when its failure needs no cause.
pub type StringResult<T> = Result<T, String>;

/// What a user strategy function returns: a value, or a message with the
/// party at fault.
pub type StringResultWithCause<T> = Result<T, (String, ErrorCause)>;

/// The configuration of a route as plain values: its root path, which
/// strategies it enables and its revalidation interval.
pub struct TemplateView {
    pub path: Seq<char>,
    pub build_paths: bool,
    pub incremental: bool,
    pub build_state: bool,
    pub request_state: bool,
    pub should_revalidate: bool,
    pub revalidate_after: Option<Seq<char>>,
    pub amalgamate: bool,
}

/// `r` stands for the user outcome `out` of the strategy stage `stage` of the
/// route `path`: the value on success, `RenderFnFailed` with the function's
/// own cause and message on failure.
pub open spec fn wraps_outcome<T>(
    r: Result<T, ErrorKind>,
    out: StringResultWithCause<T>,
    stage: Seq<char>,
    path: Seq<char>,
) -> bool {
    match out {
        Ok(v) => r == Ok::<T, ErrorKind>(v),
        Err((msg, cause)) => r is Err && is_render_failure(r->Err_0, stage, path, cause, msg@),
    }
}

/// How one route's pages are generated: which strategies are enabled, and
/// the handles of the user functions that implement them (`P` enumerates
/// build paths, `B` makes build state, `R` makes request state, `V` decides
/// revalidation, `A` amalgamates states). Built once with the builder
/// methods, then only read.
pub struct Template<P, B, R, V, A> {
    path: String,
    get_build_paths: Option<P>,
    incremental_path_rendering: bool,
    get_build_state: Option<B>,
    get_request_state: Option<R>,
    should_revalidate: Option<V>,
    revalidate_after: Option<String>,
    amalgamate_states: Option<A>,
}

impl<P, B, R, V, A> View for Template<P, B, R, V, A> {
    type V = TemplateView;

    closed spec fn view(&self) -> TemplateView {
        TemplateView {
            path: self.path@,
            build_paths: self.get_build_paths is Some,
            incremental: self.incremental_path_rendering,
            build_state: self.get_build_state is Some,
            request_state: self.get_request_state is Some,
            should_revalidate: self.should_revalidate is Some,
            revalidate_after: opt_view(self.revalidate_after),
            amalgamate: self.amalgamate_states is Some,
        }
    }
}

/// A route with no strategy: a single page rendered once, without state.
pub open spec fn basic_view(path: Seq<char>) -> TemplateView {
    TemplateView {
        path,
        build_paths: false,
        incremental: false,
        build_state: false,
        request_state: false,
        should_revalidate: false,
        revalidate_after: None,
        amalgamate: false,
    }
}

/// The route uses no strategy at all.
pub open spec fn view_is_basic(v: TemplateView) -> bool {
    !v.build_paths && !v.build_state && !v.request_state && !v.should_revalidate
        && v.revalidate_after is None && !v.incremental
}

impl<P, B, R, V, A> Template<P, B, R, V, A> {
    /// The configured path enumerator.
    pub closed spec fn build_paths_handle(&self) -> Option<P> {
        self.get_build_paths
    }

    /// The configured build-state function.
    pub closed spec fn build_state_handle(&self) -> Option<B> {
        self.get_build_state
    }

    /// The configured request-state function.
    pub closed spec fn request_state_handle(&self) -> Option<R> {
        self.get_request_state
    }

    /// The configured revalidation predicate.
    pub closed spec fn should_revalidate_handle(&self) -> Option<V> {
        self.should_revalidate
    }

    /// The configured amalgamator.
    pub closed spec fn amalgamator(&self) -> Option<A> {
        self.amalgamate_states
    }

    /// A route under `path` with no strategy.
    pub fn new(path: String) -> (r: Self)
        ensures
            r@ == basic_view(path@),
            r.build_paths_handle() is None,
            r.build_state_handle() is None,
            r.request_state_handle() is None,
            r.should_revalidate_handle() is None,
            r.amalgamator() is None,
    {
        Template {
            path,
            get_build_paths: None,
            incremental_path_rendering: false,
            get_build_state: None,
            get_request_state: None,
            should_revalidate: None,
            revalidate_after: None,
            amalgamate_states: None,
        }
    }

    /// The root path of the route.
    pub fn get_path(&self) -> (r: String)
        ensures
            r@ == self@.path,
    {
        self.path.clone()
    }

    /// The interval after which cached state is regenerated, as configured.
    pub fn get_revalidate_interval(&self) -> (r: Option<String>)
        ensures
            opt_view(r) == self@.revalidate_after,
    {
        clone_opt(&self.revalidate_after)
    }

    /// Whether cached state is ever regenerated, by time or by logic.
    pub fn revalidates(&self) -> (r: bool)
        ensures
            r == (self@.should_revalidate || self@.revalidate_after is Some),
    {
        self.should_revalidate.is_some() || self.revalidate_after.is_some()
    }

    /// Whether cached state is regenerated after a time interval.
    pub fn revalidates_with_time(&self) -> (r: bool)
        ensures
            r == self@.revalidate_after is Some,
    {
        self.revalidate_after.is_some()
    }

    /// Whether cached state is regenerated by a custom predicate.
    pub fn revalidates_with_logic(&self) -> (r: bool)
        ensures
            r == self@.should_revalidate,
    {
        self.should_revalidate.is_some()
    }

    /// Whether paths beyond the enumerated ones are generated on demand.
    pub fn uses_incremental(&self) -> (r: bool)
        ensures
            r == self@.incremental,
    {
        self.incremental_path_rendering
    }

    /// Whether the route enumerates the paths beneath it.
    pub fn uses_build_paths(&self) -> (r: bool)
        ensures
            r == self@.build_paths,
    {
        self.get_build_paths.is_some()
    }

    /// Whether state is generated on every request.
    pub fn uses_request_state(&self) -> (r: bool)
        ensures
            r == self@.request_state,
    {
        self.get_request_state.is_some()
    }

    /// Whether state is generated at build time.
    pub fn uses_build_state(&self) -> (r: bool)
        ensures
            r == self@.build_state,
    {
        self.get_build_state.is_some()
    }

    /// Whether the route can merge build and request state.
    pub fn can_amalgamate_states(&self) -> (r: bool)
        ensures
            r == self@.amalgamate,
    {
        self.amalgamate_states.is_some()
    }

    /// Whether the route uses no strategy, and is rendered once without state.
    pub fn is_basic(&self) -> (r: bool)
        ensures
            r == view_is_basic(self@),
    {
        !self.uses_build_paths() && !self.uses_build_state() && !self.uses_request_state()
            && !self.revalidates() && !self.uses_incremental()
    }

    /// The path enumerator to run, or `TemplateFeatureNotEnabled(path,
    /// "build_paths")` if there is none.
    pub fn build_paths_call(&self) -> (r: Result<&P, ErrorKind>)
        ensures
            self.build_paths_handle() is Some ==> r == Ok::<&P, ErrorKind>(
                &self.build_paths_handle()->Some_0,
            ),
            self.build_paths_handle() is None ==> r is Err && is_not_enabled(
                r->Err_0,
                self@.path,
                "build_paths"@,
            ),
    {
        match &self.get_build_paths {
            Some(f) => Ok(f),
            None => Err(ErrorKind::TemplateFeatureNotEnabled(self.path.clone(), "build_paths".to_string())),
        }
    }

    /// What the path enumerator's outcome means for the engine: the paths, or
    /// `RenderFnFailed` at stage "get_build_paths", always blamed on the server
    /// since enumeration has no request.
    pub fn build_paths_outcome(&self, out: StringResult<Vec<String>>) -> (r: Result<
        Vec<String>,
        ErrorKind,
    >)
        ensures
            out is Ok ==> r == Ok::<Vec<String>, ErrorKind>(out->Ok_0),
            out is Err ==> r is Err && is_render_failure(
                r->Err_0,
                "get_build_paths"@,
                self@.path,
                ErrorCause::Server(None),
                out->Err_0@,
            ),
    {
        match out {
            Ok(paths) => Ok(paths),
            Err(msg) => Err(
                ErrorKind::RenderFnFailed(
                    "get_build_paths".to_string(),
                    self.path.clone(),
                    ErrorCause::Server(None),
                    msg,
                ),
            ),
        }
    }

    /// The build-state function to run with a page's path, or `TemplateFeatureNotEnabled(path, "build_state")` if there is
    /// none.
    pub fn build_state_call(&self) -> (r: Result<&B, ErrorKind>)
        ensures
            self.build_state_handle() is Some ==> r == Ok::<&B, ErrorKind>(
                &self.build_state_handle()->Some_0,
            ),
            self.build_state_handle() is None ==> r is Err && is_not_enabled(
                r->Err_0,
                self@.path,
                "build_state"@,
            ),
    {
        match &self.get_build_state {
            Some(f) => Ok(f),
            None => Err(ErrorKind::TemplateFeatureNotEnabled(self.path.clone(), "build_state".to_string())),
        }
    }

    /// The request-state function to run with a page's path and the request, or `TemplateFeatureNotEnabled(path, "request_state")` if there is
    /// none.
    pub fn request_state_call(&self) -> (r: Result<&R, ErrorKind>)
        ensures
            self.request_state_handle() is Some ==> r == Ok::<&R, ErrorKind>(
                &self.request_state_handle()->Some_0,
            ),
            self.request_state_handle() is None ==> r is Err && is_not_enabled(
                r->Err_0,
                self@.path,
                "request_state"@,
            ),
    {
        match &self.get_request_state {
            Some(f) => Ok(f),
            None => Err(ErrorKind::TemplateFeatureNotEnabled(self.path.clone(), "request_state".to_string())),
        }
    }

    /// The revalidation predicate to run, or `TemplateFeatureNotEnabled(path,
    /// "should_revalidate")` if there is none.
    pub fn should_revalidate_call(&self) -> (r: Result<&V, ErrorKind>)
        ensures
            self.should_revalidate_handle() is Some ==> r == Ok::<&V, ErrorKind>(
                &self.should_revalidate_handle()->Some_0,
            ),
            self.should_revalidate_handle() is None ==> r is Err && is_not_enabled(
                r->Err_0,
                self@.path,
                "should_revalidate"@,
            ),
    {
        match &self.should_revalidate {
            Some(f) => Ok(f),
            None => Err(ErrorKind::TemplateFeatureNotEnabled(self.path.clone(), "should_revalidate".to_string())),
        }
    }

    /// Hands a user outcome on: its value, or its message and cause inside
    /// `RenderFnFailed` for the given stage of this route.
    fn wrap_outcome<T>(&self, stage: &str, out: StringResultWithCause<T>) -> (r: Result<
        T,
        ErrorKind,
    >)
        ensures
            wraps_outcome(r, out, stage@, self@.path),
    {
        match out {
            Ok(v) => Ok(v),
            Err((msg, cause)) => Err(
                ErrorKind::RenderFnFailed(stage.to_string(), self.path.clone(), cause, msg),
            ),
        }
    }

    /// What the build-state function's outcome means for the engine: the
    /// state, or `RenderFnFailed` at stage "get_build_state" with the
    /// function's own cause.
    pub fn build_state_outcome(&self, out: StringResultWithCause<String>) -> (r: Result<
        String,
        ErrorKind,
    >)
        ensures
            wraps_outcome(r, out, "get_build_state"@, self@.path),
    {
        self.wrap_outcome("get_build_state", out)
    }

    /// What the request-state function's outcome means for the engine: the
    /// state, or `RenderFnFailed` at stage "get_request_state" with the
    /// function's own cause.
    pub fn request_state_outcome(&self, out: StringResultWithCause<String>) -> (r: Result<
        String,
        ErrorKind,
    >)
        ensures
            wraps_outcome(r, out, "get_request_state"@, self@.path),
    {
        self.wrap_outcome("get_request_state", out)
    }

    /// What the revalidation predicate's outcome means for the engine: its
    /// verdict, or `RenderFnFailed` at stage "should_revalidate" with the
    /// function's own cause.
    pub fn should_revalidate_outcome(&self, out: StringResultWithCause<bool>) -> (r: Result<
        bool,
        ErrorKind,
    >)
        ensures
            wraps_outcome(r, out, "should_revalidate"@, self@.path),
    {
        self.wrap_outcome("should_revalidate", out)
    }
}


impl<P, B, R, V, A> Template<P, B, R, V, A> {
    /// Enables the build-paths strategy with the given path enumerator.
    pub fn build_paths_fn(self, val: P) -> (r: Self)
        ensures
            r@ == (TemplateView { build_paths: true, ..self@ }),
            r.build_paths_handle() == Some(val),
            r.build_state_handle() == self.build_state_handle(),
            r.request_state_handle() == self.request_state_handle(),
            r.should_revalidate_handle() == self.should_revalidate_handle(),
            r.amalgamator() == self.amalgamator(),
    {
        Template { get_build_paths: Some(val), ..self }
    }

    /// Enables or disables generating unenumerated paths on demand.
    pub fn incremental_path_rendering(self, val: bool) -> (r: Self)
        ensures
            r@ == (TemplateView { incremental: val, ..self@ }),
            r.build_paths_handle() == self.build_paths_handle(),
            r.build_state_handle() == self.build_state_handle(),
            r.request_state_handle() == self.request_state_handle(),
            r.should_revalidate_handle() == self.should_revalidate_handle(),
            r.amalgamator() == self.amalgamator(),
    {
        Template { incremental_path_rendering: val, ..self }
    }

    /// Enables the build-state strategy with the given function.
    pub fn build_state_fn(self, val: B) -> (r: Self)
        ensures
            r@ == (TemplateView { build_state: true, ..self@ }),
            r.build_paths_handle() == self.build_paths_handle(),
            r.build_state_handle() == Some(val),
            r.request_state_handle() == self.request_state_handle(),
            r.should_revalidate_handle() == self.should_revalidate_handle(),
            r.amalgamator() == self.amalgamator(),
    {
        Template { get_build_state: Some(val), ..self }
    }

    /// Enables the request-state strategy with the given function.
    pub fn request_state_fn(self, val: R) -> (r: Self)
        ensures
            r@ == (TemplateView { request_state: true, ..self@ }),
            r.build_paths_handle() == self.build_paths_handle(),
            r.build_state_handle() == self.build_state_handle(),
            r.request_state_handle() == Some(val),
            r.should_revalidate_handle() == self.should_revalidate_handle(),
            r.amalgamator() == self.amalgamator(),
    {
        Template { get_request_state: Some(val), ..self }
    }

    /// Enables revalidation by custom logic with the given predicate.
    pub fn should_revalidate_fn(self, val: V) -> (r: Self)
        ensures
            r@ == (TemplateView { should_revalidate: true, ..self@ }),
            r.build_paths_handle() == self.build_paths_handle(),
            r.build_state_handle() == self.build_state_handle(),
            r.request_state_handle() == self.request_state_handle(),
            r.should_revalidate_handle() == Some(val),
            r.amalgamator() == self.amalgamator(),
    {
        Template { should_revalidate: Some(val), ..self }
    }

    /// Enables revalidation after a time interval, written as an integer and
    /// a unit (`10s`, `1w`).
    pub fn revalidate_after(self, val: String) -> (r: Self)
        ensures
            r@ == (TemplateView { revalidate_after: Some(val@), ..self@ }),
            r.build_paths_handle() == self.build_paths_handle(),
            r.build_state_handle() == self.build_state_handle(),
            r.request_state_handle() == self.request_state_handle(),
            r.should_revalidate_handle() == self.should_revalidate_handle(),
            r.amalgamator() == self.amalgamator(),
    {
        Template { revalidate_after: Some(val), ..self }
    }

    /// Enables state amalgamation with the given function.
    pub fn amalgamate_states_fn(self, val: A) -> (r: Self)
        ensures
            r@ == (TemplateView { amalgamate: true, ..self@ }),
            r.build_paths_handle() == self.build_paths_handle(),
            r.build_state_handle() == self.build_state_handle(),
            r.request_state_handle() == self.request_state_handle(),
            r.should_revalidate_handle() == self.should_revalidate_handle(),
            r.amalgamator() == Some(val),
    {
        Template { amalgamate_states: Some(val), ..self }
    }
}

impl<P, B, R, V, A> Template<P, B, R, V, A> where
    A: Fn(States) -> StringResultWithCause<Option<String>>,
 {
    /// Runs the amalgamator once on `states` and hands its outcome on
    /// unchanged, a failure inside `RenderFnFailed` at stage
    /// "amalgamate_states"; fails with `TemplateFeatureNotEnabled(path,
    /// "request_state")` if the route has no amalgamator.
    pub fn amalgamate_states(&self, states: States) -> (r: Result<Option<String>, ErrorKind>)
        requires
            self.amalgamator() is Some ==> call_requires(
                self.amalgamator()->Some_0,
                (states,),
            ),
        ensures
            self.amalgamator() is None ==> r is Err && is_not_enabled(
                r->Err_0,
                self@.path,
                "request_state"@,
            ),
            self.amalgamator() is Some ==> exists|out: StringResultWithCause<Option<String>>|
                call_ensures(self.amalgamator()->Some_0, (states,), out) && #[trigger] wraps_outcome(
                    r,
                    out,
                    "amalgamate_states"@,
                    self@.path,
                ),
    {
        match &self.amalgamate_states {
            Some(f) => {
                let out = f(states);
                self.wrap_outcome("amalgamate_states", out)
            },
            None => Err(
                ErrorKind::TemplateFeatureNotEnabled(self.path.clone(), "request_state".to_string()),
            ),
        }
    }

    /// The single state that a page is rendered with: the amalgamator's
    /// result when both build and request state are present and the route
    /// has one, `BothStatesDefined` when both are present and it has none,
    /// else whichever one is present, if any.
    pub fn resolve_states(&self, states: States) -> (r: Result<Option<String>, ErrorKind>)
        requires
            self.amalgamator() is Some ==> call_requires(
                self.amalgamator()->Some_0,
                (states,),
            ),
        ensures
            !states.both_defined_spec() ==> r is Ok && opt_view(r->Ok_0) == states.defined_view(),
            states.both_defined_spec() && self.amalgamator() is None ==> r
                == Err::<Option<String>, ErrorKind>(ErrorKind::BothStatesDefined),
            states.both_defined_spec() && self.amalgamator() is Some ==> exists|
                out: StringResultWithCause<Option<String>>,
            |
                call_ensures(self.amalgamator()->Some_0, (states,), out) && #[trigger] wraps_outcome(
                    r,
                    out,
                    "amalgamate_states"@,
                    self@.path,
                ),
    {
        if states.both_defined() && self.can_amalgamate_states() {
            self.amalgamate_states(states)
        } else {
            states.get_defined()
        }
    }
}

} // verus!
