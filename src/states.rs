use vstd::prelude::*;
use crate::errors::ErrorKind;

verus! {

/// The states generated for one path in one generation cycle, kept apart so
/// that reconciliation knows which strategy produced which.
#[derive(Default)]
pub struct States {
    /// State from the build-state strategy.
    pub build_state: Option<String>,
    /// State from the request-state strategy.
    pub request_state: Option<String>,
}

/// The characters of an optional string.
pub open spec fn opt_view(o: Option<String>) -> Option<Seq<char>> {
    match o {
        Some(s) => Some(s@),
        None => None,
    }
}

/// Clones an optional string.
pub fn clone_opt(o: &Option<String>) -> (r: Option<String>)
    ensures
        opt_view(r) == opt_view(*o),
{
    match o {
        Some(s) => Some(s.clone()),
        None => None,
    }
}

impl States {
    /// The single state that a caller without amalgamation resolves to:
    /// `None` when neither is set, the one that is set otherwise. Meaningful
    /// only where not both are set.
    pub open spec fn defined_view(&self) -> Option<Seq<char>> {
        if self.build_state is Some {
            opt_view(self.build_state)
        } else {
            opt_view(self.request_state)
        }
    }

    /// Both build and request state are set.
    pub open spec fn both_defined_spec(&self) -> bool {
        self.build_state is Some && self.request_state is Some
    }

    /// Both states unset.
    pub fn new() -> (r: Self)
        ensures
            r.build_state is None,
            r.request_state is None,
    {
        States { build_state: None, request_state: None }
    }

    /// Whether both build and request state are set.
    pub fn both_defined(&self) -> (r: bool)
        ensures
            r == self.both_defined_spec(),
    {
        self.build_state.is_some() && self.request_state.is_some()
    }

    /// The only state that is set, or `None` if neither is; fails with
    /// `BothStatesDefined` if both are.
    pub fn get_defined(&self) -> (r: Result<Option<String>, ErrorKind>)
        ensures
            self.both_defined_spec() ==> r
                == Err::<Option<String>, ErrorKind>(ErrorKind::BothStatesDefined),
            !self.both_defined_spec() ==> r is Ok && opt_view(
                r->Ok_0,
            ) == self.defined_view(),
    {
        if self.both_defined() {
            return Err(ErrorKind::BothStatesDefined);
        }
        if self.build_state.is_some() {
            Ok(clone_opt(&self.build_state))
        } else if self.request_state.is_some() {
            Ok(clone_opt(&self.request_state))
        } else {
            Ok(None)
        }
    }
}

} // verus!
