//! Per-route rendering strategies: which state a page needs, when it is
//! generated, how build and request state are reconciled and when cached
//! state goes stale.

pub mod cache;
pub mod cmd;
pub mod duration;
pub mod errors;
pub mod i18n;
pub mod laws;
pub mod serving;
pub mod states;
pub mod template;
