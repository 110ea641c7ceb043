//! Messages that the navigator receives.
use vstd::prelude::*;

verus! {

/// The closed set of pages that navigation can activate.
#[derive(Clone, Copy, Debug, PartialEq, Eq, Structural)]
pub enum NavigationTarget {
    Home,
    Landing,
}

/// A message sent to the navigator.
#[derive(Clone, Copy, Debug, PartialEq, Eq, Structural)]
pub enum Message {
    /// Activate a fresh instance of the named page.
    ChangePages(NavigationTarget),
}

} // verus!
