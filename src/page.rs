//! The active page: one of a closed set of variants.
use vstd::prelude::*;

use crate::display::{Widget, WidgetModel};
use crate::home::{home_text, Home};
use crate::landing::{landing_text, Landing};
use crate::message::{Message, NavigationTarget};

verus! {

/// A page, dispatched by matching on its variant.
#[derive(Clone, Copy, Debug, PartialEq, Eq, Structural)]
pub enum Page {
    Home(Home),
    Landing(Landing),
}

/// The text content of the page that `t` names.
pub open spec fn page_text(t: NavigationTarget) -> Seq<char> {
    match t {
        NavigationTarget::Home => home_text(),
        NavigationTarget::Landing => landing_text(),
    }
}

impl Page {
    /// Which page this is.
    pub open spec fn target(self) -> NavigationTarget {
        match self {
            Page::Home(_) => NavigationTarget::Home,
            Page::Landing(_) => NavigationTarget::Landing,
        }
    }

    /// The freshly constructed page that `t` names.
    pub open spec fn spec_fresh(t: NavigationTarget) -> Page {
        match t {
            NavigationTarget::Home => Page::Home(Home),
            NavigationTarget::Landing => Page::Landing(Landing),
        }
    }

    /// Constructs a fresh instance of the page that `t` names.
    pub fn fresh(t: NavigationTarget) -> (r: Page)
        ensures
            r == Page::spec_fresh(t),
            r.target() == t,
    {
        match t {
            NavigationTarget::Home => Page::Home(Home::new()),
            NavigationTarget::Landing => Page::Landing(Landing::new()),
        }
    }

    /// Hands a page-local message to the active variant.
    pub fn update(&mut self, message: Message)
        ensures
            *final(self) == *old(self),
    {
        match self {
            Page::Home(p) => p.update(message),
            Page::Landing(p) => p.update(message),
        }
    }

    /// The page's content.
    pub fn render(&self) -> (r: Widget)
        ensures
            r@ == WidgetModel::Text(page_text(self.target())),
    {
        match self {
            Page::Home(p) => p.render(),
            Page::Landing(p) => p.render(),
        }
    }
}

} // verus!
