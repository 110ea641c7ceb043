//! The Landing page.
use vstd::prelude::*;

use crate::display::{Widget, WidgetModel};
use crate::message::Message;

verus! {

/// The Landing page: static content, no state of its own.
#[derive(Clone, Copy, Debug, PartialEq, Eq, Structural)]
pub struct Landing;

/// The text that the Landing page shows.
pub open spec fn landing_text() -> Seq<char> {
    "hello"@
}

impl Landing {
    pub fn new() -> (r: Landing)
        ensures
            r == Landing,
    {
        Landing
    }

    /// Handles a page-local message. No page-local messages exist yet, so
    /// the page is left as it was.
    pub fn update(&mut self, message: Message)
        ensures
            *final(self) == *old(self),
    {
    }

    /// The page's content: a single text node.
    pub fn render(&self) -> (r: Widget)
        ensures
            r@ == WidgetModel::Text(landing_text()),
    {
        Widget::text("hello")
    }
}

} // verus!
