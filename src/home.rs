//! The Home page.
use vstd::prelude::*;

use crate::display::{Widget, WidgetModel};
use crate::message::Message;

verus! {

/// The Home page: static content, no state of its own.
#[derive(Clone, Copy, Debug, PartialEq, Eq, Structural)]
pub struct Home;

/// The text that the Home page shows.
pub open spec fn home_text() -> Seq<char> {
    "world"@
}

impl Home {
    pub fn new() -> (r: Home)
        ensures
            r == Home,
    {
        Home
    }

    /// Handles a page-local message. No page-local messages exist yet, so
    /// the page is left as it was.
    pub fn update(&mut self, message: Message)
        ensures
            *final(self) == *old(self),
    {
    }

    /// The page's content: a single text node.
    pub fn render(&self) -> (r: Widget)
        ensures
            r@ == WidgetModel::Text(home_text()),
    {
        Widget::text("world")
    }
}

} // verus!
