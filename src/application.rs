//! The navigator, which owns the active page, and the shell, which lays the
//! page's content above the navigation bar.
use vstd::prelude::*;

use crate::display::{button_count, DisplayTree, Widget, WidgetModel};
use crate::landing::Landing;
use crate::message::{Message, NavigationTarget};
use crate::page::{page_text, Page};

verus! {

/// The label of the button that activates the Landing page.
pub open spec fn landing_label() -> Seq<char> {
    "Landing"@
}

/// The label of the button that activates the Home page.
pub open spec fn home_label() -> Seq<char> {
    "Home"@
}

/// The display tree shown while the page that `t` names is active: its
/// content, then the Landing button, then the Home button.
pub open spec fn shell(t: NavigationTarget) -> Seq<WidgetModel> {
    seq![
        WidgetModel::Text(page_text(t)),
        WidgetModel::Button(landing_label(), Message::ChangePages(NavigationTarget::Landing)),
        WidgetModel::Button(home_label(), Message::ChangePages(NavigationTarget::Home)),
    ]
}

/// The application state: exactly one active page.
#[derive(Clone, Copy, Debug, PartialEq, Eq, Structural)]
pub struct Application {
    pub current_page: Page,
}

impl Application {
    /// The state before any message has been received.
    pub open spec fn initial() -> Application {
        Application { current_page: Page::Landing(Landing) }
    }

    /// The state after `message` has been handled in `self`.
    pub open spec fn spec_update(self, message: Message) -> Application {
        match message {
            Message::ChangePages(t) => Application { current_page: Page::spec_fresh(t) },
        }
    }

    /// What `render` returns in `self`.
    pub open spec fn spec_render(self) -> Seq<WidgetModel> {
        shell(self.current_page.target())
    }

    /// Handles a message. A navigation message replaces the active page with
    /// a fresh instance of its target, whatever page was active before.
    pub fn update(&mut self, message: Message)
        ensures
            *final(self) == old(self).spec_update(message),
    {
        match message {
            Message::ChangePages(t) => {
                self.current_page = Page::fresh(t);
            },
        }
    }

    /// Builds the display tree: the active page's content, then a button to
    /// the Landing page, then a button to the Home page.
    pub fn render(&self) -> (r: DisplayTree)
        ensures
            r@ == self.spec_render(),
    {
        let content = self.current_page.render();
        let landing_button = Widget::button(
            "Landing",
            Message::ChangePages(NavigationTarget::Landing),
        );
        let home_button = Widget::button("Home", Message::ChangePages(NavigationTarget::Home));
        let children = vec![content, landing_button, home_button];
        let r = DisplayTree { children };
        assert(r@ =~= self.spec_render());
        r
    }
}

impl Default for Application {
    /// Starts on the Landing page.
    fn default() -> (r: Application)
        ensures
            r == Application::initial(),
    {
        Application { current_page: Page::Landing(Landing::new()) }
    }
}

/// After a navigation message to `t`, the rendered tree opens with the
/// content of `t`'s page: "world" for Home, "hello" for Landing.
pub proof fn lemma_navigation_shows_target(a: Application, t: NavigationTarget)
    ensures
        a.spec_update(Message::ChangePages(t)).spec_render()[0] == WidgetModel::Text(
            match t {
                NavigationTarget::Home => "world"@,
                NavigationTarget::Landing => "hello"@,
            },
        ),
{
}

/// Handling the same message twice in a row leaves the same state, and so
/// the same rendered tree, as handling it once.
pub proof fn lemma_update_idempotent(a: Application, m: Message)
    ensures
        a.spec_update(m).spec_update(m) == a.spec_update(m),
        a.spec_update(m).spec_update(m).spec_render() == a.spec_update(m).spec_render(),
{
}

/// Before any message, the rendered tree opens with the Landing page's
/// content, "hello".
pub proof fn lemma_initial_shows_landing()
    ensures
        Application::initial().spec_render()[0] == WidgetModel::Text("hello"@),
{
}

/// In every state the rendered tree holds exactly two buttons.
pub proof fn lemma_two_buttons(a: Application)
    ensures
        button_count(a.spec_render()) == 2,
{
    let s = a.spec_render();
    assert(s.drop_last().drop_last().drop_last() =~= Seq::<WidgetModel>::empty());
    assert(button_count(s.drop_last().drop_last().drop_last()) == 0);
    assert(button_count(s.drop_last().drop_last()) == 0);
    assert(button_count(s.drop_last()) == 1);
}

} // verus!
