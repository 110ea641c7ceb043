use better5e::{Application, DisplayTree, Home, Landing, Message, NavigationTarget, Page, Widget};

fn text(s: &str) -> Widget {
    Widget::Text(s.to_string())
}

fn landing_button() -> Widget {
    Widget::Button("Landing".to_string(), Message::ChangePages(NavigationTarget::Landing))
}

fn home_button() -> Widget {
    Widget::Button("Home".to_string(), Message::ChangePages(NavigationTarget::Home))
}

fn expected(content: &str) -> Vec<Widget> {
    vec![text(content), landing_button(), home_button()]
}

#[test]
fn initial_render_shows_landing() {
    let app = Application::default();
    assert_eq!(app.current_page, Page::Landing(Landing));
    let tree = app.render();
    assert_eq!(tree.children, expected("hello"));
    assert_eq!(tree.button_count(), 2);
}

#[test]
fn navigation_to_home_shows_world() {
    let mut app = Application::default();
    app.update(Message::ChangePages(NavigationTarget::Home));
    assert_eq!(app.current_page, Page::Home(Home));
    assert_eq!(app.render().children[0], text("world"));
}

#[test]
fn navigation_to_landing_shows_hello() {
    let mut app = Application { current_page: Page::Home(Home) };
    app.update(Message::ChangePages(NavigationTarget::Landing));
    assert_eq!(app.current_page, Page::Landing(Landing));
    assert_eq!(app.render().children[0], text("hello"));
}

#[test]
fn self_navigation_keeps_page() {
    let mut app = Application::default();
    app.update(Message::ChangePages(NavigationTarget::Landing));
    assert_eq!(app.render().children, expected("hello"));
}

#[test]
fn repeated_navigation_is_idempotent() {
    for t in [NavigationTarget::Home, NavigationTarget::Landing] {
        let mut once = Application::default();
        once.update(Message::ChangePages(t));
        let mut twice = Application::default();
        twice.update(Message::ChangePages(t));
        twice.update(Message::ChangePages(t));
        assert_eq!(once, twice);
        assert_eq!(once.render(), twice.render());
    }
}

#[test]
fn two_buttons_in_every_state() {
    for page in [Page::Home(Home), Page::Landing(Landing)] {
        let app = Application { current_page: page };
        let tree = app.render();
        assert_eq!(tree.button_count(), 2);
        assert_eq!(tree.children[1], landing_button());
        assert_eq!(tree.children[2], home_button());
    }
}

#[test]
fn scenario_home_then_landing() {
    let mut app = Application::default();
    let tree = app.render();
    assert_eq!(tree.children, expected("hello"));
    assert_eq!(tree.button_count(), 2);

    app.update(Message::ChangePages(NavigationTarget::Home));
    let tree = app.render();
    assert_eq!(tree.children, expected("world"));
    assert_eq!(tree.button_count(), 2);

    app.update(Message::ChangePages(NavigationTarget::Landing));
    let tree = app.render();
    assert_eq!(tree.children, expected("hello"));
    assert_eq!(tree.button_count(), 2);
}

#[test]
fn pages_render_their_text() {
    assert_eq!(Home::new().render(), text("world"));
    assert_eq!(Landing::new().render(), text("hello"));
    assert_eq!(Page::fresh(NavigationTarget::Home).render(), text("world"));
    assert_eq!(Page::fresh(NavigationTarget::Landing).render(), text("hello"));
}

#[test]
fn fresh_page_matches_target() {
    assert_eq!(Page::fresh(NavigationTarget::Home), Page::Home(Home));
    assert_eq!(Page::fresh(NavigationTarget::Landing), Page::Landing(Landing));
}

#[test]
fn page_update_leaves_page_unchanged() {
    let mut home = Home::new();
    home.update(Message::ChangePages(NavigationTarget::Landing));
    assert_eq!(home, Home);
    let mut landing = Landing::new();
    landing.update(Message::ChangePages(NavigationTarget::Home));
    assert_eq!(landing, Landing);
    let mut page = Page::Home(Home);
    page.update(Message::ChangePages(NavigationTarget::Landing));
    assert_eq!(page, Page::Home(Home));
}

#[test]
fn button_count_of_empty_tree_is_zero() {
    let tree = DisplayTree { children: vec![] };
    assert_eq!(tree.button_count(), 0);
}

#[test]
fn button_count_skips_text_nodes() {
    let tree = DisplayTree {
        children: vec![home_button(), text("a"), text("b"), landing_button(), home_button()],
    };
    assert_eq!(tree.button_count(), 3);
}

#[test]
fn widget_constructors() {
    assert_eq!(Widget::text("x"), text("x"));
    assert_eq!(Widget::button("Home", Message::ChangePages(NavigationTarget::Home)), home_button());
    assert!(home_button().is_button());
    assert!(!text("x").is_button());
}
