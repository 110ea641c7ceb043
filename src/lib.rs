//! A page-navigation shell: a navigator that owns the active page, and a
//! render step that lays the page's content above a fixed bar of navigation
//! buttons. The display tree it produces is independent of any UI toolkit.
pub mod application;
pub mod display;
pub mod home;
pub mod landing;
pub mod message;
pub mod page;

pub use application::Application;
pub use display::{DisplayTree, Widget};
pub use home::Home;
pub use landing::Landing;
pub use message::{Message, NavigationTarget};
pub use page::Page;
