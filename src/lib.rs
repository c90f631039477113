//! A URL-routing engine: route templates with typed placeholders are compiled
//! into anchored matchers, and an ordered route table picks the first route
//! whose method and path match a request.

pub mod engine;
pub mod laws;
pub mod pattern;
pub mod routing;
pub mod views;

pub use pattern::compile_template;
pub use routing::{Request, Response, Route, Router};
pub use views::View;
