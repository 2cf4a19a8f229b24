//! Sequential, fallback-driven request dispatch for an HTTP server.
//!
//! A request is offered to an ordered list of candidate handlers, one at a
//! time: the first that does not answer "not found" dispatches it. When none
//! claims it, or the one that did fails, a fallback renders the failure.
pub mod errors;
pub mod laws;
pub mod multipart;
pub mod pages;
pub mod resolver;
pub mod routing;
mod shared;
pub mod status;

pub use errors::{HttpError, RssError};
pub use multipart::{FormData, MultipartData, MultipartError, MultipartHandler};
pub use pages::{HelloWorld, MultipartTest, StaticRouterService};
pub use resolver::{Resolution, RouteOutcome, RouteResolver};
pub use routing::{Action, Event, Handling, RootService, RouterService, Stage};
