//! Bounded screenshot dispatcher: the decision logic of a batch screenshot
//! tool. Given a set of targets (a URL plus an optional destination path) and
//! a concurrency limit, the library derives one output path per target, plans
//! one unit of work per target, and models the bounded fan-out of those units
//! and the navigate-then-capture steps inside each unit. The browser driver
//! calls themselves (navigate, capture, session start and quit) are performed
//! by an unverified shell around this library; every decision that shell makes
//! comes from here.

pub mod dispatch;
pub mod limit;
pub mod path;
pub mod session;
pub mod target;
pub mod unit;

pub use limit::effective_limit;
