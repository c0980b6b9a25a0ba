//! Command execution and status tracking: the decisions behind running a
//! submitted command, capturing its output and bounding its run time, and the
//! store through which callers poll its status.

pub mod capture;
pub mod launch;
pub mod record;
pub mod request;
pub mod settings;
pub mod store;
pub mod submit;
pub mod suggest;
pub mod watchdog;
