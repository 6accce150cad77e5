//! Content-delivery core: request validation, cache keys, integrity
//! verification and the cache-aside decision procedure.

pub mod atproto;
pub mod aws;
pub mod errors;
pub mod manip;
pub mod presets;
pub mod route;
pub mod run;
pub mod state;
pub mod text;
