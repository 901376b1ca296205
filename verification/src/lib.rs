//! A logging front end whose minimum severity and logger-construction strategy
//! live in one shared, lock-guarded configuration, together with a few helpers
//! for file-system paths.

pub mod errors;
pub mod level;
pub mod lock;
pub mod logger;
pub mod utils;
