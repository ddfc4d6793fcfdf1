//! Discovers git checkouts below a directory and reports, for each one, its
//! classified status, its divergence from upstream and a few auxiliary metrics.

pub mod git_ops;
pub mod gitinfo;
pub mod interactive;
pub mod output;
pub mod printer;
pub mod scan;
pub mod text;
pub mod util;
