//! The two operations the tool offers: installing configured toolchains,
//! and assembling a redistributable package.

pub mod install;
pub mod package;
