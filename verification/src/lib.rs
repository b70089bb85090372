//! Removes the files of a package's build directory that the repository does
//! not track, after dropping privileges and under the build's exclusive lock.
//!
//! The library decides and the program around it acts. A [`run::Run`] names
//! the next operation; the program performs it and hands back what came of
//! it. [`order`] and [`selection`] hold what is proved of every run.

pub mod config;
pub mod failure;
pub mod host;
pub mod index;
pub mod order;
pub mod paths;
pub mod protocol;
pub mod run;
pub mod selection;
pub mod trace;
