//! Pick local branches of a repository from a checkbox menu and delete them.
//!
//! The crate holds the part of the tool that decides: which branches a set of
//! ticked menu positions stands for, whether the repository still lists what
//! the menu showed, and what is recorded for each deletion that was tried.
//! Drawing the menu and printing the report are left to the caller.

pub mod branch;
pub mod error;
pub mod outcome;
pub mod resolve;
pub mod selection;
pub mod store;
