//! The commands of the updater and what each of them does to a batch of
//! domains.

pub mod args;
pub mod command;
