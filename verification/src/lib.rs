//! The decisions of an agent that keeps a small fleet of ships busy against a
//! remote game service: what a remote call's outcome is classified as, what is
//! done about an error, and what each ship is told next. Nothing here talks to
//! the service; the caller performs the commands and hands back the replies.

pub mod command;
pub mod config;
pub mod constants;
pub mod cycle;
pub mod engine;
pub mod json;
pub mod model;
pub mod parsers;
pub mod policy;
pub mod report;
pub mod schedule;
pub mod trace;
