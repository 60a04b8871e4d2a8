//! Decision logic of a daemon that keeps local clones of remote
//! repositories in step with their upstream branches.

pub mod auth;
pub mod auth_store;
pub mod cli;
pub mod command;
pub mod controller;
pub mod error;
pub mod git;
pub mod pull;
pub mod report;
pub mod retry;
pub mod schedule;
pub mod state;
pub mod target;
pub mod text;
pub mod traces;
pub mod worker;
