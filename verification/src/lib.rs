//! Decision logic of a GitHub bot that hands work from an authorized user to
//! coding agents: configuration defaults, text handling for GitHub data,
//! processing state, task planning and health checks.

pub mod agent;
pub mod config;
pub mod context;
pub mod github;
pub mod health;
pub mod laws;
pub mod poll;
pub mod state;
pub mod tasks;
pub mod text;
pub mod workflows;
