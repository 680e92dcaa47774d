//! The decisions of a gateway that hosts projects for its users.
//!
//! The gateway keeps two tables, accounts and projects, and hands projects
//! that have to move to another state to a worker. This crate holds what the
//! gateway decides: which statement it runs, what it makes of the answer,
//! which work it submits, how it rewrites a request before passing it on to a
//! project. Running statements, submitting work and proxying requests is left
//! to the caller, who performs what an operation asks for and hands the
//! outcome back.
#![allow(unused_imports)]

pub mod calls;
pub mod error;
pub mod http;
pub mod laws;
pub mod lookup;
pub mod projects;
pub mod random;
pub mod refresh;
pub mod route;
pub mod service;
pub mod statement;
pub mod tables;
pub mod types;
pub mod users;

pub use crate::error::{Error, ErrorKind, Failure, StatementError};
pub use crate::service::{GatewayContext, GatewayService};
pub use crate::statement::{Binding, Statement};
pub use crate::types::{
    AccountName, Args, Key, Project, ProjectCreating, ProjectName, User, Work,
};
