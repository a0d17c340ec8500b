//! A client library for the SpaceTraders game API.
//!
//! The library describes each HTTP request that a command needs and decides what
//! a reply means; it performs no I/O itself. Every function is verified against
//! its contract.
#![allow(non_camel_case_types)]

use crate::cli::Command;
use crate::domain::Agent;
use vstd::prelude::*;

pub mod api;
pub mod auth;
pub mod cli;
pub mod decimal;
pub mod domain;
pub mod request;
pub mod symbol;

verus! {

/// The arguments of the command line: the command, if one was named.
#[derive(Debug, Clone, PartialEq)]
pub struct AppArgs {
    pub command: Option<Command>,
}

/// An authenticated session: the bearer token and the agent it belongs to.
#[derive(Debug, PartialEq)]
pub struct UserInfo {
    pub token: String,
    pub agent: Agent,
}

impl Clone for UserInfo {
    fn clone(&self) -> (copy: Self)
        ensures
            copy == *self,
    {
        UserInfo { token: self.token.clone(), agent: self.agent.clone() }
    }
}

} // verus!
