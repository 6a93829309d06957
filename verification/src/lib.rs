//! Verified core of Stream Stash.
use vstd::prelude::*;

pub mod db;
pub mod google_auth;
pub mod media;
pub mod routes;
pub mod search;
pub mod text;
pub mod tmdb;
pub mod urls;

verus! {

} // verus!
