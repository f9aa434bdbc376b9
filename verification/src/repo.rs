//! A source repository, as the projects page lists it.

use vstd::prelude::*;

verus! {

/// A repository: its name, what it is about, and when it was last pushed to.
#[derive(Debug)]
pub struct Repository {
    pub name: String,
    pub description: Option<String>,
    pub pushed_at: String,
}

} // verus!
