//! Identities under which the seed is registered with the application.

use vstd::prelude::*;

verus! {

/// Hook identity for the deployment-local website seed (distinct from the website
/// plugin's own state).
pub struct LarivWebsiteSeedTag;

/// Runs the site seed when seed hooks execute (for the `seed` command, not for `serve`).
#[derive(Clone, Copy)]
pub struct SeedsHook;

impl Default for SeedsHook {
    fn default() -> (hook: SeedsHook)
        ensures
            hook == SeedsHook,
    {
        SeedsHook
    }
}

} // verus!
