//! Composition defaults of the shop service host and API assembly.

use vstd::prelude::*;

verus! {

/// The number of route crates the API assembly composes (the app API and
/// the backend API).
pub const ROUTE_CRATE_COUNT: usize = 2;

/// The number of route crates the API assembly composes.
pub fn assembly_route_count() -> (n: usize)
    ensures
        n == ROUTE_CRATE_COUNT,
{
    ROUTE_CRATE_COUNT
}

/// The locale that seed data is written in.
pub fn default_seed_locale() -> (s: &'static str)
    ensures
        s@ == "zh-CN"@,
{
    "zh-CN"
}

/// The seed profile applied when none is chosen.
pub fn default_seed_profile() -> (s: &'static str)
    ensures
        s@ == "standard"@,
{
    "standard"
}

} // verus!
