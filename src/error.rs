use vstd::prelude::*;

use crate::map::GunfightMap;

verus! {

/// Failures of the statistics engine.
#[derive(Debug)]
pub enum Error {
    /// A map entry that the update had just ensured was not there.
    GunfightMapNotFound(GunfightMap),
    /// Every failure met while building statistics from a record list.
    FailedCreatingStats(Vec<Error>),
}

} // verus!
