//! Supervision of a backend process launched by a desktop host: locating the
//! backend's resource directory among several deployment layouts, preparing
//! its launch, and holding the single running child so that it is stopped
//! exactly once.
use vstd::prelude::*;

pub mod fspath;
pub mod launch;
pub mod locator;
pub mod probe;
pub mod scan;
pub mod supervisor;

verus! {

} // verus!
