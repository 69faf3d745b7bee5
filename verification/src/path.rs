//! Borrowed and owned views of a path of the host.

use vstd::prelude::*;
use crate::mgp::Handle;

verus! {

/// A borrowed view of a path that the host owns. It is valid for the time of
/// the invocation and is never released by this library.
#[derive(Clone, Copy, Debug, PartialEq, Eq, Structural)]
pub struct PathRef {
    pub handle: Handle,
}

} // verus!
