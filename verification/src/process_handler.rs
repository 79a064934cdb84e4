//! Process lifecycle collaborator. Terminating the current process is an
//! operating-system action outside the verified core; this type only marks
//! the capability so callers around the library can attach it.

use vstd::prelude::*;

verus! {

/// Marker for the process-termination collaborator. The termination call
/// itself (sending the current process a graceful termination signal) is
/// performed outside the verified library.
pub struct ProcessHandler;

} // verus!
