//! Liveness probe for the companion process the program is bound to.

use vstd::prelude::*;
use sysinfo::SystemExt;

verus! {

/// Relies on `sysinfo::SystemExt::processes_by_name`: yields the currently
/// running processes whose name contains `process_name`.  The answer
/// depends on the machine's state at the moment of the call, so nothing
/// can be promised of it; callers must decide what to do for either
/// outcome.  When the processes cannot be enumerated, the iterator is
/// empty and the probe reports `false`.
#[verifier::external_body]
pub fn is_process_running(process_name: &str) -> bool {
    let system = sysinfo::System::new_all();
    let found = system.processes_by_name(process_name).next().is_some();
    found
}

} // verus!
