//! Which phase of the buildpack lifecycle a buildpack executable runs.

use vstd::prelude::*;
use vstd::string::StringExecFns;

verus! {

/// A phase of the buildpack lifecycle.
pub enum Phase {
    Detect,
    Build,
}

/// The phase that the executable called `file_name` runs: `bin/detect` detects and
/// `bin/build` builds; any other name runs no phase.
pub fn phase_of_executable(file_name: &str) -> (r: Option<Phase>)
    ensures
        file_name@ == "detect"@ ==> r == Some(Phase::Detect),
        file_name@ == "build"@ ==> r == Some(Phase::Build),
        file_name@ != "detect"@ && file_name@ != "build"@ ==> r is None,
{
    proof {
        reveal_strlit("detect");
        reveal_strlit("build");
        assert("detect"@.len() != "build"@.len());
    }
    let name = String::from_str(file_name);
    if name == String::from_str("detect") {
        Some(Phase::Detect)
    } else if name == String::from_str("build") {
        Some(Phase::Build)
    } else {
        None
    }
}

} // verus!
