//! The startup requirement on the host's web-rendering runtime.
//!
//! Probing the host — reading environment variables and looking for the
//! runtime's executable under the candidate base directories — is the
//! caller's work; the decision on the probe's outcome is made here.

use vstd::prelude::*;
use vstd::string::*;

verus! {

/// The environment variables that may name a base directory holding the
/// host's web-rendering runtime.
pub fn webview_env_vars() -> (v: Vec<&'static str>)
    ensures
        v@.len() == 4,
        v@[0]@ == "ProgramFiles"@,
        v@[1]@ == "ProgramFiles(x86)"@,
        v@[2]@ == "ProgramFiles(Arm)"@,
        v@[3]@ == "LOCALAPPDATA"@,
{
    let mut v: Vec<&'static str> = Vec::new();
    v.push("ProgramFiles");
    v.push("ProgramFiles(x86)");
    v.push("ProgramFiles(Arm)");
    v.push("LOCALAPPDATA");
    v
}

/// Decides the startup requirement: succeeds exactly when the probe found
/// the runtime, and otherwise reports the fixed error message.
pub fn ensure_webview2_installed(runtime_found: bool) -> (r: Result<(), String>)
    ensures
        runtime_found <==> r is Ok,
        r matches Err(m) ==> m@
            == "Microsoft Edge WebView2 Runtime is not installed on this system."@,
{
    if runtime_found {
        Ok(())
    } else {
        Err(String::from_str("Microsoft Edge WebView2 Runtime is not installed on this system."))
    }
}

} // verus!
