//! Autostart through a scheduled task.

use vstd::prelude::*;

verus! {

/// Name of the scheduled task and of the legacy registry value.
pub const APP_NAME: &'static str = "MacTouchpad";

/// Command line the autostart task runs: the quoted executable path
/// followed by `--autostart`.
pub fn autostart_command(exe_path: &str) -> (r: String)
    ensures
        r@ == "\""@ + exe_path@ + "\" --autostart"@,
{
    let mut s = String::from_str("\"");
    s.append(exe_path);
    s.append("\" --autostart");
    s
}

} // verus!
