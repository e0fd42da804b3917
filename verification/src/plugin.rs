//! The compatibility check on a plugin library before it is registered.

use vstd::prelude::*;

verus! {

/// Why a plugin library is refused.
#[derive(Debug, PartialEq, Eq, Structural)]
pub enum PluginError {
    /// The plugin was built with another compiler or another core version.
    VersionMismatch,
}

/// A plugin is usable only when it was built with the same compiler and the
/// same core library version as the watcher (the plugin interface has no
/// stable ABI).
pub fn check_plugin_versions(
    plugin_rustc: &str,
    plugin_core: &str,
    rustc: &str,
    core: &str,
) -> (r: Result<(), PluginError>)
    ensures
        r is Ok <==> (plugin_rustc@ == rustc@ && plugin_core@ == core@),
        r is Err ==> r == Err::<(), PluginError>(PluginError::VersionMismatch),
{
    let a = String::from_str(plugin_rustc);
    let b = String::from_str(rustc);
    let c = String::from_str(plugin_core);
    let d = String::from_str(core);
    if a != b || c != d {
        Err(PluginError::VersionMismatch)
    } else {
        Ok(())
    }
}

} // verus!
