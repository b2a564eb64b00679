//! Installers as the engine sees them, and what is kept of the
//! post-installation hooks a tool ran.

use vstd::prelude::*;
use crate::model::{ToolEntry, ToolState};
use crate::orchestrator::InstallerError;

verus! {

/// An installer for one kind of source.
pub trait Installer {
    /// Installs the tool and gives back what is recorded about it.
    fn install(&self, tool: &ToolEntry) -> Result<ToolState, InstallerError>;

    /// The latest version the source offers for the tool.
    fn get_latest_version(&self, tool: &ToolEntry) -> Result<String, InstallerError>;
}

/// The post-installation hooks to run for a tool: none when it lists none.
pub fn post_installation_hooks_to_run(tool_entry: &ToolEntry) -> (r: Option<&Vec<String>>)
    ensures
        match tool_entry.post_installation_hooks {
            Some(h) => if h@.len() > 0 {
                r == Some(&h)
            } else {
                r is None
            },
            None => r is None,
        },
{
    match &tool_entry.post_installation_hooks {
        Some(h) => if h.len() > 0 {
            Some(h)
        } else {
            None
        },
        None => None,
    }
}

/// The hooks recorded as run for a tool: none when it lists none or when
/// running them failed (the installation goes on), else the commands that
/// ran.
pub fn execute_post_installation_hooks(
    tool_entry: &ToolEntry,
    execution: Result<Vec<String>, String>,
) -> (r: Option<Vec<String>>)
    ensures
        match tool_entry.post_installation_hooks {
            Some(h) => if h@.len() > 0 {
                match execution {
                    Ok(cmds) => r == Some(cmds),
                    Err(_) => r is None,
                }
            } else {
                r is None
            },
            None => r is None,
        },
{
    if post_installation_hooks_to_run(tool_entry).is_none() {
        return None;
    }
    match execution {
        Ok(cmds) => Some(cmds),
        Err(_) => None,
    }
}

} // verus!
