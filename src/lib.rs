//! Project scaffolding: layered settings, template resolution, project-name
//! rules and the post-generation pipeline, with their contracts.
use vstd::prelude::*;

pub mod cmd;
pub mod config;
pub mod output;
pub mod pipeline;
pub mod template;
pub mod text;
pub mod utils;

use crate::cmd::config::ConfigArgs;
use crate::cmd::list::ListArgs;
use crate::cmd::new::NewArgs;
use crate::cmd::update::UpdateArgs;

verus! {

/// A parsed command line.
#[derive(Debug, Clone)]
pub struct Cli {
    pub command: Command,
}

/// The commands.
#[derive(Debug, Clone)]
pub enum Command {
    /// Create a project from a template.
    New(NewArgs),
    /// List the templates.
    List(ListArgs),
    /// Manage the settings.
    Config(ConfigArgs),
    /// Replace the tool by its latest release.
    Update(UpdateArgs),
}

} // verus!
