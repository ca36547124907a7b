//! A template-instantiation library for project scaffolding.
//!
//! A remote template source is classified into a concrete fetch target, the
//! declarative configuration found in the fetched working copy is turned into
//! an ordered task list, and a variable-substitution and string-transform
//! engine ties prompted values to the file mutations that the tasks describe.
//! All blocking work (network transfer, terminal prompting, file reads and
//! writes) is left to the caller: each task computes the action to perform
//! from plain values and hands it back.
use vstd::prelude::*;

pub mod apply;
pub mod error;
pub mod provider;
pub mod stage;
pub mod store;
pub mod subst;
pub mod task;
pub mod template;
pub mod text;

verus! {

/// How a remote template source is fetched: a version-control clone or an
/// HTTP archive download. Selection is made once, before any fetch attempt.
#[derive(Clone, Copy, Debug, PartialEq, Eq, Structural)]
pub enum Protocol {
    Git,
    Http,
}

impl Protocol {
    /// The short name under which the protocol is selected on the command line.
    pub fn label(&self) -> (r: &'static str)
        ensures
            r@ == (match *self {
                Protocol::Git => "git"@,
                Protocol::Http => "http"@,
            }),
    {
        match self {
            Protocol::Git => "git",
            Protocol::Http => "http",
        }
    }
}

/// The parsed command-line surface: one subcommand per invocation.
pub struct Cli {
    pub command: Commands,
}

/// The subcommands the tool offers.
pub enum Commands {
    /// Start creating a new project from a template.
    New {
        /// Where the template should be bootstrapped to; the current working
        /// directory when absent.
        path: Option<String>,
        /// URL to a repository or archive holding the template.
        template: String,
        /// Chosen method of fetching the remote source.
        method: Protocol,
    },
    /// Bootstrap a configuration file for a new template.
    Init,
}

} // verus!
