//! The selection's output and the persisted cache shape.

use vstd::prelude::*;
use crate::browsers::{Browsers, spec_build_args};
use crate::installation::Installation;
use crate::profile::Profile;
use crate::text::strs_view;

verus! {

/// The finished selection: the target URI, the kind, the resolved executable
/// and the resolved profile — everything the launcher needs.
#[derive(Debug, Clone, PartialEq)]
pub struct CommandArguments {
    pub uri: String,
    pub browser_type: Browsers,
    pub executable: String,
    pub profile: Profile,
}

impl CommandArguments {
    /// The full ordered argument list of the command to spawn.
    pub fn command_args(&self) -> (r: Vec<String>)
        requires
            self.browser_type.wf(),
        ensures
            strs_view(r@) == spec_build_args(
                self.browser_type,
                self.profile.profile_path@,
                self.uri@,
            ),
    {
        self.browser_type.build_args(self.profile.profile_path.as_str(), self.uri.as_str())
    }
}

/// What persists across runs: a schema version and the ordered list of
/// discovered installations.
#[derive(Debug, Clone, PartialEq)]
pub struct AppCache {
    pub cfg_version: u8,
    pub installations: Vec<Installation>,
}

impl Default for AppCache {
    fn default() -> (r: Self)
        ensures
            r.cfg_version == 0,
            r.installations@.len() == 0,
    {
        AppCache { cfg_version: 0, installations: Vec::new() }
    }
}

} // verus!
