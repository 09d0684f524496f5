//! The public settings of a server.

use std::collections::HashMap;
use vstd::prelude::*;

verus! {

/// Represents the settings of a GoTrue instance.
#[derive(Debug, Clone, PartialEq, Eq)]
pub struct Settings {
    /// Which external providers are enabled, by provider name.
    pub external: HashMap<String, bool>,
    /// Whether signup is disabled.
    pub disable_signup: bool,
    /// Whether autoconfirm is enabled.
    pub autoconfirm: bool,
}

impl Settings {
    /// Whether the settings name no provider and both switches are off.
    pub open spec fn is_unset(self) -> bool {
        &&& self.external@.is_empty()
        &&& !self.disable_signup
        &&& !self.autoconfirm
    }

    /// Whether the settings name at least one provider.
    pub open spec fn names_provider(self) -> bool {
        exists|name: String| self.external@.contains_key(name)
    }

    /// Tells whether these are the settings that `default` gives: no provider,
    /// both switches off.
    pub fn is_default(&self) -> (unset: bool)
        ensures
            unset == self.is_unset(),
    {
        self.external.is_empty() && !self.disable_signup && !self.autoconfirm
    }

    /// Settings that name a provider differ from every unset value, whatever
    /// their switches say.
    pub proof fn lemma_configured_is_not_unset(self, unset: Settings)
        requires
            self.names_provider(),
            unset.is_unset(),
        ensures
            self != unset,
            !self.is_unset(),
    {
        let name = choose|name: String| self.external@.contains_key(name);
        assert(self.external@.dom().contains(name));
    }
}

impl Default for Settings {
    /// The unset value: no provider, both switches off.
    fn default() -> (settings: Settings)
        ensures
            settings.is_unset(),
    {
        Settings { external: HashMap::new(), disable_signup: false, autoconfirm: false }
    }
}

} // verus!
