//! The viewer's configuration and its defaults.

use vstd::prelude::*;

verus! {

/// How the viewer treats a second launch.
#[derive(Debug, Clone)]
pub struct InstanceMode {
    pub enabled: bool,
    pub allow_multiple_windows: bool,
}

/// Switches for optional viewer behaviour.
#[derive(Debug, Clone)]
pub struct Features {
    pub vim_navigation: bool,
    pub live_reload: bool,
    pub auto_index: bool,
}

/// The viewer's configuration: the search roots that the asset index scans,
/// and the two groups of switches.
#[derive(Debug, Clone)]
pub struct Config {
    pub search_paths: Vec<String>,
    pub instance_mode: InstanceMode,
    pub features: Features,
}

/// The search roots of a configuration that names none: the empty list.
pub fn default_search_paths() -> (paths: Vec<String>)
    ensures
        paths@ == Seq::<String>::empty(),
{
    Vec::new()
}

/// The value of a feature switch that the configuration does not mention.
pub fn default_true() -> (on: bool)
    ensures
        on,
{
    true
}

impl InstanceMode {
    /// Both switches off.
    pub open spec fn is_default(self) -> bool {
        !self.enabled && !self.allow_multiple_windows
    }
}

impl Features {
    /// Every feature on.
    pub open spec fn is_default(self) -> bool {
        self.vim_navigation && self.live_reload && self.auto_index
    }
}

impl Config {
    /// No search roots, and both groups of switches at their defaults.
    pub open spec fn is_default(self) -> bool {
        &&& self.search_paths@ == Seq::<String>::empty()
        &&& self.instance_mode.is_default()
        &&& self.features.is_default()
    }
}

impl Default for InstanceMode {
    fn default() -> (mode: Self)
        ensures
            mode.is_default(),
    {
        InstanceMode { enabled: false, allow_multiple_windows: false }
    }
}

impl Default for Features {
    fn default() -> (features: Self)
        ensures
            features.is_default(),
    {
        Features {
            vim_navigation: default_true(),
            live_reload: default_true(),
            auto_index: default_true(),
        }
    }
}

impl Default for Config {
    fn default() -> (config: Self)
        ensures
            config.is_default(),
    {
        Config {
            search_paths: default_search_paths(),
            instance_mode: InstanceMode::default(),
            features: Features::default(),
        }
    }
}

} // verus!
