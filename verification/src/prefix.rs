//! Wine prefix management: the manager's directories and the built-in
//! prefix templates' shape.

use vstd::prelude::*;

verus! {

/// Manages prefixes and templates below two directories. Prefix creation
/// commands run outside; dry-run is the safe default.
#[derive(Debug, Clone, PartialEq)]
pub struct PrefixManager {
    pub prefixes_dir: String,
    pub templates_dir: String,
    pub dry_run: bool,
}

/// The health assessment of a prefix.
#[derive(Debug, Clone, Copy, PartialEq, Eq, Structural)]
pub enum PrefixHealth {
    Healthy,
    NeedsRepair,
    Corrupted,
    Unknown,
}

/// A reusable prefix recipe for a family of games.
#[derive(Debug, Clone, PartialEq)]
pub struct PrefixTemplate {
    pub name: String,
    pub description: String,
    pub target_games: Vec<String>,
    pub wine_version: String,
    pub arch: String,
    pub windows_version: String,
    pub dll_overrides: Vec<(String, String)>,
    pub registry_tweaks: Vec<(String, String)>,
    pub winetricks_packages: Vec<String>,
    pub graphics_layers: Vec<String>,
    pub pre_setup_commands: Vec<String>,
    pub post_setup_commands: Vec<String>,
}

impl PrefixManager {
    /// A manager rooted below `base_dir`. Creating the directories on disk
    /// is the embedding's duty.
    pub fn new(prefixes_dir: String, templates_dir: String) -> (r: Self)
        ensures
            r.prefixes_dir == prefixes_dir,
            r.templates_dir == templates_dir,
            r.dry_run == true,
    {
        PrefixManager { prefixes_dir, templates_dir, dry_run: true }
    }

    pub fn set_dry_run(&mut self, dry_run: bool)
        ensures
            final(self).dry_run == dry_run,
            final(self).prefixes_dir == old(self).prefixes_dir,
            final(self).templates_dir == old(self).templates_dir,
    {
        self.dry_run = dry_run;
    }
}

} // verus!
