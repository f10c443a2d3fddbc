//! Game storefront launchers: their detected installations and imported
//! game entries. Detection scans the file system and stays outside; these
//! are the records it produces.

use vstd::prelude::*;

verus! {

/// One detected storefront installation.
#[derive(Debug, Clone, PartialEq)]
pub struct Launcher {
    pub name: String,
    pub launcher_type: LauncherType,
    pub path: String,
    pub executable: String,
    pub config_path: String,
    pub games_path: Vec<String>,
    pub installed: bool,
    pub wine_prefix: Option<String>,
    pub wine_version: Option<String>,
}

#[derive(Debug, Clone, Copy, PartialEq, Eq, Structural)]
pub enum LauncherType {
    Steam,
    BattleNet,
    Epic,
    GOG,
    Ubisoft,
    EA,
    Riot,
    Rockstar,
    Custom,
}

/// One game entry imported from a storefront's catalog.
#[derive(Debug, Clone, PartialEq)]
pub struct LauncherGame {
    pub id: String,
    pub name: String,
    pub launcher: LauncherType,
    pub launcher_id: String,
    pub install_path: String,
    pub executable: Option<String>,
    pub launch_command: String,
    pub icon: Option<String>,
    pub installed: bool,
}

/// Holds the configuration root that detection reads from.
#[derive(Debug, Clone, PartialEq)]
pub struct LauncherManager {
    pub config_dir: String,
}

impl LauncherManager {
    pub fn new(config_dir: String) -> (r: Self)
        ensures
            r.config_dir == config_dir,
    {
        LauncherManager { config_dir }
    }
}

} // verus!
