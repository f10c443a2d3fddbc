//! Optimization profiles: the game categories the heuristics recognize and
//! the driver configuration each category earns.

use vstd::prelude::*;
use crate::strutil::{lower_contains, name_contains};

verus! {

/// The optimization family a game falls into.
#[derive(Debug, Clone, Copy, PartialEq, Eq, Structural)]
pub enum GameCategory {
    Competitive,
    AAA,
    Indie,
    VR,
    Streaming,
    Unknown,
}

/// Driver tuning knobs for one game.
#[derive(Debug, Clone, Copy, PartialEq, Eq, Structural)]
pub struct NvidiaConfig {
    pub dlss_enabled: bool,
    pub reflex_enabled: bool,
    pub raytracing_enabled: bool,
    pub power_limit: Option<u32>,
    pub memory_clock_offset: Option<i32>,
    pub core_clock_offset: Option<i32>,
}

/// The category keys a lowercased game name matches, in match priority:
/// competitive titles first, then virtual-reality titles, then the known
/// blockbuster families.
pub open spec fn spec_category_of_name(name: Seq<char>) -> GameCategory {
    if lower_contains(name, "counter-strike"@) || lower_contains(name, "cs2"@) || lower_contains(
        name,
        "valorant"@,
    ) || lower_contains(name, "overwatch"@) || lower_contains(name, "rocket league"@)
        || lower_contains(name, "dota"@) || lower_contains(name, "league of legends"@) {
        GameCategory::Competitive
    } else if lower_contains(name, "vr"@) || lower_contains(name, "virtual reality"@)
        || lower_contains(name, "half-life: alyx"@) || lower_contains(name, "beat saber"@) {
        GameCategory::VR
    } else if lower_contains(name, "call of duty"@) || lower_contains(name, "battlefield"@)
        || lower_contains(name, "cyberpunk"@) || lower_contains(name, "witcher"@)
        || lower_contains(name, "assassin's creed"@) || lower_contains(name, "red dead"@)
        || lower_contains(name, "grand theft auto"@) || lower_contains(name, "gta"@) {
        GameCategory::AAA
    } else {
        GameCategory::Unknown
    }
}

/// The category of a game: the name heuristics first; when they say
/// nothing, the advisory's report count decides between blockbuster and
/// independent titles.
pub fn detect_game_category(name: &str, report_total: Option<u32>) -> (r: GameCategory)
    ensures
        spec_category_of_name(name@) != GameCategory::Unknown ==> r == spec_category_of_name(
            name@,
        ),
        spec_category_of_name(name@) == GameCategory::Unknown ==> r == (match report_total {
            Option::Some(t) => if t > 1000 {
                GameCategory::AAA
            } else if t > 100 {
                GameCategory::Indie
            } else {
                GameCategory::Unknown
            },
            Option::None => GameCategory::Unknown,
        }),
{
    if name_contains(name, "counter-strike") || name_contains(name, "cs2") || name_contains(
        name,
        "valorant",
    ) || name_contains(name, "overwatch") || name_contains(name, "rocket league")
        || name_contains(name, "dota") || name_contains(name, "league of legends") {
        return GameCategory::Competitive;
    }
    if name_contains(name, "vr") || name_contains(name, "virtual reality") || name_contains(
        name,
        "half-life: alyx",
    ) || name_contains(name, "beat saber") {
        return GameCategory::VR;
    }
    if name_contains(name, "call of duty") || name_contains(name, "battlefield") || name_contains(
        name,
        "cyberpunk",
    ) || name_contains(name, "witcher") || name_contains(name, "assassin's creed")
        || name_contains(name, "red dead") || name_contains(name, "grand theft auto")
        || name_contains(name, "gta") {
        return GameCategory::AAA;
    }
    match report_total {
        Option::Some(t) => {
            if t > 1000 {
                GameCategory::AAA
            } else if t > 100 {
                GameCategory::Indie
            } else {
                GameCategory::Unknown
            }
        },
        Option::None => GameCategory::Unknown,
    }
}

/// The driver configuration a category earns: latency-first for
/// competitive play, image-quality-first for blockbusters, a middle road
/// for virtual reality, and a neutral baseline otherwise.
pub fn create_nvidia_config_for_category(category: &GameCategory) -> (r: NvidiaConfig)
    ensures
        category is Competitive ==> r == (NvidiaConfig {
            dlss_enabled: false,
            reflex_enabled: true,
            raytracing_enabled: false,
            power_limit: Option::Some(110u32),
            memory_clock_offset: Option::Some(1000i32),
            core_clock_offset: Option::Some(200i32),
        }),
        category is AAA ==> r == (NvidiaConfig {
            dlss_enabled: true,
            reflex_enabled: false,
            raytracing_enabled: true,
            power_limit: Option::Some(100u32),
            memory_clock_offset: Option::Some(500i32),
            core_clock_offset: Option::Some(100i32),
        }),
        category is VR ==> r == (NvidiaConfig {
            dlss_enabled: true,
            reflex_enabled: false,
            raytracing_enabled: false,
            power_limit: Option::Some(110u32),
            memory_clock_offset: Option::Some(800i32),
            core_clock_offset: Option::Some(150i32),
        }),
        (category is Indie || category is Streaming || category is Unknown) ==> r == (NvidiaConfig {
            dlss_enabled: false,
            reflex_enabled: false,
            raytracing_enabled: false,
            power_limit: Option::Some(100u32),
            memory_clock_offset: Option::Some(0i32),
            core_clock_offset: Option::Some(0i32),
        }),
{
    match category {
        GameCategory::Competitive => NvidiaConfig {
            dlss_enabled: false,
            reflex_enabled: true,
            raytracing_enabled: false,
            power_limit: Option::Some(110),
            memory_clock_offset: Option::Some(1000),
            core_clock_offset: Option::Some(200),
        },
        GameCategory::AAA => NvidiaConfig {
            dlss_enabled: true,
            reflex_enabled: false,
            raytracing_enabled: true,
            power_limit: Option::Some(100),
            memory_clock_offset: Option::Some(500),
            core_clock_offset: Option::Some(100),
        },
        GameCategory::VR => NvidiaConfig {
            dlss_enabled: true,
            reflex_enabled: false,
            raytracing_enabled: false,
            power_limit: Option::Some(110),
            memory_clock_offset: Option::Some(800),
            core_clock_offset: Option::Some(150),
        },
        _ => NvidiaConfig {
            dlss_enabled: false,
            reflex_enabled: false,
            raytracing_enabled: false,
            power_limit: Option::Some(100),
            memory_clock_offset: Option::Some(0),
            core_clock_offset: Option::Some(0),
        },
    }
}

} // verus!
