//! Curated wine-component tables: the essential verbs for the storefront
//! client, the title-specific tweaks, and the conflict rules between verbs.
//! Running the installer command itself happens outside; these tables and
//! checks are the decision logic.

use vstd::prelude::*;
use crate::strutil::{concat3, str_eq};

verus! {

/// Manages component installation below a cache directory. Commands only
/// run when dry-run is off; the embedding executes them.
#[derive(Debug, Clone, PartialEq)]
pub struct WinetricksManager {
    pub winetricks_path: String,
    pub cache_dir: String,
    pub dry_run: bool,
}

/// One installable component.
#[derive(Debug, Clone, PartialEq)]
pub struct WinetrickVerb {
    pub name: String,
    pub description: String,
    pub category: WinetrickCategory,
    pub size_mb: Option<u64>,
    pub required_for: Vec<String>,
    pub conflicts_with: Vec<String>,
    pub wine_versions: Vec<String>,
}

#[derive(Debug, Clone, Copy, PartialEq, Eq, Structural)]
pub enum WinetrickCategory {
    Font,
    Dll,
    Runtime,
    Framework,
    Library,
    Setting,
    Custom,
}

#[verifier::ext_equal]
pub ghost struct WinetrickVerbV {
    pub name: Seq<char>,
    pub description: Seq<char>,
    pub category: WinetrickCategory,
    pub size_mb: Option<u64>,
    pub required_for: Seq<Seq<char>>,
    pub conflicts_with: Seq<Seq<char>>,
    pub wine_versions: Seq<Seq<char>>,
}

impl View for WinetrickVerb {
    type V = WinetrickVerbV;

    open spec fn view(&self) -> WinetrickVerbV {
        WinetrickVerbV {
            name: self.name@,
            description: self.description@,
            category: self.category,
            size_mb: self.size_mb,
            required_for: self.required_for@.map_values(|s: String| s@),
            conflicts_with: self.conflicts_with@.map_values(|s: String| s@),
            wine_versions: self.wine_versions@.map_values(|s: String| s@),
        }
    }
}

/// The eight curated components, in table order: the six storefront
/// essentials, then the two title-specific settings.
pub open spec fn spec_verb_table() -> Seq<WinetrickVerbV> {
    seq![
        WinetrickVerbV {
            name: "corefonts"@,
            description: "Core Windows fonts (Arial, Times New Roman, etc.)"@,
            category: WinetrickCategory::Font,
            size_mb: Option::Some(15u64),
            required_for: seq!["battle.net"@, "world_of_warcraft"@],
            conflicts_with: Seq::empty(),
            wine_versions: seq!["all"@],
        },
        WinetrickVerbV {
            name: "vcrun2019"@,
            description: "Visual C++ 2019 Redistributable"@,
            category: WinetrickCategory::Runtime,
            size_mb: Option::Some(25u64),
            required_for: seq!["battle.net"@, "world_of_warcraft"@, "diablo"@],
            conflicts_with: seq!["vcrun2022"@],
            wine_versions: seq!["all"@],
        },
        WinetrickVerbV {
            name: "vcrun2022"@,
            description: "Visual C++ 2022 Redistributable (latest)"@,
            category: WinetrickCategory::Runtime,
            size_mb: Option::Some(30u64),
            required_for: seq!["battle.net"@, "diablo_iv"@],
            conflicts_with: seq!["vcrun2019"@],
            wine_versions: seq!["wine-8.0+"@],
        },
        WinetrickVerbV {
            name: "dotnet48"@,
            description: ".NET Framework 4.8"@,
            category: WinetrickCategory::Framework,
            size_mb: Option::Some(120u64),
            required_for: seq!["hearthstone"@, "battle.net"@],
            conflicts_with: Seq::empty(),
            wine_versions: seq!["wine-6.0+"@],
        },
        WinetrickVerbV {
            name: "d3dcompiler_47"@,
            description: "Direct3D shader compiler"@,
            category: WinetrickCategory::Dll,
            size_mb: Option::Some(5u64),
            required_for: seq!["world_of_warcraft"@, "overwatch"@],
            conflicts_with: Seq::empty(),
            wine_versions: seq!["all"@],
        },
        WinetrickVerbV {
            name: "dxvk"@,
            description: "DirectX to Vulkan translation layer"@,
            category: WinetrickCategory::Library,
            size_mb: Option::Some(50u64),
            required_for: seq!["world_of_warcraft"@, "overwatch"@, "diablo"@],
            conflicts_with: seq!["wined3d"@],
            wine_versions: seq!["wine-4.0+"@],
        },
        WinetrickVerbV {
            name: "win10"@,
            description: "Set Windows version to Windows 10"@,
            category: WinetrickCategory::Setting,
            size_mb: Option::None,
            required_for: seq!["world_of_warcraft"@],
            conflicts_with: seq!["win7"@, "winxp"@],
            wine_versions: seq!["all"@],
        },
        WinetrickVerbV {
            name: "sound=pulse"@,
            description: "Use PulseAudio for sound"@,
            category: WinetrickCategory::Setting,
            size_mb: Option::None,
            required_for: seq!["world_of_warcraft"@],
            conflicts_with: seq!["sound=alsa"@],
            wine_versions: seq!["all"@],
        },
    ]
}

/// The conflict edges of the curated verb tables: which other verbs a verb
/// cannot be installed next to.
pub open spec fn spec_conflicts_of(name: Seq<char>) -> Seq<Seq<char>> {
    if name == "vcrun2019"@ {
        seq!["vcrun2022"@]
    } else if name == "vcrun2022"@ {
        seq!["vcrun2019"@]
    } else if name == "dxvk"@ {
        seq!["wined3d"@]
    } else if name == "win10"@ {
        seq!["win7"@, "winxp"@]
    } else if name == "sound=pulse"@ {
        seq!["sound=alsa"@]
    } else {
        Seq::empty()
    }
}

/// The conflict edges of one verb name.
pub fn conflicts_of(name: &str) -> (r: Vec<String>)
    ensures
        r@.map_values(|s: String| s@) == spec_conflicts_of(name@),
{
    let mut r: Vec<String> = Vec::new();
    if str_eq(name, "vcrun2019") {
        r.push("vcrun2022".to_owned());
    } else if str_eq(name, "vcrun2022") {
        r.push("vcrun2019".to_owned());
    } else if str_eq(name, "dxvk") {
        r.push("wined3d".to_owned());
    } else if str_eq(name, "win10") {
        r.push("win7".to_owned());
        r.push("winxp".to_owned());
    } else if str_eq(name, "sound=pulse") {
        r.push("sound=alsa".to_owned());
    }
    proof {
        assert(r@.map_values(|s: String| s@) =~= spec_conflicts_of(name@));
    }
    r
}

/// The conflict messages contributed by one verb of the input list.
pub open spec fn spec_verb_conflicts(
    verbs: Seq<Seq<char>>,
    name: Seq<char>,
    upto: int,
) -> Seq<Seq<char>>
    decreases upto,
{
    if upto <= 0 {
        Seq::empty()
    } else {
        let cs = spec_conflicts_of(name);
        spec_verb_conflicts(verbs, name, upto - 1) + (if verbs.contains(cs[upto - 1]) {
            seq![name + " conflicts with "@ + cs[upto - 1]]
        } else {
            Seq::empty()
        })
    }
}

/// The conflict messages of the first `upto` input verbs.
pub open spec fn spec_all_conflicts(verbs: Seq<Seq<char>>, upto: int) -> Seq<Seq<char>>
    decreases upto,
{
    if upto <= 0 {
        Seq::empty()
    } else {
        spec_all_conflicts(verbs, upto - 1) + spec_verb_conflicts(
            verbs,
            verbs[upto - 1],
            spec_conflicts_of(verbs[upto - 1]).len() as int,
        )
    }
}

impl WinetricksManager {
    /// A manager that will run the given installer binary with the given
    /// cache. Dry-run is the safe default.
    pub fn new(winetricks_path: String, cache_dir: String) -> (r: Self)
        ensures
            r.winetricks_path == winetricks_path,
            r.cache_dir == cache_dir,
            r.dry_run == true,
    {
        WinetricksManager { winetricks_path, cache_dir, dry_run: true }
    }

    pub fn set_dry_run(&mut self, dry_run: bool)
        ensures
            final(self).dry_run == dry_run,
            final(self).winetricks_path == old(self).winetricks_path,
            final(self).cache_dir == old(self).cache_dir,
    {
        self.dry_run = dry_run;
    }

    /// The essential components for the storefront client and its games.
    pub fn get_battlenet_essentials() -> (r: Vec<WinetrickVerb>)
        ensures
            r@.len() == 6,
            r@[0].name@ == "corefonts"@ && r@[0].category == WinetrickCategory::Font
                && r@[0].size_mb == Option::Some(15u64),
            r@[1].name@ == "vcrun2019"@ && r@[1].category == WinetrickCategory::Runtime
                && r@[1].size_mb == Option::Some(25u64) && r@[1].conflicts_with@.map_values(
                |s: String| s@,
            ) == seq!["vcrun2022"@],
            r@[2].name@ == "vcrun2022"@ && r@[2].category == WinetrickCategory::Runtime
                && r@[2].size_mb == Option::Some(30u64) && r@[2].conflicts_with@.map_values(
                |s: String| s@,
            ) == seq!["vcrun2019"@],
            r@[3].name@ == "dotnet48"@ && r@[3].category == WinetrickCategory::Framework
                && r@[3].size_mb == Option::Some(120u64) && r@[3].conflicts_with@.len() == 0,
            r@[4].name@ == "d3dcompiler_47"@ && r@[4].category == WinetrickCategory::Dll
                && r@[4].size_mb == Option::Some(5u64) && r@[4].conflicts_with@.len() == 0,
            r@[5].name@ == "dxvk"@ && r@[5].category == WinetrickCategory::Library
                && r@[5].size_mb == Option::Some(50u64) && r@[5].conflicts_with@.map_values(
                |s: String| s@,
            ) == seq!["wined3d"@],
            r@.map_values(|v: WinetrickVerb| v@) == spec_verb_table().take(6),
    {
        let mut r: Vec<WinetrickVerb> = Vec::new();
        r.push(
            WinetrickVerb {
                name: "corefonts".to_owned(),
                description: "Core Windows fonts (Arial, Times New Roman, etc.)".to_owned(),
                category: WinetrickCategory::Font,
                size_mb: Option::Some(15),
                required_for: vec_of2("battle.net", "world_of_warcraft"),
                conflicts_with: Vec::new(),
                wine_versions: vec_of1("all"),
            },
        );
        r.push(
            WinetrickVerb {
                name: "vcrun2019".to_owned(),
                description: "Visual C++ 2019 Redistributable".to_owned(),
                category: WinetrickCategory::Runtime,
                size_mb: Option::Some(25),
                required_for: vec_of3("battle.net", "world_of_warcraft", "diablo"),
                conflicts_with: vec_of1("vcrun2022"),
                wine_versions: vec_of1("all"),
            },
        );
        r.push(
            WinetrickVerb {
                name: "vcrun2022".to_owned(),
                description: "Visual C++ 2022 Redistributable (latest)".to_owned(),
                category: WinetrickCategory::Runtime,
                size_mb: Option::Some(30),
                required_for: vec_of2("battle.net", "diablo_iv"),
                conflicts_with: vec_of1("vcrun2019"),
                wine_versions: vec_of1("wine-8.0+"),
            },
        );
        r.push(
            WinetrickVerb {
                name: "dotnet48".to_owned(),
                description: ".NET Framework 4.8".to_owned(),
                category: WinetrickCategory::Framework,
                size_mb: Option::Some(120),
                required_for: vec_of2("hearthstone", "battle.net"),
                conflicts_with: Vec::new(),
                wine_versions: vec_of1("wine-6.0+"),
            },
        );
        r.push(
            WinetrickVerb {
                name: "d3dcompiler_47".to_owned(),
                description: "Direct3D shader compiler".to_owned(),
                category: WinetrickCategory::Dll,
                size_mb: Option::Some(5),
                required_for: vec_of2("world_of_warcraft", "overwatch"),
                conflicts_with: Vec::new(),
                wine_versions: vec_of1("all"),
            },
        );
        r.push(
            WinetrickVerb {
                name: "dxvk".to_owned(),
                description: "DirectX to Vulkan translation layer".to_owned(),
                category: WinetrickCategory::Library,
                size_mb: Option::Some(50),
                required_for: vec_of3("world_of_warcraft", "overwatch", "diablo"),
                conflicts_with: vec_of1("wined3d"),
                wine_versions: vec_of1("wine-4.0+"),
            },
        );
        proof {
            assert(r@[1].conflicts_with@.map_values(|s: String| s@) =~= seq!["vcrun2022"@]);
            assert(r@[2].conflicts_with@.map_values(|s: String| s@) =~= seq!["vcrun2019"@]);
            assert(r@[5].conflicts_with@.map_values(|s: String| s@) =~= seq!["wined3d"@]);
            assert(r@.map_values(|v: WinetrickVerb| v@) =~~= spec_verb_table().take(6));
        }
        r
    }

    /// Components specific to the flagship online title.
    pub fn get_wow_specific() -> (r: Vec<WinetrickVerb>)
        ensures
            r@.len() == 2,
            r@[0].name@ == "win10"@ && r@[0].category == WinetrickCategory::Setting
                && r@[0].size_mb is None && r@[0].conflicts_with@.map_values(|s: String| s@)
                == seq!["win7"@, "winxp"@],
            r@[1].name@ == "sound=pulse"@ && r@[1].category == WinetrickCategory::Setting
                && r@[1].size_mb is None && r@[1].conflicts_with@.map_values(|s: String| s@)
                == seq!["sound=alsa"@],
            r@.map_values(|v: WinetrickVerb| v@) == spec_verb_table().subrange(6, 8),
    {
        let mut r: Vec<WinetrickVerb> = Vec::new();
        r.push(
            WinetrickVerb {
                name: "win10".to_owned(),
                description: "Set Windows version to Windows 10".to_owned(),
                category: WinetrickCategory::Setting,
                size_mb: Option::None,
                required_for: vec_of1("world_of_warcraft"),
                conflicts_with: vec_of2("win7", "winxp"),
                wine_versions: vec_of1("all"),
            },
        );
        r.push(
            WinetrickVerb {
                name: "sound=pulse".to_owned(),
                description: "Use PulseAudio for sound".to_owned(),
                category: WinetrickCategory::Setting,
                size_mb: Option::None,
                required_for: vec_of1("world_of_warcraft"),
                conflicts_with: vec_of1("sound=alsa"),
                wine_versions: vec_of1("all"),
            },
        );
        proof {
            assert(r@[0].conflicts_with@.map_values(|s: String| s@) =~= seq!["win7"@, "winxp"@]);
            assert(r@[1].conflicts_with@.map_values(|s: String| s@) =~= seq!["sound=alsa"@]);
            assert(r@.map_values(|v: WinetrickVerb| v@) =~~= spec_verb_table().subrange(6, 8));
        }
        r
    }

    /// Looks one verb up across both curated tables, by name: exactly the
    /// eight table names are found, each yielding its table entry, and any
    /// other name yields nothing.
    pub fn get_verb_info(&self, verb_name: &str) -> (r: Option<WinetrickVerb>)
        ensures
            (r is Some) <==> (exists|k: int|
                0 <= k < spec_verb_table().len() && (#[trigger] spec_verb_table()[k]).name
                    == verb_name@),
            r matches Some(v) ==> v.name@ == verb_name@ && (exists|k: int|
                0 <= k < spec_verb_table().len() && #[trigger] spec_verb_table()[k] == v@),
    {
        let mut all = Self::get_battlenet_essentials();
        let mut wow = Self::get_wow_specific();
        all.append(&mut wow);
        proof {
            assert(all@.map_values(|v: WinetrickVerb| v@) =~= spec_verb_table()) by {
                assert(spec_verb_table().take(6) + spec_verb_table().subrange(6, 8)
                    =~= spec_verb_table());
                assert(all@.map_values(|v: WinetrickVerb| v@) =~= spec_verb_table().take(6)
                    + spec_verb_table().subrange(6, 8));
            }
        }
        let n = all.len();
        let mut i: usize = 0;
        while i < n
            invariant
                n == all@.len(),
                all@.map_values(|v: WinetrickVerb| v@) == spec_verb_table(),
                0 <= i <= n,
                forall|k: int|
                    0 <= k < i ==> (#[trigger] spec_verb_table()[k]).name != verb_name@,
            decreases n - i,
        {
            proof {
                assert(spec_verb_table()[i as int] == all@[i as int]@);
            }
            if str_eq(all[i].name.as_str(), verb_name) {
                let ghost gi = i as int;
                let found = all.remove(i);
                proof {
                    assert(found@ == spec_verb_table()[gi]);
                    assert(spec_verb_table()[gi].name == verb_name@);
                }
                return Option::Some(found);
            }
            i += 1;
        }
        Option::None
    }

    /// The pairwise conflicts inside a verb selection, as messages, one per
    /// conflicting ordered pair, in input order.
    pub fn check_conflicts(&self, verbs: &Vec<String>) -> (r: Vec<String>)
        ensures
            r@.map_values(|s: String| s@) == spec_all_conflicts(
                verbs@.map_values(|s: String| s@),
                verbs@.len() as int,
            ),
    {
        let ghost vv = verbs@.map_values(|s: String| s@);
        let mut out: Vec<String> = Vec::new();
        proof {
            assert(out@.map_values(|s: String| s@) =~= spec_all_conflicts(vv, 0));
        }
        let n = verbs.len();
        let mut i: usize = 0;
        while i < n
            invariant
                n == verbs@.len(),
                vv == verbs@.map_values(|s: String| s@),
                0 <= i <= n,
                out@.map_values(|s: String| s@) == spec_all_conflicts(vv, i as int),
            decreases n - i,
        {
            let name = &verbs[i];
            let cs = conflicts_of(name.as_str());
            proof {
                assert(vv[i as int] == verbs@[i as int]@);
            }
            let ghost csv = spec_conflicts_of(vv[i as int]);
            let m = cs.len();
            let mut j: usize = 0;
            while j < m
                invariant
                    n == verbs@.len(),
                    vv == verbs@.map_values(|s: String| s@),
                    0 <= i < n,
                    m == cs@.len(),
                    cs@.map_values(|s: String| s@) == csv,
                    csv == spec_conflicts_of(vv[i as int]),
                    vv[i as int] == verbs@[i as int]@,
                    0 <= j <= m,
                    out@.map_values(|s: String| s@) == spec_all_conflicts(vv, i as int)
                        + spec_verb_conflicts(vv, vv[i as int], j as int),
                decreases m - j,
            {
                proof {
                    assert(csv[j as int] == cs@[j as int]@);
                }
                if contains_string(verbs, cs[j].as_str()) {
                    let msg = concat3(verbs[i].as_str(), " conflicts with ", cs[j].as_str());
                    let ghost msgg = msg;
                    let ghost prev = out@;
                    out.push(msg);
                    proof {
                        assert(vv.contains(csv[j as int]));
                        prev.lemma_push_map_commute(|s: String| s@, msgg);
                        assert(msgg@ == vv[i as int] + " conflicts with "@ + csv[j as int]);
                        assert(spec_verb_conflicts(vv, vv[i as int], j as int + 1)
                            =~= spec_verb_conflicts(vv, vv[i as int], j as int) + seq![
                            vv[i as int] + " conflicts with "@ + csv[j as int],
                        ]);
                        assert(out@.map_values(|s: String| s@) =~= spec_all_conflicts(
                            vv,
                            i as int,
                        ) + spec_verb_conflicts(vv, vv[i as int], j as int + 1));
                    }
                } else {
                    proof {
                        assert(!vv.contains(csv[j as int]));
                        assert(out@.map_values(|s: String| s@) =~= spec_all_conflicts(
                            vv,
                            i as int,
                        ) + spec_verb_conflicts(vv, vv[i as int], j as int + 1));
                    }
                }
                j += 1;
            }
            proof {
                assert(out@.map_values(|s: String| s@) =~= spec_all_conflicts(vv, i as int + 1));
            }
            i += 1;
        }
        out
    }

    /// The components considered installed in a prefix, given which of the
    /// three marker files the embedding found on disk.
    pub fn list_installed_verbs(
        &self,
        corefonts_present: bool,
        vcrun2019_present: bool,
        dotnet48_present: bool,
    ) -> (r: Vec<String>)
        ensures
            r@.map_values(|s: String| s@) == (if corefonts_present {
                seq!["corefonts"@]
            } else {
                Seq::<Seq<char>>::empty()
            }) + (if vcrun2019_present {
                seq!["vcrun2019"@]
            } else {
                Seq::<Seq<char>>::empty()
            }) + (if dotnet48_present {
                seq!["dotnet48"@]
            } else {
                Seq::<Seq<char>>::empty()
            }),
    {
        let mut r: Vec<String> = Vec::new();
        if corefonts_present {
            r.push("corefonts".to_owned());
        }
        if vcrun2019_present {
            r.push("vcrun2019".to_owned());
        }
        if dotnet48_present {
            r.push("dotnet48".to_owned());
        }
        proof {
            assert(r@.map_values(|s: String| s@) =~= (if corefonts_present {
                seq!["corefonts"@]
            } else {
                Seq::<Seq<char>>::empty()
            }) + (if vcrun2019_present {
                seq!["vcrun2019"@]
            } else {
                Seq::<Seq<char>>::empty()
            }) + (if dotnet48_present {
                seq!["dotnet48"@]
            } else {
                Seq::<Seq<char>>::empty()
            }));
        }
        r
    }

    /// The marker files that indicate an installed component, relative to
    /// a prefix root.
    pub fn verb_markers(&self) -> (r: Vec<(String, String)>)
        ensures
            r@.map_values(|p: (String, String)| (p.0@, p.1@)) == seq![
                ("corefonts"@, "drive_c/windows/Fonts/arial.ttf"@),
                ("vcrun2019"@, "drive_c/windows/system32/vcruntime140.dll"@),
                ("dotnet48"@, "drive_c/windows/Microsoft.NET/Framework64/v4.0.30319"@),
            ],
    {
        let mut r: Vec<(String, String)> = Vec::new();
        r.push(("corefonts".to_owned(), "drive_c/windows/Fonts/arial.ttf".to_owned()));
        r.push(("vcrun2019".to_owned(), "drive_c/windows/system32/vcruntime140.dll".to_owned()));
        r.push(
            (
                "dotnet48".to_owned(),
                "drive_c/windows/Microsoft.NET/Framework64/v4.0.30319".to_owned(),
            ),
        );
        proof {
            assert(r@.map_values(|p: (String, String)| (p.0@, p.1@)) =~= seq![
                ("corefonts"@, "drive_c/windows/Fonts/arial.ttf"@),
                ("vcrun2019"@, "drive_c/windows/system32/vcruntime140.dll"@),
                ("dotnet48"@, "drive_c/windows/Microsoft.NET/Framework64/v4.0.30319"@),
            ]);
        }
        r
    }
}

/// Whether the list holds the given string.
pub fn contains_string(xs: &Vec<String>, needle: &str) -> (r: bool)
    ensures
        r == xs@.map_values(|s: String| s@).contains(needle@),
{
    let n = xs.len();
    let mut i: usize = 0;
    while i < n
        invariant
            n == xs@.len(),
            0 <= i <= n,
            forall|k: int| 0 <= k < i ==> (#[trigger] xs@[k])@ != needle@,
        decreases n - i,
    {
        if str_eq(xs[i].as_str(), needle) {
            proof {
                assert(xs@.map_values(|s: String| s@)[i as int] == needle@);
            }
            return true;
        }
        i += 1;
    }
    proof {
        let mv = xs@.map_values(|s: String| s@);
        assert forall|k: int| 0 <= k < mv.len() implies mv[k] != needle@ by {
            assert(mv[k] == xs@[k]@);
        }
    }
    false
}

/// A one-element string vector.
fn vec_of1(a: &str) -> (r: Vec<String>)
    ensures
        r@.map_values(|s: String| s@) == seq![a@],
{
    let mut r: Vec<String> = Vec::new();
    r.push(a.to_owned());
    proof {
        assert(r@.map_values(|s: String| s@) =~= seq![a@]);
    }
    r
}

/// A two-element string vector.
fn vec_of2(a: &str, b: &str) -> (r: Vec<String>)
    ensures
        r@.map_values(|s: String| s@) == seq![a@, b@],
{
    let mut r: Vec<String> = Vec::new();
    r.push(a.to_owned());
    r.push(b.to_owned());
    proof {
        assert(r@.map_values(|s: String| s@) =~= seq![a@, b@]);
    }
    r
}

/// A three-element string vector.
fn vec_of3(a: &str, b: &str, c: &str) -> (r: Vec<String>)
    ensures
        r@.map_values(|s: String| s@) == seq![a@, b@, c@],
{
    let mut r: Vec<String> = Vec::new();
    r.push(a.to_owned());
    r.push(b.to_owned());
    r.push(c.to_owned());
    proof {
        assert(r@.map_values(|s: String| s@) =~= seq![a@, b@, c@]);
    }
    r
}

} // verus!
