//! The runtime registry: a fixed priority list of backends, probed once per
//! manager instantiation and re-probed only on an explicit refresh. The
//! probe itself runs outside; its outcome enters as plain flags.

use vstd::prelude::*;
use crate::backend::{BackendProbe, RuntimeBackendKind};

verus! {

/// The backend that a probe outcome selects: the first available kind in
/// the fixed priority order gaming-optimized, rootless, standard.
pub open spec fn spec_selected_backend(probe: BackendProbe) -> Option<RuntimeBackendKind> {
    if probe.gaming_optimized {
        Option::Some(RuntimeBackendKind::GamingOptimized)
    } else if probe.rootless {
        Option::Some(RuntimeBackendKind::Rootless)
    } else if probe.standard {
        Option::Some(RuntimeBackendKind::Standard)
    } else {
        Option::None
    }
}

/// The fixed candidate names, in priority order.
pub open spec fn spec_candidate_names() -> Seq<Seq<char>> {
    seq!["GamingOptimized"@, "Rootless"@, "Standard"@]
}

/// Probes backends in priority order and keeps the first available one.
#[derive(Debug, Clone, PartialEq)]
pub struct RuntimeRegistry {
    pub active: Option<RuntimeBackendKind>,
}

impl RuntimeRegistry {
    /// A registry that has not probed yet.
    pub fn new() -> (r: Self)
        ensures
            r.active is None,
    {
        RuntimeRegistry { active: Option::None }
    }

    /// The fixed candidate list, for diagnostics and for the unavailability
    /// error.
    pub fn candidates() -> (r: Vec<String>)
        ensures
            r@.map_values(|s: String| s@) == spec_candidate_names(),
    {
        let mut v: Vec<String> = Vec::new();
        v.push("GamingOptimized".to_owned());
        v.push("Rootless".to_owned());
        v.push("Standard".to_owned());
        proof {
            assert(v@.map_values(|s: String| s@) =~= spec_candidate_names());
        }
        v
    }

    /// Selects the first available backend in priority order and remembers
    /// it. With no backend available, nothing is selected and the full
    /// candidate list comes back for operator remediation.
    pub fn select_active(&mut self, probe: &BackendProbe) -> (r: Result<
        RuntimeBackendKind,
        Vec<String>,
    >)
        ensures
            final(self).active == spec_selected_backend(*probe),
            r matches Ok(k) ==> spec_selected_backend(*probe) == Option::Some(k),
            r matches Err(c) ==> spec_selected_backend(*probe) is None && c@.map_values(
                |s: String| s@,
            ) == spec_candidate_names(),
    {
        if probe.gaming_optimized {
            self.active = Option::Some(RuntimeBackendKind::GamingOptimized);
            Result::Ok(RuntimeBackendKind::GamingOptimized)
        } else if probe.rootless {
            self.active = Option::Some(RuntimeBackendKind::Rootless);
            Result::Ok(RuntimeBackendKind::Rootless)
        } else if probe.standard {
            self.active = Option::Some(RuntimeBackendKind::Standard);
            Result::Ok(RuntimeBackendKind::Standard)
        } else {
            self.active = Option::None;
            Result::Err(Self::candidates())
        }
    }

    /// Forces a re-probe: selection is the same function of the new probe
    /// outcome.
    pub fn refresh(&mut self, probe: &BackendProbe) -> (r: Result<RuntimeBackendKind, Vec<String>>)
        ensures
            final(self).active == spec_selected_backend(*probe),
            r matches Ok(k) ==> spec_selected_backend(*probe) == Option::Some(k),
            r matches Err(c) ==> spec_selected_backend(*probe) is None && c@.map_values(
                |s: String| s@,
            ) == spec_candidate_names(),
    {
        self.select_active(probe)
    }
}

} // verus!

verus! {

/// Priority ordering: whenever the gaming-optimized backend is detectable
/// it is selected, whatever else is available; and with nothing detectable
/// nothing is selected.
pub proof fn lemma_priority_ordering(probe: BackendProbe)
    ensures
        probe.gaming_optimized ==> spec_selected_backend(probe) == Option::Some(
            RuntimeBackendKind::GamingOptimized,
        ),
        !probe.gaming_optimized && probe.rootless ==> spec_selected_backend(probe)
            == Option::Some(RuntimeBackendKind::Rootless),
        !probe.gaming_optimized && !probe.rootless && probe.standard ==> spec_selected_backend(
            probe,
        ) == Option::Some(RuntimeBackendKind::Standard),
        !probe.gaming_optimized && !probe.rootless && !probe.standard ==> spec_selected_backend(
            probe,
        ) is None,
{
}

} // verus!
