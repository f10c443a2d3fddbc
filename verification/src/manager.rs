//! The workload lifecycle manager: the in-memory registry of workload
//! records, the state machine over their statuses, and the strong
//! consistency between the registry and the persistent state store. The
//! manager decides; the embedding executes commands and file writes and
//! feeds the outcomes back.
//!
//! The manager is a single-writer value: every mutating operation takes it
//! exclusively, so an embedding that shares it across tasks serializes the
//! operations behind one lock.

use vstd::prelude::*;
use crate::backend::{
    build_run_command, plan_build, BackendProbe, BuildPlan, RuntimeBackendKind,
};
use crate::errors::{LaunchError, ProvisionError, RemoveError, StopError};
use crate::graphics::NvidiaFeatures;
use crate::policy::{build_workload_spec, Game};
use crate::protondb::Advisory;
use crate::registry::{spec_selected_backend, RuntimeRegistry};
use crate::store::{encode_record, parse_record, sp_parse_record};
use crate::strutil::str_eq;
use crate::workload::{ContainerStatus, GameWorkloadSpec, WorkloadRecord};

verus! {

/// One write or delete that the embedding must apply to the state
/// directory to keep it consistent with the registry.
#[derive(Debug, Clone, PartialEq)]
pub enum StoreAction {
    Write { id: String, document: String },
    Delete { id: String },
}

/// What the backend's build command reported.
#[derive(Debug, Clone, PartialEq)]
pub struct BuildOutcome {
    pub success: bool,
    pub stderr: String,
}

/// What spawning the workload process reported.
#[derive(Debug, Clone, PartialEq)]
pub struct SpawnOutcome {
    pub success: bool,
    pub pid: u32,
    pub detail: String,
}

/// The per-item outcomes of one cleanup pass.
#[derive(Debug, Clone, PartialEq)]
pub struct CleanupReport {
    pub removed: Vec<String>,
    pub failed: Vec<(String, String)>,
}

/// The top-level orchestrator: active backend, workload records, and the
/// in-memory model of the on-disk state store.
pub struct WorkloadLifecycleManager {
    pub registry: RuntimeRegistry,
    pub data_dir: String,
    pub records: Vec<WorkloadRecord>,
    pub store_docs: Vec<(String, String)>,
}

/// Every record parses out of one of the first `upto` documents.
pub open spec fn loaded_from_prefix(
    records: Seq<WorkloadRecord>,
    docs: Seq<String>,
    upto: int,
) -> bool {
    forall|i: int|
        0 <= i < records.len() ==> exists|j: int|
            0 <= j < upto && sp_parse_record(#[trigger] docs[j]@) == Some(
                (#[trigger] records[i])@,
            )
}

/// Every record parses out of one of the given documents.
pub open spec fn loaded_from(records: Seq<WorkloadRecord>, docs: Seq<String>) -> bool {
    loaded_from_prefix(records, docs, docs.len() as int)
}

/// Among the first `upto` documents, every one that parses has a record
/// with its identifier present.
pub open spec fn parsed_ids_loaded(
    records: Seq<WorkloadRecord>,
    docs: Seq<String>,
    upto: int,
) -> bool {
    forall|j: int|
        0 <= j < upto ==> (match #[trigger] sp_parse_record(docs[j]@) {
            Option::Some(rv) => has_id(records, rv.workload.id),
            Option::None => true,
        })
}

/// No document before position `j` parses to a record carrying the
/// identifier.
pub open spec fn first_with_id(docs: Seq<String>, j: int, id: Seq<char>) -> bool {
    forall|t: int|
        0 <= t < j ==> (match #[trigger] sp_parse_record(docs[t]@) {
            Option::Some(rv) => rv.workload.id != id,
            Option::None => true,
        })
}

/// Among the first `upto` documents, the first document to carry each
/// identifier is the one loaded, verbatim.
pub open spec fn first_documents_loaded(
    records: Seq<WorkloadRecord>,
    docs: Seq<String>,
    upto: int,
) -> bool {
    forall|j: int|
        0 <= j < upto ==> (match #[trigger] sp_parse_record(docs[j]@) {
            Option::Some(rv) => first_with_id(docs, j, rv.workload.id) ==> exists|i: int|
                0 <= i < records.len() && (#[trigger] records[i])@ == rv,
            Option::None => true,
        })
}

/// Whether some record carries the identifier.
pub open spec fn has_id(records: Seq<WorkloadRecord>, id: Seq<char>) -> bool {
    exists|k: int| 0 <= k < records.len() && (#[trigger] records[k]).workload.id@ == id
}

/// Whether position `k` holds the record with the identifier.
pub open spec fn id_at(records: Seq<WorkloadRecord>, k: int, id: Seq<char>) -> bool {
    0 <= k < records.len() && records[k].workload.id@ == id
}

/// The record identifiers are pairwise distinct.
pub open spec fn ids_unique(records: Seq<WorkloadRecord>) -> bool {
    forall|i: int, j: int|
        0 <= i < j < records.len() ==> (#[trigger] records[i]).workload.id@ != (
        #[trigger] records[j]).workload.id@
}

/// A record may be launched from the stopped state or the error state.
pub open spec fn launchable(rec: WorkloadRecord) -> bool {
    rec.status@ is Stopped || rec.status@ is Error
}

/// Some record with the identifier is in a launchable state.
pub open spec fn has_launchable(records: Seq<WorkloadRecord>, id: Seq<char>) -> bool {
    exists|k: int| #[trigger] id_at(records, k, id) && launchable(records[k])
}

/// Some record with the identifier is running.
pub open spec fn has_running(records: Seq<WorkloadRecord>, id: Seq<char>) -> bool {
    exists|k: int| #[trigger] id_at(records, k, id) && records[k].status@ is Running
}

/// With pairwise-distinct identifiers, at most one position holds a given
/// identifier.
pub proof fn lemma_unique_id_index(records: Seq<WorkloadRecord>, k: int, id: Seq<char>)
    requires
        ids_unique(records),
        id_at(records, k, id),
    ensures
        forall|j: int| #[trigger] id_at(records, j, id) ==> j == k,
{
    assert forall|j: int| #[trigger] id_at(records, j, id) implies j == k by {
        if j < k {
            assert(records[j].workload.id@ != records[k].workload.id@);
        }
        if j > k {
            assert(records[k].workload.id@ != records[j].workload.id@);
        }
    }
}

/// An identifier that no record carries is neither launchable nor running.
pub proof fn lemma_absent_id_not_launchable(records: Seq<WorkloadRecord>, id: Seq<char>)
    requires
        !has_id(records, id),
    ensures
        !has_launchable(records, id),
        !has_running(records, id),
{
    if has_launchable(records, id) {
        let k = choose|k: int| #[trigger] id_at(records, k, id) && launchable(records[k]);
        assert(records[k].workload.id@ == id);
        assert(false);
    }
    if has_running(records, id) {
        let k = choose|k: int| #[trigger] id_at(records, k, id) && records[k].status@ is Running;
        assert(records[k].workload.id@ == id);
        assert(false);
    }
}

/// When identifiers are unique and the sole record with the identifier is
/// not launchable (or not running), nothing with that identifier is.
pub proof fn lemma_sole_index_not_launchable(records: Seq<WorkloadRecord>, k: int, id: Seq<char>)
    requires
        ids_unique(records),
        id_at(records, k, id),
    ensures
        !launchable(records[k]) ==> !has_launchable(records, id),
        !(records[k].status@ is Running) ==> !has_running(records, id),
        launchable(records[k]) ==> has_launchable(records, id),
        records[k].status@ is Running ==> has_running(records, id),
{
    lemma_unique_id_index(records, k, id);
    if !launchable(records[k]) && has_launchable(records, id) {
        let j = choose|j: int| #[trigger] id_at(records, j, id) && launchable(records[j]);
        assert(j == k);
        assert(false);
    }
    if !(records[k].status@ is Running) && has_running(records, id) {
        let j = choose|j: int| #[trigger] id_at(records, j, id) && records[j].status@ is Running;
        assert(j == k);
        assert(false);
    }
}

impl WorkloadLifecycleManager {
    /// The manager's invariant: workload identifiers are unique, and a
    /// record is in the registry exactly when its state document is in the
    /// store, aligned entry by entry, each document parsing back to its
    /// record.
    pub open spec fn wf(&self) -> bool {
        &&& ids_unique(self.records@)
        &&& self.store_docs@.len() == self.records@.len()
        &&& forall|i: int|
            0 <= i < self.records@.len() ==> (#[trigger] self.store_docs@[i]).0@
                == self.records@[i].workload.id@
        &&& forall|i: int|
            0 <= i < self.records@.len() ==> sp_parse_record(
                (#[trigger] self.store_docs@[i]).1@,
            ) == Some(self.records@[i]@)
    }

    /// A fresh manager: no backend selected, no workloads.
    pub fn new(data_dir: String) -> (r: Self)
        ensures
            r.wf(),
            r.registry.active is None,
            r.records@.len() == 0,
            r.store_docs@.len() == 0,
            r.data_dir == data_dir,
    {
        WorkloadLifecycleManager {
            registry: RuntimeRegistry::new(),
            data_dir,
            records: Vec::new(),
            store_docs: Vec::new(),
        }
    }

    /// Selects the active backend from a probe outcome, in the fixed
    /// priority order. With nothing available the error carries all three
    /// candidate names.
    pub fn select_backend(&mut self, probe: &BackendProbe) -> (r: Result<
        RuntimeBackendKind,
        ProvisionError,
    >)
        requires
            old(self).wf(),
        ensures
            final(self).wf(),
            final(self).records == old(self).records,
            final(self).store_docs == old(self).store_docs,
            final(self).data_dir == old(self).data_dir,
            final(self).registry.active == spec_selected_backend(*probe),
            r matches Ok(k) ==> spec_selected_backend(*probe) == Option::Some(k),
            r matches Err(e) ==> spec_selected_backend(*probe) is None && (
            e matches ProvisionError::BackendUnavailable { candidates } && candidates@.map_values(
                |s: String| s@,
            ) == crate::registry::spec_candidate_names()),
    {
        match self.registry.select_active(probe) {
            Result::Ok(k) => Result::Ok(k),
            Result::Err(candidates) => Result::Err(
                ProvisionError::BackendUnavailable { candidates },
            ),
        }
    }

    /// The index of the record with the given identifier.
    pub fn find_index(&self, id: &str) -> (r: Option<usize>)
        ensures
            r matches Some(k) ==> k < self.records@.len() && self.records@[k as int].workload.id@
                == id@,
            r is None ==> !has_id(self.records@, id@),
    {
        let n = self.records.len();
        let mut i: usize = 0;
        while i < n
            invariant
                n == self.records@.len(),
                0 <= i <= n,
                forall|k: int| 0 <= k < i ==> (#[trigger] self.records@[k]).workload.id@ != id@,
            decreases n - i,
        {
            if str_eq(self.records[i].workload.id.as_str(), id) {
                return Option::Some(i);
            }
            i += 1;
        }
        Option::None
    }

    /// Repopulates an empty registry from the state documents found on
    /// disk at startup: every document that parses contributes a record.
    /// Documents that do not parse, and later duplicates of an
    /// already-loaded identifier, are skipped; the first document carrying
    /// each identifier is the one loaded, verbatim.
    #[verifier::rlimit(100)]
    #[verifier::spinoff_prover]
    pub fn load(&mut self, docs: &Vec<String>)
        requires
            old(self).wf(),
            old(self).records@.len() == 0,
        ensures
            final(self).wf(),
            final(self).registry == old(self).registry,
            final(self).data_dir == old(self).data_dir,
            loaded_from(final(self).records@, docs@),
            parsed_ids_loaded(final(self).records@, docs@, docs@.len() as int),
            first_documents_loaded(final(self).records@, docs@, docs@.len() as int),
    {
        let n = docs.len();
        let mut j: usize = 0;
        while j < n
            invariant
                n == docs@.len(),
                0 <= j <= n,
                self.wf(),
                self.registry == old(self).registry,
                self.data_dir == old(self).data_dir,
                loaded_from_prefix(self.records@, docs@, j as int),
                parsed_ids_loaded(self.records@, docs@, j as int),
                first_documents_loaded(self.records@, docs@, j as int),
            decreases n - j,
        {
            let ghost gj = j as int;
            match parse_record(docs[j].as_str()) {
                Option::Some(rec) => {
                    let ghost rv = rec@;
                    match self.find_index(rec.workload.id.as_str()) {
                        Option::Some(_) => {
                            proof {
                                lemma_load_duplicate_skipped(self.records@, docs@, gj, rv);
                            }
                        },
                        Option::None => {
                            let id = rec.workload.id.clone();
                            let ghost before = self.records@;
                            self.records.push(rec);
                            self.store_docs.push((id, docs[j].clone()));
                            proof {
                                lemma_load_pushed(before, self.records@, docs@, gj, rv);
                            }
                        },
                    }
                },
                Option::None => {},
            }
            j += 1;
        }
    }
}

/// A later document whose record's identifier is already loaded extends
/// the three loading facts without a new record.
#[verifier::rlimit(100)]
#[verifier::spinoff_prover]
proof fn lemma_load_duplicate_skipped(
    records: Seq<WorkloadRecord>,
    docs: Seq<String>,
    j: int,
    rv: crate::workload::WorkloadRecordV,
)
    requires
        0 <= j < docs.len(),
        sp_parse_record(docs[j]@) == Some(rv),
        has_id(records, rv.workload.id),
        loaded_from_prefix(records, docs, j),
        parsed_ids_loaded(records, docs, j),
        first_documents_loaded(records, docs, j),
    ensures
        loaded_from_prefix(records, docs, j + 1),
        parsed_ids_loaded(records, docs, j + 1),
        first_documents_loaded(records, docs, j + 1),
{
    assert forall|i: int| 0 <= i < records.len() implies exists|t: int|
        0 <= t < j + 1 && sp_parse_record(#[trigger] docs[t]@) == Some(
            (#[trigger] records[i])@,
        ) by {
        let t = choose|t: int|
            0 <= t < j && sp_parse_record(#[trigger] docs[t]@) == Some(records[i]@);
        assert(0 <= t < j + 1 && sp_parse_record(docs[t]@) == Some(records[i]@));
    }
    assert forall|jj: int|
        0 <= jj < j + 1 implies (match #[trigger] sp_parse_record(docs[jj]@) {
        Option::Some(rv2) => has_id(records, rv2.workload.id),
        Option::None => true,
    }) by {
        if jj == j {
            assert(has_id(records, rv.workload.id));
        }
    }
    assert forall|jj: int|
        0 <= jj < j + 1 implies (match #[trigger] sp_parse_record(docs[jj]@) {
        Option::Some(rv2) => first_with_id(docs, jj, rv2.workload.id) ==> exists|i: int|
            0 <= i < records.len() && (#[trigger] records[i])@ == rv2,
        Option::None => true,
    }) by {
        if jj == j {
            if first_with_id(docs, j, rv.workload.id) {
                let i0 = choose|i0: int|
                    0 <= i0 < records.len() && (#[trigger] records[i0]).workload.id@
                        == rv.workload.id;
                let t = choose|t: int|
                    0 <= t < j && sp_parse_record(#[trigger] docs[t]@) == Some(records[i0]@);
                assert(records[i0]@.workload.id == records[i0].workload.id@);
                assert(match sp_parse_record(docs[t]@) {
                    Option::Some(rv2) => rv2.workload.id != rv.workload.id,
                    Option::None => true,
                });
                assert(false);
            }
        }
    }
}

/// Pushing the record of the document at position `j` extends the three
/// loading facts.
#[verifier::rlimit(100)]
#[verifier::spinoff_prover]
proof fn lemma_load_pushed(
    before: Seq<WorkloadRecord>,
    records: Seq<WorkloadRecord>,
    docs: Seq<String>,
    j: int,
    rv: crate::workload::WorkloadRecordV,
)
    requires
        0 <= j < docs.len(),
        sp_parse_record(docs[j]@) == Some(rv),
        records.len() == before.len() + 1,
        records[records.len() - 1]@ == rv,
        forall|i: int| 0 <= i < before.len() ==> #[trigger] records[i] == before[i],
        loaded_from_prefix(before, docs, j),
        parsed_ids_loaded(before, docs, j),
        first_documents_loaded(before, docs, j),
    ensures
        loaded_from_prefix(records, docs, j + 1),
        parsed_ids_loaded(records, docs, j + 1),
        first_documents_loaded(records, docs, j + 1),
{
    assert forall|i: int| 0 <= i < records.len() implies exists|t: int|
        0 <= t < j + 1 && sp_parse_record(#[trigger] docs[t]@) == Some(
            (#[trigger] records[i])@,
        ) by {
        if i < before.len() {
            let t = choose|t: int|
                0 <= t < j && sp_parse_record(#[trigger] docs[t]@) == Some(before[i]@);
            assert(0 <= t < j + 1 && sp_parse_record(docs[t]@) == Some(records[i]@));
        } else {
            assert(0 <= j < j + 1 && sp_parse_record(docs[j]@) == Some(records[i]@));
        }
    }
    assert forall|jj: int|
        0 <= jj < j + 1 implies (match #[trigger] sp_parse_record(docs[jj]@) {
        Option::Some(rv2) => has_id(records, rv2.workload.id),
        Option::None => true,
    }) by {
        match sp_parse_record(docs[jj]@) {
            Option::Some(rv2) => {
                if jj < j {
                    let k = choose|k: int|
                        0 <= k < before.len() && (#[trigger] before[k]).workload.id@
                            == rv2.workload.id;
                    assert(records[k].workload.id@ == rv2.workload.id);
                } else {
                    let k = records.len() - 1;
                    assert(records[k]@.workload.id == rv.workload.id);
                    assert(records[k].workload.id@ == rv.workload.id);
                }
            },
            Option::None => {},
        }
    }
    assert forall|jj: int|
        0 <= jj < j + 1 implies (match #[trigger] sp_parse_record(docs[jj]@) {
        Option::Some(rv2) => first_with_id(docs, jj, rv2.workload.id) ==> exists|i: int|
            0 <= i < records.len() && (#[trigger] records[i])@ == rv2,
        Option::None => true,
    }) by {
        match sp_parse_record(docs[jj]@) {
            Option::Some(rv2) => {
                if jj < j {
                    if first_with_id(docs, jj, rv2.workload.id) {
                        let i0 = choose|i0: int|
                            0 <= i0 < before.len() && (#[trigger] before[i0])@ == rv2;
                        assert(records[i0]@ == rv2);
                    }
                } else {
                    assert(records[records.len() - 1]@ == rv2);
                }
            },
            Option::None => {},
        }
    }
}

} // verus!

verus! {

use crate::graphics::{spec_layer_name, spec_recommend, spec_recommend_keys, GraphicsLayerType};
use crate::policy::{
    env_view, spec_build_env, spec_dependencies, spec_fallback_runtime, spec_mount_points,
    spec_network_mode, spec_resource_limits, spec_select_image, spec_workload_name,
};
use crate::store::enc_record;

/// Every policy output of the spec builder, pinned for the request: the
/// clause shared by planning and committing a provisioning request.
pub open spec fn built_for_request(
    sv: crate::workload::GameWorkloadSpecV,
    game: Game,
    gpu: NvidiaFeatures,
    advisory: Option<Advisory>,
    display: Option<Seq<char>>,
    data_dir: Seq<char>,
    id: Seq<char>,
    now: u64,
) -> bool {
    &&& sv.id == id
    &&& sv.name == spec_workload_name(game.name@)
    &&& sv.game_id == game.id@
    &&& sv.base_image == spec_select_image(
        match game.launcher {
            Option::Some(l) => Option::Some(l@),
            Option::None => Option::None,
        },
        gpu.available,
    )
    &&& (match advisory {
        Option::Some(a) => sv.runtime_version == a.recommended_proton@,
        Option::None => sv.runtime_version == spec_fallback_runtime(),
    })
    &&& sv.graphics_layers == spec_recommend(spec_recommend_keys(game.name@), gpu).map_values(
        |t: GraphicsLayerType| spec_layer_name(t),
    )
    &&& sv.system_dependencies == spec_dependencies(game.name@)
    &&& sv.environment_variables == spec_build_env(
        sv.runtime_version,
        sv.graphics_layers,
        env_view(game.environment_variables@),
        display,
    )
    &&& crate::workload::env_keys_unique(sv.environment_variables)
    &&& sv.mount_points == spec_mount_points(game.install_path@, data_dir, id, display)
    &&& sv.network_mode == spec_network_mode(game.name@)
    &&& sv.resource_limits == spec_resource_limits(game.name@)
    &&& sv.resource_limits.memory_mb is Some
    &&& sv.created_at == now
}

/// The view of an optional display value.
pub open spec fn display_view(display: Option<String>) -> Option<Seq<char>> {
    match display {
        Option::Some(d) => Option::Some(d@),
        Option::None => Option::None,
    }
}

impl WorkloadLifecycleManager {
    /// Plans a provisioning request: runs the spec builder and the active
    /// backend's build planning, without touching the registry. The
    /// embedding materializes the plan, runs the build command, and hands
    /// the outcome to `create_and_build`.
    pub fn prepare_build(
        &self,
        game: &Game,
        gpu: &NvidiaFeatures,
        advisory: Option<&Advisory>,
        display: &Option<String>,
        id: String,
        now: u64,
    ) -> (r: Result<(GameWorkloadSpec, BuildPlan), ProvisionError>)
        ensures
            self.registry.active is None ==> (r matches Err(e) && e
                matches ProvisionError::BackendUnavailable { candidates } && candidates@.map_values(
                |s: String| s@,
            ) == crate::registry::spec_candidate_names()),
            self.registry.active is Some && game.install_path@.len() == 0 ==> r == Result::<
                (GameWorkloadSpec, BuildPlan),
                ProvisionError,
            >::Err(ProvisionError::InvalidGame),
            self.registry.active == Option::Some(RuntimeBackendKind::GamingOptimized)
                && game.install_path@.len() > 0 ==> r == Result::<
                (GameWorkloadSpec, BuildPlan),
                ProvisionError,
            >::Err(ProvisionError::BackendNotLinked),
            (self.registry.active == Option::Some(RuntimeBackendKind::Rootless)
                || self.registry.active == Option::Some(RuntimeBackendKind::Standard))
                && game.install_path@.len() > 0 ==> (r matches Ok(p) && built_for_request(
                p.0@,
                *game,
                *gpu,
                match advisory {
                    Option::Some(a) => Option::Some(*a),
                    Option::None => Option::None,
                },
                display_view(*display),
                self.data_dir@,
                id@,
                now,
            )),
    {
        match &self.registry.active {
            Option::None => Result::Err(
                ProvisionError::BackendUnavailable { candidates: RuntimeRegistry::candidates() },
            ),
            Option::Some(active) => {
                let workload = match build_workload_spec(
                    game,
                    gpu,
                    advisory,
                    display,
                    self.data_dir.as_str(),
                    id,
                    now,
                ) {
                    Result::Ok(w) => w,
                    Result::Err(e) => {
                        return Result::Err(e);
                    },
                };
                match plan_build(&workload, active, self.data_dir.as_str()) {
                    Result::Ok(plan) => Result::Ok((workload, plan)),
                    Result::Err(e) => Result::Err(e),
                }
            },
        }
    }

    /// Provisions a workload: rebuilds the plan for the request, consults
    /// the backend build outcome, and on success — and only then — inserts
    /// a stopped record into the registry and emits the state-store write.
    /// On any failure nothing is inserted and nothing is persisted.
    pub fn create_and_build(
        &mut self,
        game: &Game,
        gpu: &NvidiaFeatures,
        advisory: Option<&Advisory>,
        display: &Option<String>,
        id: String,
        now: u64,
        build: &BuildOutcome,
    ) -> (r: (Result<String, ProvisionError>, Option<StoreAction>))
        requires
            old(self).wf(),
        ensures
            final(self).wf(),
            final(self).registry == old(self).registry,
            final(self).data_dir == old(self).data_dir,
            r.0 is Err ==> final(self).records == old(self).records && final(self).store_docs
                == old(self).store_docs && r.1 is None,
            old(self).registry.active is None ==> (r.0 matches Err(e) && e
                matches ProvisionError::BackendUnavailable { candidates } && candidates@.map_values(
                |s: String| s@,
            ) == crate::registry::spec_candidate_names()),
            old(self).registry.active is Some && game.install_path@.len() == 0 ==> r.0
                == Result::<String, ProvisionError>::Err(ProvisionError::InvalidGame),
            old(self).registry.active == Option::Some(RuntimeBackendKind::GamingOptimized)
                && game.install_path@.len() > 0 ==> r.0 == Result::<String, ProvisionError>::Err(
                ProvisionError::BackendNotLinked,
            ),
            (old(self).registry.active == Option::Some(RuntimeBackendKind::Rootless) || old(
                self,
            ).registry.active == Option::Some(RuntimeBackendKind::Standard))
                && game.install_path@.len() > 0 && has_id(old(self).records@, id@) ==> r.0
                == Result::<String, ProvisionError>::Err(ProvisionError::DuplicateId),
            (old(self).registry.active == Option::Some(RuntimeBackendKind::Rootless) || old(
                self,
            ).registry.active == Option::Some(RuntimeBackendKind::Standard))
                && game.install_path@.len() > 0 && !has_id(old(self).records@, id@)
                && !build.success ==> (r.0 matches Err(e) && e
                matches ProvisionError::BuildFailed { stderr } && stderr@ == build.stderr@),
            (old(self).registry.active == Option::Some(RuntimeBackendKind::Rootless) || old(
                self,
            ).registry.active == Option::Some(RuntimeBackendKind::Standard))
                && game.install_path@.len() > 0 && !has_id(old(self).records@, id@)
                && build.success ==> (r.0 matches Ok(rid) && rid@ == id@ && {
                let recs = final(self).records@;
                let rec = recs[recs.len() - 1];
                &&& recs.len() == old(self).records@.len() + 1
                &&& recs.take(recs.len() - 1) == old(self).records@
                &&& rec.status@ is Stopped
                &&& rec.last_used is None
                &&& rec.size_mb is None
                &&& built_for_request(
                    rec.workload@,
                    *game,
                    *gpu,
                    match advisory {
                        Option::Some(a) => Option::Some(*a),
                        Option::None => Option::None,
                    },
                    display_view(*display),
                    old(self).data_dir@,
                    id@,
                    now,
                )
                &&& (r.1 matches Some(act) && act matches StoreAction::Write {
                    id: wid,
                    document,
                } && wid@ == id@ && document@ == enc_record(rec@))
            }),
    {
        let ghost old_records = self.records@;
        let (workload, _plan) = match self.prepare_build(game, gpu, advisory, display, id, now) {
            Result::Ok(p) => p,
            Result::Err(e) => {
                return (Result::Err(e), Option::None);
            },
        };
        if self.find_index(workload.id.as_str()).is_some() {
            return (Result::Err(ProvisionError::DuplicateId), Option::None);
        }
        if !build.success {
            return (
                Result::Err(ProvisionError::BuildFailed { stderr: build.stderr.clone() }),
                Option::None,
            );
        }
        let rec = WorkloadRecord {
            workload,
            status: ContainerStatus::Stopped,
            last_used: Option::None,
            size_mb: Option::None,
        };
        let rid = rec.workload.id.clone();
        let document = encode_record(&rec);
        let action_id = rid.clone();
        self.records.push(rec);
        self.store_docs.push((rid.clone(), document.clone()));
        proof {
            crate::store::lemma_record_roundtrip(self.records@[self.records@.len() - 1]@);
            assert(self.records@.take(self.records@.len() - 1) =~= old_records);
        }
        (Result::Ok(rid), Option::Some(StoreAction::Write { id: action_id, document }))
    }
}

} // verus!

verus! {

use crate::backend::spec_run_args;

impl WorkloadLifecycleManager {
    /// The deterministic argument vector that runs a workload on the
    /// active text-based backend. A known workload in the stopped or error
    /// state always gets its command on such a backend; every refusal is
    /// pinned to its cause.
    pub fn run_arguments(&self, id: &str, command: &str, args: &Vec<String>) -> (r: Result<
        Vec<String>,
        LaunchError,
    >)
        requires
            self.wf(),
        ensures
            self.registry.active is None ==> r == Result::<Vec<String>, LaunchError>::Err(
                LaunchError::BackendUnavailable,
            ),
            self.registry.active is Some && !has_id(self.records@, id@) ==> r == Result::<
                Vec<String>,
                LaunchError,
            >::Err(LaunchError::NotFound),
            self.registry.active is Some && has_id(self.records@, id@) && !has_launchable(
                self.records@,
                id@,
            ) ==> r == Result::<Vec<String>, LaunchError>::Err(LaunchError::InvalidState),
            self.registry.active == Option::Some(RuntimeBackendKind::GamingOptimized)
                && has_launchable(self.records@, id@) ==> r == Result::<
                Vec<String>,
                LaunchError,
            >::Err(LaunchError::BackendNotLinked),
            (self.registry.active matches Option::Some(a) && a is Custom) && has_launchable(
                self.records@,
                id@,
            ) ==> r == Result::<Vec<String>, LaunchError>::Err(LaunchError::UnsupportedRuntime),
            (self.registry.active == Option::Some(RuntimeBackendKind::Rootless)
                || self.registry.active == Option::Some(RuntimeBackendKind::Standard))
                && has_launchable(self.records@, id@) ==> r is Ok,
            r matches Ok(v) ==> exists|k: int|
                0 <= k < self.records@.len() && (#[trigger] self.records@[k]).workload.id@ == id@
                    && ((self.records@[k].status@ is Stopped) || (
                self.records@[k].status@ is Error)) && (self.registry.active
                    == Option::Some(RuntimeBackendKind::Rootless) || self.registry.active
                    == Option::Some(RuntimeBackendKind::Standard)) && v@.map_values(
                    |s: String| s@,
                ) == spec_run_args(
                    self.records@[k].workload@,
                    crate::backend::spec_runtime_binary(self.registry.active->0)->0,
                    command@,
                    args@.map_values(|s: String| s@),
                ),
    {
        match &self.registry.active {
            Option::None => Result::Err(LaunchError::BackendUnavailable),
            Option::Some(active) => {
                match self.find_index(id) {
                    Option::None => {
                        proof {
                            lemma_absent_id_not_launchable(self.records@, id@);
                        }
                        Result::Err(LaunchError::NotFound)
                    },
                    Option::Some(k) => {
                        let launchable_here = match &self.records[k].status {
                            ContainerStatus::Stopped => true,
                            ContainerStatus::Error(_) => true,
                            _ => false,
                        };
                        proof {
                            assert(id_at(self.records@, k as int, id@));
                            lemma_unique_id_index(self.records@, k as int, id@);
                        }
                        if !launchable_here {
                            proof {
                                lemma_sole_index_not_launchable(self.records@, k as int, id@);
                            }
                            return Result::Err(LaunchError::InvalidState);
                        }
                        proof {
                            assert(has_launchable(self.records@, id@));
                        }
                        build_run_command(&self.records[k].workload, active, command, args)
                    },
                }
            },
        }
    }

    /// Notes the outcome of spawning a workload process. On success the
    /// record transitions to running, its last-used time is set, and the
    /// updated record is persisted; on failure nothing changes.
    pub fn launch(&mut self, id: &str, now: u64, spawn: &SpawnOutcome) -> (r: (
        Result<u32, LaunchError>,
        Option<StoreAction>,
    ))
        requires
            old(self).wf(),
        ensures
            final(self).wf(),
            final(self).registry == old(self).registry,
            final(self).data_dir == old(self).data_dir,
            r.0 is Err ==> final(self).records == old(self).records && final(self).store_docs
                == old(self).store_docs && r.1 is None,
            !has_id(old(self).records@, id@) ==> r.0 == Result::<u32, LaunchError>::Err(
                LaunchError::NotFound,
            ),
            has_id(old(self).records@, id@) && !has_launchable(old(self).records@, id@) ==> r.0
                == Result::<u32, LaunchError>::Err(LaunchError::InvalidState),
            has_launchable(old(self).records@, id@) && !spawn.success ==> (r.0 matches Err(e) && e
                matches LaunchError::LaunchFailed { detail } && detail@ == spawn.detail@),
            has_launchable(old(self).records@, id@) && spawn.success ==> r.0 is Ok,
            r.0 matches Ok(pid) ==> pid == spawn.pid && spawn.success && exists|k: int|
                {
                    &&& 0 <= k < old(self).records@.len()
                    &&& (#[trigger] old(self).records@[k]).workload.id@ == id@
                    &&& (old(self).records@[k].status@ is Stopped || old(
                        self,
                    ).records@[k].status@ is Error)
                    &&& final(self).records@ == old(self).records@.update(
                        k,
                        WorkloadRecord {
                            status: ContainerStatus::Running,
                            last_used: Option::Some(now),
                            ..old(self).records@[k]
                        },
                    )
                    &&& (r.1 matches Some(act) && act matches StoreAction::Write {
                        id: wid,
                        document,
                    } && wid@ == id@ && document@ == enc_record(final(self).records@[k]@))
                },
    {
        let k = match self.find_index(id) {
            Option::None => {
                proof {
                    lemma_absent_id_not_launchable(self.records@, id@);
                }
                return (Result::Err(LaunchError::NotFound), Option::None);
            },
            Option::Some(k) => k,
        };
        proof {
            assert(id_at(self.records@, k as int, id@));
            lemma_sole_index_not_launchable(self.records@, k as int, id@);
        }
        let launchable_here = match &self.records[k].status {
            ContainerStatus::Stopped => true,
            ContainerStatus::Error(_) => true,
            _ => false,
        };
        if !launchable_here {
            return (Result::Err(LaunchError::InvalidState), Option::None);
        }
        if !spawn.success {
            return (
                Result::Err(LaunchError::LaunchFailed { detail: spawn.detail.clone() }),
                Option::None,
            );
        }
        self.records[k].status = ContainerStatus::Running;
        self.records[k].last_used = Option::Some(now);
        let document = encode_record(&self.records[k]);
        let rid = self.records[k].workload.id.clone();
        self.store_docs[k] = (rid.clone(), document.clone());
        proof {
            crate::store::lemma_record_roundtrip(self.records@[k as int]@);
        }
        (Result::Ok(spawn.pid), Option::Some(StoreAction::Write { id: rid, document }))
    }

    /// Notes the outcome of a graceful stop. Valid only from the running
    /// state; once the process is confirmed gone the record transitions to
    /// stopped and is persisted.
    pub fn stop(&mut self, id: &str, confirmed_gone: bool, detail: &str) -> (r: (
        Result<(), StopError>,
        Option<StoreAction>,
    ))
        requires
            old(self).wf(),
        ensures
            final(self).wf(),
            final(self).registry == old(self).registry,
            final(self).data_dir == old(self).data_dir,
            r.0 is Err ==> final(self).records == old(self).records && final(self).store_docs
                == old(self).store_docs && r.1 is None,
            !has_id(old(self).records@, id@) ==> r.0 == Result::<(), StopError>::Err(
                StopError::NotFound,
            ),
            has_id(old(self).records@, id@) && !has_running(old(self).records@, id@) ==> r.0
                == Result::<(), StopError>::Err(StopError::InvalidState),
            has_running(old(self).records@, id@) && !confirmed_gone ==> (r.0 matches Err(e) && e
                matches StopError::StopFailed { detail: d } && d@ == detail@),
            has_running(old(self).records@, id@) && confirmed_gone ==> r.0 is Ok,
            r.0 is Ok ==> confirmed_gone && exists|k: int|
                {
                    &&& 0 <= k < old(self).records@.len()
                    &&& (#[trigger] old(self).records@[k]).workload.id@ == id@
                    &&& old(self).records@[k].status@ is Running
                    &&& final(self).records@ == old(self).records@.update(
                        k,
                        WorkloadRecord {
                            status: ContainerStatus::Stopped,
                            ..old(self).records@[k]
                        },
                    )
                    &&& (r.1 matches Some(act) && act matches StoreAction::Write {
                        id: wid,
                        document,
                    } && wid@ == id@ && document@ == enc_record(final(self).records@[k]@))
                },
    {
        let k = match self.find_index(id) {
            Option::None => {
                proof {
                    lemma_absent_id_not_launchable(self.records@, id@);
                }
                return (Result::Err(StopError::NotFound), Option::None);
            },
            Option::Some(k) => k,
        };
        proof {
            assert(id_at(self.records@, k as int, id@));
            lemma_sole_index_not_launchable(self.records@, k as int, id@);
        }
        if !self.records[k].status.is_running() {
            return (Result::Err(StopError::InvalidState), Option::None);
        }
        if !confirmed_gone {
            return (
                Result::Err(StopError::StopFailed { detail: detail.to_owned() }),
                Option::None,
            );
        }
        self.records[k].status = ContainerStatus::Stopped;
        let document = encode_record(&self.records[k]);
        let rid = self.records[k].workload.id.clone();
        self.store_docs[k] = (rid.clone(), document.clone());
        proof {
            crate::store::lemma_record_roundtrip(self.records@[k as int]@);
        }
        (Result::Ok(()), Option::Some(StoreAction::Write { id: rid, document }))
    }

    /// The supervisor's process-exit notification: the one implicit state
    /// transition. A running record becomes stopped on a clean exit and
    /// goes to the error state otherwise; any other record is untouched.
    pub fn handle_exit(&mut self, id: &str, clean: bool, detail: &str) -> (r: Option<StoreAction>)
        requires
            old(self).wf(),
        ensures
            final(self).wf(),
            final(self).registry == old(self).registry,
            final(self).data_dir == old(self).data_dir,
            r is None ==> final(self).records == old(self).records && final(self).store_docs
                == old(self).store_docs,
            !has_id(old(self).records@, id@) ==> r is None,
            has_id(old(self).records@, id@) && !has_running(old(self).records@, id@) ==> r
                is None,
            has_running(old(self).records@, id@) ==> r is Some,
            r matches Some(act) ==> exists|k: int|
                {
                    &&& 0 <= k < old(self).records@.len()
                    &&& (#[trigger] old(self).records@[k]).workload.id@ == id@
                    &&& old(self).records@[k].status@ is Running
                    &&& final(self).records@.len() == old(self).records@.len()
                    &&& (forall|j: int|
                        0 <= j < old(self).records@.len() && j != k
                            ==> #[trigger] final(self).records@[j] == old(self).records@[j])
                    &&& final(self).records@[k].workload == old(self).records@[k].workload
                    &&& final(self).records@[k].last_used == old(self).records@[k].last_used
                    &&& final(self).records@[k].size_mb == old(self).records@[k].size_mb
                    &&& (clean ==> final(self).records@[k].status@ is Stopped)
                    &&& (!clean ==> (final(self).records@[k].status@
                        matches crate::workload::ContainerStatusV::Error(msg) && msg == detail@))
                    &&& (act matches StoreAction::Write { id: wid, document } && wid@ == id@
                        && document@ == enc_record(final(self).records@[k]@))
                },
    {
        let k = match self.find_index(id) {
            Option::None => {
                proof {
                    lemma_absent_id_not_launchable(self.records@, id@);
                }
                return Option::None;
            },
            Option::Some(k) => k,
        };
        proof {
            assert(id_at(self.records@, k as int, id@));
            lemma_sole_index_not_launchable(self.records@, k as int, id@);
        }
        if !self.records[k].status.is_running() {
            return Option::None;
        }
        if clean {
            self.records[k].status = ContainerStatus::Stopped;
        } else {
            self.records[k].status = ContainerStatus::Error(detail.to_owned());
        }
        let document = encode_record(&self.records[k]);
        let rid = self.records[k].workload.id.clone();
        self.store_docs[k] = (rid.clone(), document.clone());
        proof {
            crate::store::lemma_record_roundtrip(self.records@[k as int]@);
        }
        Option::Some(StoreAction::Write { id: rid, document })
    }
}

} // verus!

verus! {

/// Whether a cleanup pass with the given cutoff is due to remove a record:
/// its last-used time is unset or older than the cutoff.
pub open spec fn cleanup_due(rec: WorkloadRecord, cutoff: u64) -> bool {
    match rec.last_used {
        Option::Some(t) => t < cutoff,
        Option::None => true,
    }
}

impl WorkloadLifecycleManager {
    /// Removes a workload: valid from any state but running. The record
    /// and its state document leave together; an unknown identifier is
    /// `NotFound` and changes nothing, so a second removal of the same
    /// identifier can never leave a dangling state file.
    pub fn remove(&mut self, id: &str) -> (r: (
        Result<(), RemoveError>,
        Option<StoreAction>,
        Option<Vec<String>>,
    ))
        requires
            old(self).wf(),
        ensures
            final(self).wf(),
            final(self).registry == old(self).registry,
            final(self).data_dir == old(self).data_dir,
            r.0 is Err ==> final(self).records == old(self).records && final(self).store_docs
                == old(self).store_docs && r.1 is None && r.2 is None,
            !has_id(old(self).records@, id@) ==> r.0 == Result::<(), RemoveError>::Err(
                RemoveError::NotFound,
            ),
            has_running(old(self).records@, id@) ==> r.0 == Result::<(), RemoveError>::Err(
                RemoveError::WorkloadRunning,
            ),
            has_id(old(self).records@, id@) && !has_running(old(self).records@, id@) ==> r.0
                is Ok,
            r.0 is Ok ==> (match r.2 {
                Option::Some(v) => crate::backend::spec_remove_image_args(
                    old(self).registry.active,
                    id@,
                ) == Option::Some(v@.map_values(|s: String| s@)),
                Option::None => crate::backend::spec_remove_image_args(
                    old(self).registry.active,
                    id@,
                ) is None,
            }),
            r.0 is Ok ==> exists|k: int|
                {
                    &&& 0 <= k < old(self).records@.len()
                    &&& (#[trigger] old(self).records@[k]).workload.id@ == id@
                    &&& !(old(self).records@[k].status@ is Running)
                    &&& final(self).records@ == old(self).records@.remove(k)
                    &&& final(self).store_docs@ == old(self).store_docs@.remove(k)
                    &&& (r.1 matches Some(act) && act matches StoreAction::Delete { id: did }
                        && did@ == id@)
                },
            r.0 is Ok ==> !has_id(final(self).records@, id@),
    {
        let k = match self.find_index(id) {
            Option::None => {
                proof {
                    lemma_absent_id_not_launchable(self.records@, id@);
                }
                return (Result::Err(RemoveError::NotFound), Option::None, Option::None);
            },
            Option::Some(k) => k,
        };
        proof {
            assert(id_at(self.records@, k as int, id@));
            lemma_sole_index_not_launchable(self.records@, k as int, id@);
        }
        if self.records[k].status.is_running() {
            return (Result::Err(RemoveError::WorkloadRunning), Option::None, Option::None);
        }
        let ghost old_records = self.records@;
        let rid = self.records[k].workload.id.clone();
        let _ = self.records.remove(k);
        let _ = self.store_docs.remove(k);
        let backend_command = crate::backend::remove_image_command(&self.registry.active, id);
        proof {
            assert forall|i: int|
                0 <= i < self.records@.len() implies (#[trigger] self.records@[i]).workload.id@
                != id@ by {
                if i < k {
                    assert(self.records@[i] == old_records[i]);
                } else {
                    assert(self.records@[i] == old_records[i + 1]);
                }
            }
        }
        (
            Result::Ok(()),
            Option::Some(StoreAction::Delete { id: rid }),
            backend_command,
        )
    }
}

} // verus!

verus! {

/// Records a cleanup pass keeps: recently used ones, and running ones,
/// which cannot be removed.
pub open spec fn cleanup_keep_fn(cutoff: u64) -> spec_fn(WorkloadRecord) -> bool {
    |r: WorkloadRecord| !cleanup_due(r, cutoff) || r.status@ is Running
}

/// Records a cleanup pass removes: due and not running.
pub open spec fn cleanup_remove_fn(cutoff: u64) -> spec_fn(WorkloadRecord) -> bool {
    |r: WorkloadRecord| cleanup_due(r, cutoff) && !(r.status@ is Running)
}

/// Records a cleanup pass reports as failed: due but running.
pub open spec fn cleanup_fail_fn(cutoff: u64) -> spec_fn(WorkloadRecord) -> bool {
    |r: WorkloadRecord| cleanup_due(r, cutoff) && r.status@ is Running
}

/// A record's identifier, as the report lists it.
pub open spec fn rec_id_fn() -> spec_fn(WorkloadRecord) -> Seq<char> {
    |r: WorkloadRecord| r.workload.id@
}

impl WorkloadLifecycleManager {
    /// The age-based batch cleanup: scans all records, removes every
    /// workload whose last-used time is unset or older than `now` minus
    /// `max_age_seconds`, and collects per-item outcomes rather than
    /// aborting on the first failure. A due-but-running workload is a
    /// failure entry and is retained; every other recently-used workload
    /// is retained untouched.
    #[verifier::rlimit(100)]
    #[verifier::spinoff_prover]
    pub fn cleanup_older_than(&mut self, now: u64, max_age_seconds: u64) -> (r: (
        CleanupReport,
        Vec<StoreAction>,
    ))
        requires
            old(self).wf(),
        ensures
            final(self).wf(),
            final(self).registry == old(self).registry,
            final(self).data_dir == old(self).data_dir,
            ({
                let cutoff: u64 = if max_age_seconds > now {
                    0u64
                } else {
                    (now - max_age_seconds) as u64
                };
                &&& final(self).records@ == old(self).records@.filter(cleanup_keep_fn(cutoff))
                &&& r.0.removed@.map_values(|s: String| s@) == old(self).records@.filter(
                    cleanup_remove_fn(cutoff),
                ).map_values(rec_id_fn())
                &&& r.0.failed@.map_values(|p: (String, String)| p.0@) == old(
                    self,
                ).records@.filter(cleanup_fail_fn(cutoff)).map_values(rec_id_fn())
                &&& (forall|k: int|
                    0 <= k < r.0.failed@.len() ==> (#[trigger] r.0.failed@[k]).1@
                        == "workload is running"@)
                &&& r.1@.len() == r.0.removed@.len()
                &&& (forall|k: int|
                    0 <= k < r.1@.len() ==> ((#[trigger] r.1@[k])
                        matches StoreAction::Delete { id } && id@ == r.0.removed@[k]@))
            }),
    {
        let cutoff: u64 = if max_age_seconds > now {
            0
        } else {
            now - max_age_seconds
        };
        let mut old_records: Vec<WorkloadRecord> = Vec::new();
        let mut old_docs: Vec<(String, String)> = Vec::new();
        core::mem::swap(&mut old_records, &mut self.records);
        core::mem::swap(&mut old_docs, &mut self.store_docs);
        let ghost orig = old_records@;
        let ghost orig_docs = old_docs@;
        let mut removed: Vec<String> = Vec::new();
        let mut failed: Vec<(String, String)> = Vec::new();
        let mut actions: Vec<StoreAction> = Vec::new();
        proof {
            reveal(Seq::filter);
            assert(orig.take(0).filter(cleanup_keep_fn(cutoff)) =~= Seq::<WorkloadRecord>::empty());
            assert(orig.take(0).filter(cleanup_remove_fn(cutoff)) =~= Seq::<
                WorkloadRecord,
            >::empty());
            assert(orig.take(0).filter(cleanup_fail_fn(cutoff)) =~= Seq::<WorkloadRecord>::empty());
        }
        while old_records.len() > 0
            invariant
                orig_docs.len() == orig.len(),
                old_docs@.len() == old_records@.len(),
                old_records@.len() <= orig.len(),
                old_records@ == orig.subrange(
                    orig.len() - old_records@.len(),
                    orig.len() as int,
                ),
                old_docs@ == orig_docs.subrange(
                    orig.len() - old_records@.len(),
                    orig.len() as int,
                ),
                forall|i: int, j: int|
                    0 <= i < j < orig.len() ==> (#[trigger] orig[i]).workload.id@ != (
                    #[trigger] orig[j]).workload.id@,
                forall|i: int|
                    0 <= i < orig.len() ==> (#[trigger] orig_docs[i]).0@ == orig[i].workload.id@,
                forall|i: int|
                    0 <= i < orig.len() ==> sp_parse_record((#[trigger] orig_docs[i]).1@) == Some(
                        orig[i]@,
                    ),
                self.records@ == orig.take(orig.len() - old_records@.len()).filter(
                    cleanup_keep_fn(cutoff),
                ),
                forall|i: int|
                    0 <= i < self.records@.len() ==> exists|j: int|
                        0 <= j < orig.len() - old_records@.len() && #[trigger] self.records@[i]
                            == orig[j],
                forall|i1: int, i2: int|
                    0 <= i1 < i2 < self.records@.len() ==> (
                    #[trigger] self.records@[i1]).workload.id@ != (
                    #[trigger] self.records@[i2]).workload.id@,
                self.store_docs@.len() == self.records@.len(),
                forall|i: int|
                    0 <= i < self.records@.len() ==> (#[trigger] self.store_docs@[i]).0@
                        == self.records@[i].workload.id@,
                forall|i: int|
                    0 <= i < self.records@.len() ==> sp_parse_record(
                        (#[trigger] self.store_docs@[i]).1@,
                    ) == Some(self.records@[i]@),
                removed@.map_values(|s: String| s@) == orig.take(
                    orig.len() - old_records@.len(),
                ).filter(cleanup_remove_fn(cutoff)).map_values(rec_id_fn()),
                failed@.map_values(|p: (String, String)| p.0@) == orig.take(
                    orig.len() - old_records@.len(),
                ).filter(cleanup_fail_fn(cutoff)).map_values(rec_id_fn()),
                forall|k: int|
                    0 <= k < failed@.len() ==> (#[trigger] failed@[k]).1@
                        == "workload is running"@,
                actions@.len() == removed@.len(),
                forall|k: int|
                    0 <= k < actions@.len() ==> ((#[trigger] actions@[k])
                        matches StoreAction::Delete { id } && id@ == removed@[k]@),
                self.registry == old(self).registry,
                self.data_dir == old(self).data_dir,
            decreases old_records@.len(),
        {
            let ghost t = orig.len() - old_records@.len();
            let rec = old_records.remove(0);
            let doc = old_docs.remove(0);
            proof {
                assert(rec == orig[t]);
                assert(doc == orig_docs[t]);
                assert(old_records@ =~= orig.subrange(t + 1, orig.len() as int));
                assert(old_docs@ =~= orig_docs.subrange(t + 1, orig.len() as int));
                assert(orig.take(t + 1).drop_last() =~= orig.take(t));
                assert(orig.take(t + 1).last() == orig[t]);
                assert(cleanup_keep_fn(cutoff)(orig[t]) == (!cleanup_due(orig[t], cutoff) || orig[
                    t
                ].status@ is Running));
                assert(cleanup_remove_fn(cutoff)(orig[t]) == (cleanup_due(orig[t], cutoff) && !(
                orig[t].status@ is Running)));
                assert(cleanup_fail_fn(cutoff)(orig[t]) == (cleanup_due(orig[t], cutoff) && orig[
                    t
                ].status@ is Running));
                assert(rec_id_fn()(orig[t]) == orig[t].workload.id@);
            }
            let due = match rec.last_used {
                Option::Some(ts) => ts < cutoff,
                Option::None => true,
            };
            let running = rec.status.is_running();
            proof {
                assert(due == cleanup_due(orig[t], cutoff));
                assert(running == (orig[t].status@ is Running));
            }
            if due && !running {
                let rid = rec.workload.id.clone();
                let ghost ridg = rid;
                let ghost removed_before = removed@;
                removed.push(rid);
                actions.push(StoreAction::Delete { id: rec.workload.id.clone() });
                proof {
                    reveal(Seq::filter);
                    let rm = cleanup_remove_fn(cutoff);
                    assert(orig.take(t + 1).filter(rm) =~= orig.take(t).filter(rm).push(orig[t]));
                    orig.take(t).filter(rm).lemma_push_map_commute(rec_id_fn(), orig[t]);
                    removed_before.lemma_push_map_commute(|s2: String| s2@, ridg);
                    assert(removed@.map_values(|s2: String| s2@) =~= orig.take(t + 1).filter(
                        rm,
                    ).map_values(rec_id_fn()));
                    assert(removed@.map_values(|s: String| s@) =~= removed@.map_values(
                        |s2: String| s2@,
                    ));
                    assert(orig.take(t + 1).filter(cleanup_fail_fn(cutoff)) =~= orig.take(
                        t,
                    ).filter(cleanup_fail_fn(cutoff)));
                    assert(orig.take(t + 1).filter(cleanup_keep_fn(cutoff)) =~= orig.take(
                        t,
                    ).filter(cleanup_keep_fn(cutoff)));
                    assert(self.records@ =~= orig.take(t + 1).filter(cleanup_keep_fn(cutoff)));
                }
            } else if due && running {
                let pair = (rec.workload.id.clone(), "workload is running".to_owned());
                let ghost pairg = pair;
                let ghost failed_before = failed@;
                failed.push(pair);
                self.records.push(rec);
                self.store_docs.push(doc);
                proof {
                    reveal(Seq::filter);
                    let fl = cleanup_fail_fn(cutoff);
                    assert(orig.take(t + 1).filter(fl) =~= orig.take(t).filter(fl).push(orig[t]));
                    orig.take(t).filter(fl).lemma_push_map_commute(rec_id_fn(), orig[t]);
                    failed_before.lemma_push_map_commute(|p2: (String, String)| p2.0@, pairg);
                    assert(failed@.map_values(|p2: (String, String)| p2.0@) =~= orig.take(
                        t + 1,
                    ).filter(fl).map_values(rec_id_fn()));
                    assert(failed@.map_values(|p: (String, String)| p.0@) =~= failed@.map_values(
                        |p2: (String, String)| p2.0@,
                    ));
                    assert(orig.take(t + 1).filter(cleanup_remove_fn(cutoff)) =~= orig.take(
                        t,
                    ).filter(cleanup_remove_fn(cutoff)));
                    assert(removed@.map_values(|s: String| s@) =~= orig.take(t + 1).filter(
                        cleanup_remove_fn(cutoff),
                    ).map_values(rec_id_fn()));
                    assert(orig.take(t + 1).filter(cleanup_keep_fn(cutoff)) =~= orig.take(
                        t,
                    ).filter(cleanup_keep_fn(cutoff)).push(orig[t]));
                    assert(self.records@ =~= orig.take(t + 1).filter(cleanup_keep_fn(cutoff)));
                    assert forall|i: int| 0 <= i < self.records@.len() implies exists|j: int|
                        0 <= j < t + 1 && #[trigger] self.records@[i] == orig[j] by {
                        if i == self.records@.len() - 1 {
                            assert(0 <= t < t + 1 && self.records@[i] == orig[t]);
                        }
                    }
                    assert forall|i1: int, i2: int|
                        0 <= i1 < i2 < self.records@.len() implies (
                    #[trigger] self.records@[i1]).workload.id@ != (
                    #[trigger] self.records@[i2]).workload.id@ by {
                        if i2 == self.records@.len() - 1 {
                            let j1 = choose|j: int|
                                0 <= j < t && self.records@[i1] == orig[j];
                            assert(orig[j1].workload.id@ != orig[t].workload.id@);
                        }
                    }
                }
            } else {
                self.records.push(rec);
                self.store_docs.push(doc);
                proof {
                    reveal(Seq::filter);
                    assert(orig.take(t + 1).filter(cleanup_remove_fn(cutoff)) =~= orig.take(
                        t,
                    ).filter(cleanup_remove_fn(cutoff)));
                    assert(removed@.map_values(|s: String| s@) =~= orig.take(t + 1).filter(
                        cleanup_remove_fn(cutoff),
                    ).map_values(rec_id_fn()));
                    assert(orig.take(t + 1).filter(cleanup_fail_fn(cutoff)) =~= orig.take(
                        t,
                    ).filter(cleanup_fail_fn(cutoff)));
                    assert(failed@.map_values(|p: (String, String)| p.0@) =~= orig.take(
                        t + 1,
                    ).filter(cleanup_fail_fn(cutoff)).map_values(rec_id_fn()));
                    assert(orig.take(t + 1).filter(cleanup_keep_fn(cutoff)) =~= orig.take(
                        t,
                    ).filter(cleanup_keep_fn(cutoff)).push(orig[t]));
                    assert(self.records@ =~= orig.take(t + 1).filter(cleanup_keep_fn(cutoff)));
                    assert forall|i: int| 0 <= i < self.records@.len() implies exists|j: int|
                        0 <= j < t + 1 && #[trigger] self.records@[i] == orig[j] by {
                        if i == self.records@.len() - 1 {
                            assert(0 <= t < t + 1 && self.records@[i] == orig[t]);
                        }
                    }
                    assert forall|i1: int, i2: int|
                        0 <= i1 < i2 < self.records@.len() implies (
                    #[trigger] self.records@[i1]).workload.id@ != (
                    #[trigger] self.records@[i2]).workload.id@ by {
                        if i2 == self.records@.len() - 1 {
                            let j1 = choose|j: int|
                                0 <= j < t && self.records@[i1] == orig[j];
                            assert(orig[j1].workload.id@ != orig[t].workload.id@);
                        }
                    }
                }
            }
        }
        proof {
            assert(orig.take(orig.len() as int) =~= orig);
        }
        (CleanupReport { removed, failed }, actions)
    }
}

} // verus!

verus! {

/// An identifier absent from a well-formed manager's registry has no state
/// document in its store either: removal can never leave a dangling state
/// file behind, and removing an already-removed identifier is reported as
/// not found without touching anything.
pub proof fn lemma_no_dangling_state_file(m: &WorkloadLifecycleManager, id: Seq<char>)
    requires
        m.wf(),
        !has_id(m.records@, id),
    ensures
        forall|k: int| 0 <= k < m.store_docs@.len() ==> (#[trigger] m.store_docs@[k]).0@ != id,
{
    assert forall|k: int|
        0 <= k < m.store_docs@.len() implies (#[trigger] m.store_docs@[k]).0@ != id by {
        assert(m.store_docs@[k].0@ == m.records@[k].workload.id@);
    }
}

} // verus!

verus! {

/// Workload identifiers are globally unique in a well-formed manager: no
/// two records ever share one, however many provisioning requests, loads
/// and removals produced them.
pub proof fn lemma_workload_ids_unique(m: &WorkloadLifecycleManager)
    requires
        m.wf(),
    ensures
        forall|i: int, j: int|
            0 <= i < j < m.records@.len() ==> (#[trigger] m.records@[i]).workload.id@ != (
            #[trigger] m.records@[j]).workload.id@,
{
}

} // verus!
