use vstd::prelude::*;

use crate::cancellation::{cancel_step, finish_step, observes_cancelled, CancellationRegistry};
use crate::config::{AxFabricServiceConfig, ProviderConfig};
use crate::errors::McpError;
use crate::registry::{RunningServiceEnum, ServiceRegistry};
use crate::strmap::StrMap;

verus! {

/// How the remote side of a dispatched tool call ended, as the embedding
/// application observed it: the remote service answered with a result
/// payload, or it reported a failure of its own.
#[derive(Debug, Clone)]
pub enum CallOutcome {
    Completed(String),
    Failed(String),
}

impl CallOutcome {
    /// The caller-visible result of a dispatch that was not cancelled: the
    /// remote result propagated unchanged, a remote failure surfaced
    /// verbatim as `ServiceError`, tagged with the originating service
    /// name.
    pub fn into_result(self, name: &String) -> (r: Result<String, McpError>)
        ensures
            (match self {
                CallOutcome::Completed(p) => r == Ok::<String, McpError>(p),
                CallOutcome::Failed(m) => r == Err::<String, McpError>(
                    McpError::ServiceError { service: *name, message: m },
                ),
            }),
    {
        match self {
            CallOutcome::Completed(p) => Ok(p),
            CallOutcome::Failed(m) => Err(
                McpError::ServiceError { service: name.clone(), message: m },
            ),
        }
    }
}

/// The abstract state of the supervisor: what the five pieces of guarded
/// state say, with the strings and tables read as mathematical maps.
#[verifier::ext_equal]
pub ghost struct CoreModel {
    pub services: Map<Seq<char>, RunningServiceEnum>,
    pub cancellations: Map<Seq<char>, bool>,
    pub pids: Map<Seq<char>, u32>,
    pub monitors: Map<Seq<char>, u64>,
    pub shutting_down: bool,
}

/// The state a freshly constructed supervisor is in.
pub open spec fn init_model() -> CoreModel {
    CoreModel {
        services: Map::empty(),
        cancellations: Map::empty(),
        pids: Map::empty(),
        monitors: Map::empty(),
        shutting_down: false,
    }
}

/// The effect of one shutdown trigger on the abstract state: whatever it
/// finds, it leaves the flag set and every table empty.
pub open spec fn shutdown_step_model(m: CoreModel) -> CoreModel {
    CoreModel {
        services: Map::empty(),
        cancellations: Map::empty(),
        pids: Map::empty(),
        monitors: Map::empty(),
        shutting_down: true,
    }
}

/// Whether a shutdown trigger arriving at this state performs the teardown
/// steps, rather than observing the flag and returning at once.
pub open spec fn shutdown_performs(m: CoreModel) -> bool {
    !m.shutting_down
}

/// Shutdown is idempotent: however many triggers arrive, the teardown
/// steps run exactly once. Every trigger after the first finds the flag
/// set, performs no step, and leaves the state exactly where the first
/// trigger left it; all triggers return successfully.
pub proof fn lemma_shutdown_idempotent(m: CoreModel)
    ensures
        shutdown_step_model(shutdown_step_model(m)) == shutdown_step_model(m),
        !shutdown_performs(shutdown_step_model(m)),
{
    assert(shutdown_step_model(shutdown_step_model(m)) =~= shutdown_step_model(m));
}

/// What the first shutdown trigger hands back to be torn down, and the
/// record that later triggers hand back nothing.
#[derive(Debug)]
pub struct ShutdownPlan {
    /// Whether this trigger was the one that performed the teardown.
    pub performed: bool,
    /// The monitor tasks to abort and join, by service name.
    pub monitors_to_stop: Vec<(String, u64)>,
    /// The background cleanup task to abort, if one was running.
    pub cleanup_to_stop: Option<u64>,
    /// The outstanding cancellation signals to fire.
    pub calls_to_cancel: Vec<String>,
    /// The service connections to close, by service name.
    pub services_to_close: Vec<(String, RunningServiceEnum)>,
    /// The processes still listed to terminate forcibly, by service name.
    pub pids_to_terminate: Vec<(String, u32)>,
}

/// `l` lists exactly the bindings of `m`: every listed pair is a binding,
/// and every binding is listed.
pub open spec fn lists_entries_of<V>(l: Seq<(String, V)>, m: Map<Seq<char>, V>) -> bool {
    &&& forall|i: int| #![trigger l[i]] 0 <= i < l.len() ==>
        m.contains_key(l[i].0@) && m[l[i].0@] == l[i].1
    &&& forall|k: Seq<char>| m.contains_key(k) ==>
        exists|i: int| 0 <= i < l.len() && #[trigger] l[i].0@ == k
}

/// `l` lists exactly the keys of `m`.
pub open spec fn lists_keys_of<V>(l: Seq<String>, m: Map<Seq<char>, V>) -> bool {
    &&& forall|i: int| 0 <= i < l.len() ==> m.contains_key(#[trigger] l[i]@)
    &&& forall|k: Seq<char>| m.contains_key(k) ==>
        exists|i: int| 0 <= i < l.len() && #[trigger] l[i]@ == k
}

/// The shared state of the application: the service registry and its
/// companion tables, auxiliary configuration, and the shutdown flag.
///
/// The embedding application holds this behind its locks and serializes
/// each method call; every method below is one atomic critical section, so
/// the check of the shutdown flag and the mutation it guards can never be
/// torn apart by a concurrent caller.
pub struct AppState {
    /// Bearer token handed to the embedding application, if any.
    pub app_token: Option<String>,
    /// Registered tool services: name to running handle.
    pub mcp_servers: ServiceRegistry,
    /// Last-known status payload per service, refreshed by monitors and
    /// possibly one monitor tick behind `mcp_servers`.
    pub mcp_active_servers: StrMap<String>,
    /// Task identifier of the proxy server, if one is running.
    pub server_handle: Option<u64>,
    /// One-shot cancellation signals of the in-flight tool calls.
    pub tool_call_cancellations: CancellationRegistry,
    /// Set exactly once; after that every teardown trigger is a no-op and
    /// new registrations and calls are refused.
    pub mcp_shutdown_in_progress: bool,
    /// One liveness monitor task per registered service.
    pub mcp_monitoring_tasks: StrMap<u64>,
    /// The background task that sweeps orphaned cancellation entries.
    pub background_cleanup_handle: Option<u64>,
    /// OS process id per service, used solely for forced termination.
    pub mcp_server_pids: StrMap<u32>,
    /// Remote provider configurations, keyed by provider name.
    pub provider_configs: StrMap<ProviderConfig>,
    /// Backend service URLs.
    pub ax_fabric_service_config: AxFabricServiceConfig,
}

/// The fields the supervisor's operations never touch.
pub open spec fn config_unchanged(a: AppState, b: AppState) -> bool {
    &&& b.app_token == a.app_token
    &&& b.server_handle == a.server_handle
    &&& b.provider_configs == a.provider_configs
    &&& b.ax_fabric_service_config == a.ax_fabric_service_config
}


/// The table after removing each listed identifier in turn.
spec fn remove_all(c: Map<Seq<char>, bool>, ids: Seq<Seq<char>>) -> Map<Seq<char>, bool>
    decreases ids.len(),
{
    if ids.len() == 0 {
        c
    } else {
        remove_all(c, ids.drop_last()).remove(ids.last())
    }
}

proof fn lemma_remove_all_membership(c: Map<Seq<char>, bool>, ids: Seq<Seq<char>>, k: Seq<char>)
    ensures
        remove_all(c, ids).contains_key(k) == (c.contains_key(k) && !ids.contains(k)),
        remove_all(c, ids).contains_key(k) ==> remove_all(c, ids)[k] == c[k],
    decreases ids.len(),
{
    if ids.len() > 0 {
        lemma_remove_all_membership(c, ids.drop_last(), k);
        let pre = ids.drop_last();
        if ids.contains(k) {
            let w = choose|w: int| 0 <= w < ids.len() && ids[w] == k;
            if w < ids.len() - 1 {
                assert(pre[w] == k);
                assert(pre.contains(k));
            } else {
                assert(ids.last() == k);
            }
        } else {
            assert(!pre.contains(k)) by {
                if pre.contains(k) {
                    let w = choose|w: int| 0 <= w < pre.len() && pre[w] == k;
                    assert(ids[w] == k);
                }
            }
            assert(ids.last() != k) by {
                if ids.last() == k {
                    assert(ids[ids.len() - 1] == k);
                }
            }
        }
    }
}

proof fn lemma_empty_remove<V>(k: Seq<char>)
    ensures
        Map::<Seq<char>, V>::empty().remove(k) == Map::<Seq<char>, V>::empty(),
{
    assert(Map::<Seq<char>, V>::empty().remove(k) =~= Map::<Seq<char>, V>::empty());
}

impl AppState {
    /// Registration and its monitor are one logical unit: a name is in the
    /// registry exactly when its monitor task exists; a process id is only
    /// listed for a registered service; and once the shutdown flag is set,
    /// every table guarded by it is empty.
    pub open spec fn wf(self) -> bool {
        &&& self.mcp_servers.wf()
        &&& self.tool_call_cancellations.wf()
        &&& self.mcp_monitoring_tasks.wf()
        &&& self.mcp_server_pids.wf()
        &&& self.mcp_active_servers.wf()
        &&& self.provider_configs.wf()
        &&& self.mcp_monitoring_tasks@.dom() == self.mcp_servers@.dom()
        &&& forall|k: Seq<char>| self.mcp_server_pids@.contains_key(k)
            ==> self.mcp_servers@.contains_key(k)
        &&& self.mcp_shutdown_in_progress ==> {
            &&& self.mcp_servers@ == Map::<Seq<char>, RunningServiceEnum>::empty()
            &&& self.tool_call_cancellations@ == Map::<Seq<char>, bool>::empty()
            &&& self.mcp_server_pids@ == Map::<Seq<char>, u32>::empty()
            &&& self.mcp_monitoring_tasks@ == Map::<Seq<char>, u64>::empty()
        }
    }

    /// The abstract state this value stands for.
    pub open spec fn model(self) -> CoreModel {
        CoreModel {
            services: self.mcp_servers@,
            cancellations: self.tool_call_cancellations@,
            pids: self.mcp_server_pids@,
            monitors: self.mcp_monitoring_tasks@,
            shutting_down: self.mcp_shutdown_in_progress,
        }
    }

    /// A fresh supervisor: nothing registered, nothing in flight, not
    /// shutting down, default service URLs.
    pub fn new() -> (r: AppState)
        ensures
            r.wf(),
            r.model() == init_model(),
            r.app_token is None,
            r.server_handle is None,
            r.background_cleanup_handle is None,
            r.mcp_active_servers@ == Map::<Seq<char>, String>::empty(),
            r.provider_configs@ == Map::<Seq<char>, ProviderConfig>::empty(),
            r.ax_fabric_service_config.api_service_url@ == "http://127.0.0.1:8000"@,
            r.ax_fabric_service_config.retrieval_service_url@ == "http://127.0.0.1:8001"@,
            r.ax_fabric_service_config.agents_service_url@ == "http://127.0.0.1:8002"@,
            r.ax_fabric_service_config.akidb_url@ == "http://127.0.0.1:8003"@,
    {
        let r = AppState {
            app_token: None,
            mcp_servers: ServiceRegistry::new(),
            mcp_active_servers: StrMap::new(),
            server_handle: None,
            tool_call_cancellations: CancellationRegistry::new(),
            mcp_shutdown_in_progress: false,
            mcp_monitoring_tasks: StrMap::new(),
            background_cleanup_handle: None,
            mcp_server_pids: StrMap::new(),
            provider_configs: StrMap::new(),
            ax_fabric_service_config: AxFabricServiceConfig::default(),
        };
        proof {
            assert(r.mcp_monitoring_tasks@.dom() =~= r.mcp_servers@.dom());
            assert(r.model() =~= init_model());
        }
        r
    }

    /// Register a service together with its monitor task, as one atomic
    /// unit. Refused with `ShutdownInProgress` once teardown has started;
    /// a present name fails with `AlreadyRunning` and mutates nothing.
    pub fn register_service(
        &mut self,
        name: String,
        handle: RunningServiceEnum,
        monitor_task: u64,
    ) -> (r: Result<(), McpError>)
        requires
            old(self).wf(),
        ensures
            final(self).wf(),
            config_unchanged(*old(self), *final(self)),
            final(self).background_cleanup_handle == old(self).background_cleanup_handle,
            final(self).mcp_active_servers == old(self).mcp_active_servers,
            final(self).mcp_shutdown_in_progress == old(self).mcp_shutdown_in_progress,
            old(self).mcp_shutdown_in_progress ==> (r matches Err(McpError::ShutdownInProgress)
                && *final(self) == *old(self)),
            !old(self).mcp_shutdown_in_progress
                && old(self).mcp_servers@.contains_key(name@) ==> (r matches Err(
                McpError::AlreadyRunning,
            ) && *final(self) == *old(self)),
            !old(self).mcp_shutdown_in_progress
                && !old(self).mcp_servers@.contains_key(name@) ==> (r matches Ok(_) && {
                &&& final(self).mcp_servers@ == old(self).mcp_servers@.insert(name@, handle)
                &&& final(self).mcp_monitoring_tasks@ == old(self).mcp_monitoring_tasks@.insert(name@, monitor_task)
                &&& final(self).tool_call_cancellations == old(self).tool_call_cancellations
                &&& final(self).mcp_server_pids == old(self).mcp_server_pids
            }),
    {
        if self.mcp_shutdown_in_progress {
            return Err(McpError::ShutdownInProgress);
        }
        if self.mcp_servers.contains(&name) {
            return Err(McpError::AlreadyRunning);
        }
        let monitor_name = name.clone();
        let _ = self.mcp_servers.register(name, handle);
        self.mcp_monitoring_tasks.insert(monitor_name, monitor_task);
        proof {
            assert(self.mcp_monitoring_tasks@.dom() =~= self.mcp_servers@.dom());
        }
        Ok(())
    }

    /// Look a service up for a plain (non-cancellable) dispatch, such as a
    /// tool listing: refused once teardown has started, `NotFound` for an
    /// absent name. The remote wait happens outside the registry lock,
    /// with only the handle retained, and the outcome is surfaced through
    /// `CallOutcome::into_result`.
    pub fn lookup_service(&self, name: &String) -> (r: Result<RunningServiceEnum, McpError>)
        requires
            self.wf(),
        ensures
            self.mcp_shutdown_in_progress ==> (r matches Err(McpError::ShutdownInProgress)),
            !self.mcp_shutdown_in_progress && self.mcp_servers@.contains_key(name@)
                ==> (r matches Ok(h) && h == self.mcp_servers@[name@]),
            !self.mcp_shutdown_in_progress && !self.mcp_servers@.contains_key(name@)
                ==> (r matches Err(McpError::NotFound)),
    {
        if self.mcp_shutdown_in_progress {
            return Err(McpError::ShutdownInProgress);
        }
        self.mcp_servers.lookup(name)
    }

    /// Start a cancellable tool call: check the shutdown flag, look the
    /// service up, and enter a fresh unfired cancellation entry under
    /// `call_id`, handing back the handle to dispatch on. The remote wait
    /// happens outside this critical section, with only the handle
    /// retained.
    pub fn begin_tool_call(&mut self, name: &String, call_id: String) -> (r: Result<
        RunningServiceEnum,
        McpError,
    >)
        requires
            old(self).wf(),
        ensures
            final(self).wf(),
            config_unchanged(*old(self), *final(self)),
            final(self).background_cleanup_handle == old(self).background_cleanup_handle,
            final(self).mcp_servers == old(self).mcp_servers,
            final(self).mcp_monitoring_tasks == old(self).mcp_monitoring_tasks,
            final(self).mcp_server_pids == old(self).mcp_server_pids,
            final(self).mcp_active_servers == old(self).mcp_active_servers,
            final(self).mcp_shutdown_in_progress == old(self).mcp_shutdown_in_progress,
            old(self).mcp_shutdown_in_progress ==> (r matches Err(McpError::ShutdownInProgress)
                && *final(self) == *old(self)),
            !old(self).mcp_shutdown_in_progress
                && !old(self).mcp_servers@.contains_key(name@) ==> (r matches Err(
                McpError::NotFound,
            ) && *final(self) == *old(self)),
            !old(self).mcp_shutdown_in_progress && old(self).mcp_servers@.contains_key(name@)
                && old(self).tool_call_cancellations@.contains_key(call_id@) ==> (r matches Err(
                McpError::AlreadyRunning,
            ) && *final(self) == *old(self)),
            !old(self).mcp_shutdown_in_progress && old(self).mcp_servers@.contains_key(name@)
                && !old(self).tool_call_cancellations@.contains_key(call_id@) ==> (r matches Ok(h)
                && h == old(self).mcp_servers@[name@] && final(self).tool_call_cancellations@
                == old(self).tool_call_cancellations@.insert(call_id@, false)),
    {
        if self.mcp_shutdown_in_progress {
            return Err(McpError::ShutdownInProgress);
        }
        let handle = match self.mcp_servers.lookup(name) {
            Ok(h) => h,
            Err(e) => {
                return Err(e);
            },
        };
        match self.tool_call_cancellations.register_call(call_id) {
            Ok(_) => Ok(handle),
            Err(e) => Err(e),
        }
    }

    /// Fire the cancellation signal of an in-flight call. A call that
    /// already completed, or never existed, fails with `NotFound` and has
    /// no observable side effect; firing twice is a no-op, not an error.
    pub fn cancel_tool_call(&mut self, call_id: &String) -> (r: Result<(), McpError>)
        requires
            old(self).wf(),
        ensures
            final(self).wf(),
            config_unchanged(*old(self), *final(self)),
            final(self).background_cleanup_handle == old(self).background_cleanup_handle,
            final(self).mcp_servers == old(self).mcp_servers,
            final(self).mcp_monitoring_tasks == old(self).mcp_monitoring_tasks,
            final(self).mcp_server_pids == old(self).mcp_server_pids,
            final(self).mcp_active_servers == old(self).mcp_active_servers,
            final(self).mcp_shutdown_in_progress == old(self).mcp_shutdown_in_progress,
            final(self).tool_call_cancellations@ == cancel_step(
                old(self).tool_call_cancellations@,
                call_id@,
            ),
            old(self).tool_call_cancellations@.contains_key(call_id@) ==> (r matches Ok(_)),
            !old(self).tool_call_cancellations@.contains_key(call_id@) ==> (r matches Err(
                McpError::NotFound,
            ) && *final(self) == *old(self)),
    {
        self.tool_call_cancellations.cancel(call_id)
    }

    /// Resolve a dispatched call: whichever of the remote reply and the
    /// cancellation signal arrived first decides the result, the entry
    /// leaves the registry on every path, and a remote error is surfaced
    /// verbatim, tagged with the service name. If the cancellation won,
    /// the remote call may still complete and its outcome is discarded.
    pub fn finish_tool_call(&mut self, name: &String, call_id: &String, outcome: CallOutcome) -> (r:
        Result<String, McpError>)
        requires
            old(self).wf(),
        ensures
            final(self).wf(),
            config_unchanged(*old(self), *final(self)),
            final(self).background_cleanup_handle == old(self).background_cleanup_handle,
            final(self).mcp_servers == old(self).mcp_servers,
            final(self).mcp_monitoring_tasks == old(self).mcp_monitoring_tasks,
            final(self).mcp_server_pids == old(self).mcp_server_pids,
            final(self).mcp_active_servers == old(self).mcp_active_servers,
            final(self).mcp_shutdown_in_progress == old(self).mcp_shutdown_in_progress,
            final(self).tool_call_cancellations@ == finish_step(
                old(self).tool_call_cancellations@,
                call_id@,
            ),
            observes_cancelled(old(self).tool_call_cancellations@, call_id@) ==> r == Err::<
                String,
                McpError,
            >(McpError::Cancelled),
            !observes_cancelled(old(self).tool_call_cancellations@, call_id@) ==> (match outcome {
                CallOutcome::Completed(p) => r == Ok::<String, McpError>(p),
                CallOutcome::Failed(m) => r == Err::<String, McpError>(
                    McpError::ServiceError { service: *name, message: m },
                ),
            }),
    {
        let fired = self.tool_call_cancellations.resolve(call_id);
        proof {
            if old(self).mcp_shutdown_in_progress {
                lemma_empty_remove::<bool>(call_id@);
            }
        }
        let was_cancelled = match fired {
            Some(f) => f,
            None => false,
        };
        if was_cancelled {
            Err(McpError::Cancelled)
        } else {
            outcome.into_result(name)
        }
    }

    /// A monitor detected that this service's process or connection died:
    /// evict the registry entry, any stale process id, the monitor's own
    /// handle, and the stale status snapshot. Removal is idempotent, and
    /// one service's death never disturbs the entries of the others.
    pub fn service_died(&mut self, name: &String) -> (r: Option<RunningServiceEnum>)
        requires
            old(self).wf(),
        ensures
            final(self).wf(),
            config_unchanged(*old(self), *final(self)),
            final(self).background_cleanup_handle == old(self).background_cleanup_handle,
            final(self).mcp_shutdown_in_progress == old(self).mcp_shutdown_in_progress,
            final(self).tool_call_cancellations == old(self).tool_call_cancellations,
            final(self).mcp_servers@ == old(self).mcp_servers@.remove(name@),
            final(self).mcp_monitoring_tasks@ == old(self).mcp_monitoring_tasks@.remove(name@),
            final(self).mcp_server_pids@ == old(self).mcp_server_pids@.remove(name@),
            final(self).mcp_active_servers@ == old(self).mcp_active_servers@.remove(name@),
            (match r {
                Some(h) => old(self).mcp_servers@.contains_key(name@) && h == old(self).mcp_servers@[name@],
                None => !old(self).mcp_servers@.contains_key(name@),
            }),
    {
        let removed = self.mcp_servers.remove(name);
        let _ = self.mcp_monitoring_tasks.remove(name);
        let _ = self.mcp_server_pids.remove(name);
        let _ = self.mcp_active_servers.remove(name);
        proof {
            assert(self.mcp_monitoring_tasks@.dom() =~= self.mcp_servers@.dom());
            if old(self).mcp_shutdown_in_progress {
                lemma_empty_remove::<RunningServiceEnum>(name@);
                lemma_empty_remove::<u32>(name@);
                lemma_empty_remove::<u64>(name@);
            }
        }
        removed
    }

    /// Record the OS process id of a registered service, supplied by the
    /// process-spawning collaborator once the service starts. A service
    /// may exist before its process id is known.
    pub fn set_process_id(&mut self, name: &String, pid: u32) -> (r: Result<(), McpError>)
        requires
            old(self).wf(),
        ensures
            final(self).wf(),
            config_unchanged(*old(self), *final(self)),
            final(self).background_cleanup_handle == old(self).background_cleanup_handle,
            final(self).mcp_servers == old(self).mcp_servers,
            final(self).mcp_monitoring_tasks == old(self).mcp_monitoring_tasks,
            final(self).tool_call_cancellations == old(self).tool_call_cancellations,
            final(self).mcp_active_servers == old(self).mcp_active_servers,
            final(self).mcp_shutdown_in_progress == old(self).mcp_shutdown_in_progress,
            old(self).mcp_shutdown_in_progress ==> (r matches Err(McpError::ShutdownInProgress)
                && *final(self) == *old(self)),
            !old(self).mcp_shutdown_in_progress
                && !old(self).mcp_servers@.contains_key(name@) ==> (r matches Err(McpError::NotFound)
                && *final(self) == *old(self)),
            !old(self).mcp_shutdown_in_progress
                && old(self).mcp_servers@.contains_key(name@) ==> (r matches Ok(_) && final(self).mcp_server_pids@ == old(self).mcp_server_pids@.insert(name@, pid)),
    {
        if self.mcp_shutdown_in_progress {
            return Err(McpError::ShutdownInProgress);
        }
        if !self.mcp_servers.contains(name) {
            return Err(McpError::NotFound);
        }
        self.mcp_server_pids.set_value(name.clone(), pid);
        Ok(())
    }

    /// A monitor refreshed the status snapshot of a service. The snapshot
    /// is eventually consistent with the registry and may lag by one tick.
    pub fn update_active_service(&mut self, name: String, status: String)
        requires
            old(self).wf(),
        ensures
            final(self).wf(),
            config_unchanged(*old(self), *final(self)),
            final(self).background_cleanup_handle == old(self).background_cleanup_handle,
            final(self).mcp_servers == old(self).mcp_servers,
            final(self).mcp_monitoring_tasks == old(self).mcp_monitoring_tasks,
            final(self).mcp_server_pids == old(self).mcp_server_pids,
            final(self).tool_call_cancellations == old(self).tool_call_cancellations,
            final(self).mcp_shutdown_in_progress == old(self).mcp_shutdown_in_progress,
            final(self).mcp_active_servers@ == old(self).mcp_active_servers@.insert(
                name@,
                status,
            ),
    {
        self.mcp_active_servers.set_value(name, status);
    }

    /// The backstop of the cleanup task: drop the cancellation entries of
    /// the listed calls, which outlived their maximum lifetime. Entries of
    /// other calls keep their signal state; this never replaces the
    /// per-call removal on the ordinary exit paths.
    pub fn sweep_expired_calls(&mut self, expired: &Vec<String>)
        requires
            old(self).wf(),
        ensures
            final(self).wf(),
            config_unchanged(*old(self), *final(self)),
            final(self).background_cleanup_handle == old(self).background_cleanup_handle,
            final(self).mcp_servers == old(self).mcp_servers,
            final(self).mcp_monitoring_tasks == old(self).mcp_monitoring_tasks,
            final(self).mcp_server_pids == old(self).mcp_server_pids,
            final(self).mcp_active_servers == old(self).mcp_active_servers,
            final(self).mcp_shutdown_in_progress == old(self).mcp_shutdown_in_progress,
            forall|k: Seq<char>| #[trigger] final(self).tool_call_cancellations@.contains_key(k)
                == (old(self).tool_call_cancellations@.contains_key(k)
                && !expired.deep_view().contains(k)),
            forall|k: Seq<char>| #[trigger] final(self).tool_call_cancellations@.contains_key(k)
                ==> final(self).tool_call_cancellations@[k]
                == old(self).tool_call_cancellations@[k],
    {
        let ghost c0 = self.tool_call_cancellations@;
        let ghost ids = expired.deep_view();
        let mut i: usize = 0;
        while i < expired.len()
            invariant
                self.tool_call_cancellations.wf(),
                i <= expired@.len(),
                ids == expired.deep_view(),
                c0 == old(self).tool_call_cancellations@,
                self.tool_call_cancellations@ == remove_all(c0, ids.take(i as int)),
                self.mcp_servers == old(self).mcp_servers,
                self.mcp_monitoring_tasks == old(self).mcp_monitoring_tasks,
                self.mcp_server_pids == old(self).mcp_server_pids,
                self.mcp_active_servers == old(self).mcp_active_servers,
                self.mcp_shutdown_in_progress == old(self).mcp_shutdown_in_progress,
                self.app_token == old(self).app_token,
                self.server_handle == old(self).server_handle,
                self.background_cleanup_handle == old(self).background_cleanup_handle,
                self.provider_configs == old(self).provider_configs,
                self.ax_fabric_service_config == old(self).ax_fabric_service_config,
            decreases expired@.len() - i,
        {
            let _ = self.tool_call_cancellations.resolve(&expired[i]);
            proof {
                assert(ids.take(i + 1).drop_last() =~= ids.take(i as int));
                assert(ids.take(i + 1).last() == ids[i as int]);
                assert(ids[i as int] == expired@[i as int]@);
                assert(self.tool_call_cancellations@ == remove_all(c0, ids.take(i + 1)));
            }
            i = i + 1;
        }
        proof {
            assert(ids.take(expired@.len() as int) =~= ids);
            assert forall|k: Seq<char>| #[trigger] self.tool_call_cancellations@.contains_key(k)
                == (c0.contains_key(k) && !ids.contains(k)) by {
                lemma_remove_all_membership(c0, ids, k);
            }
            assert forall|k: Seq<char>| #[trigger] self.tool_call_cancellations@.contains_key(k)
                implies self.tool_call_cancellations@[k] == c0[k] by {
                lemma_remove_all_membership(c0, ids, k);
            }
            if old(self).mcp_shutdown_in_progress {
                assert(self.tool_call_cancellations@ =~= Map::<Seq<char>, bool>::empty());
            }
        }
    }

    /// Tear the whole service set down exactly once. The first trigger to
    /// observe the idle flag sets it, within the same critical section
    /// empties every table, and hands back everything there is to stop:
    /// monitor and cleanup tasks to abort, outstanding cancellation
    /// signals to fire, connections to close, and processes still listed
    /// to terminate. Every later trigger observes the flag, performs no
    /// teardown step, and also returns successfully. The lists are handed
    /// out whole, so the failure of one teardown action outside never
    /// blocks the rest.
    pub fn shutdown(&mut self) -> (plan: ShutdownPlan)
        requires
            old(self).wf(),
        ensures
            final(self).wf(),
            config_unchanged(*old(self), *final(self)),
            final(self).model() == shutdown_step_model(old(self).model()),
            final(self).mcp_shutdown_in_progress,
            final(self).mcp_servers@ == Map::<Seq<char>, RunningServiceEnum>::empty(),
            final(self).tool_call_cancellations@ == Map::<Seq<char>, bool>::empty(),
            final(self).mcp_server_pids@ == Map::<Seq<char>, u32>::empty(),
            final(self).mcp_monitoring_tasks@ == Map::<Seq<char>, u64>::empty(),
            plan.performed == shutdown_performs(old(self).model()),
            old(self).mcp_shutdown_in_progress ==> (*final(self) == *old(self)
                && plan.monitors_to_stop@.len() == 0 && plan.cleanup_to_stop is None
                && plan.calls_to_cancel@.len() == 0 && plan.services_to_close@.len() == 0
                && plan.pids_to_terminate@.len() == 0),
            !old(self).mcp_shutdown_in_progress ==> ({
                &&& lists_entries_of(plan.monitors_to_stop@, old(self).mcp_monitoring_tasks@)
                &&& plan.cleanup_to_stop == old(self).background_cleanup_handle
                &&& final(self).background_cleanup_handle is None
                &&& lists_keys_of(plan.calls_to_cancel@, old(self).tool_call_cancellations@)
                &&& lists_entries_of(plan.services_to_close@, old(self).mcp_servers@)
                &&& lists_entries_of(plan.pids_to_terminate@, old(self).mcp_server_pids@)
                &&& final(self).mcp_active_servers@ == Map::<Seq<char>, String>::empty()
            }),
    {
        if self.mcp_shutdown_in_progress {
            proof {
                assert(self.model() =~= shutdown_step_model(old(self).model()));
            }
            return ShutdownPlan {
                performed: false,
                monitors_to_stop: Vec::new(),
                cleanup_to_stop: None,
                calls_to_cancel: Vec::new(),
                services_to_close: Vec::new(),
                pids_to_terminate: Vec::new(),
            };
        }
        self.mcp_shutdown_in_progress = true;
        let monitors_to_stop = self.mcp_monitoring_tasks.entries();
        let cleanup_to_stop = self.background_cleanup_handle;
        self.background_cleanup_handle = None;
        let calls_to_cancel = self.tool_call_cancellations.list_call_ids();
        let services_to_close = self.mcp_servers.entries();
        let pids_to_terminate = self.mcp_server_pids.entries();
        self.mcp_monitoring_tasks.clear();
        self.tool_call_cancellations.clear();
        self.mcp_servers.clear();
        self.mcp_server_pids.clear();
        self.mcp_active_servers.clear();
        proof {
            assert(self.mcp_monitoring_tasks@.dom() =~= self.mcp_servers@.dom());
            assert(self.model() =~= shutdown_step_model(old(self).model()));
        }
        ShutdownPlan {
            performed: true,
            monitors_to_stop,
            cleanup_to_stop,
            calls_to_cancel,
            services_to_close,
            pids_to_terminate,
        }
    }
}


} // verus!
