//! Ownership and lifecycle of the two managed services.
//!
//! Each service is tracked by a [`ServiceHandle`]: an optional process
//! token (the application maps it to the real OS child), whether this
//! supervisor instance spawned the process, and a cache of the last
//! probe. The controller [`AppState`] owns both handles and the
//! in-memory preferences. Every operation here is a pure state
//! transition: the application probes, spawns and kills, and hands the
//! outcomes in as plain values, so each decision — when to spawn, what to
//! kill, what to report — is verified against the transition's contract.

use vstd::prelude::*;

use crate::prefs::AppPreferences;
use crate::prefs::spec_default_preferences;
use crate::prefs::spec_encode_preferences;
use crate::prefs::encode_preferences;

verus! {

/// One managed service's record.
#[derive(Clone, Copy, PartialEq, Eq, Structural, Debug)]
pub struct ServiceHandle {
    /// Token of the process this supervisor spawned, if one is held. The
    /// holder of the token is accountable for stopping that process.
    pub process: Option<u32>,
    /// True iff this supervisor instance performed the spawn of the
    /// currently running service. Meaningful only while a handle is held
    /// or a start was answered by a live probe.
    pub started_by_us: bool,
    /// Cache of the most recent probe observed by a start request. Not
    /// authoritative: control decisions always use a fresh probe.
    pub last_known_alive: bool,
}

impl ServiceHandle {
    /// A record before any start was requested.
    pub open spec fn spec_init() -> ServiceHandle {
        ServiceHandle { process: None, started_by_us: false, last_known_alive: false }
    }

    /// The record after a start request observed the fresh probe result
    /// `alive`: a live service is never adopted — ownership is renounced
    /// and nothing is spawned.
    pub open spec fn spec_after_start_probe(self, alive: bool) -> ServiceHandle {
        if alive {
            ServiceHandle { started_by_us: false, last_known_alive: true, ..self }
        } else {
            ServiceHandle { last_known_alive: false, ..self }
        }
    }

    /// Whether that start request directs a spawn: only a service that is
    /// not alive and for which no handle is held may be spawned.
    pub open spec fn spec_start_spawns(self, alive: bool) -> bool {
        !alive && self.process is None
    }

    /// The record after a directed spawn succeeded.
    pub open spec fn spec_after_spawned(self, pid: u32) -> ServiceHandle {
        ServiceHandle { process: Some(pid), started_by_us: true, ..self }
    }

    /// The record after a stop: the handle is withdrawn unconditionally,
    /// whatever the kill later reports.
    pub open spec fn spec_after_stop(self) -> ServiceHandle {
        ServiceHandle { process: None, ..self }
    }

    /// A record before any start was requested.
    pub fn new() -> (r: ServiceHandle)
        ensures
            r == ServiceHandle::spec_init(),
    {
        ServiceHandle { process: None, started_by_us: false, last_known_alive: false }
    }

    /// Observes the fresh liveness probe at the head of a start request
    /// and returns whether a spawn is directed. An already-live service
    /// is recorded as not started by us and is never spawned again; a
    /// held handle is never overwritten by a second spawn.
    pub fn on_start_probe(&mut self, alive: bool) -> (spawn: bool)
        ensures
            *final(self) == old(self).spec_after_start_probe(alive),
            spawn == old(self).spec_start_spawns(alive),
    {
        if alive {
            self.started_by_us = false;
            self.last_known_alive = true;
            false
        } else {
            self.last_known_alive = false;
            self.process.is_none()
        }
    }

    /// Records the process token of a spawn that `on_start_probe`
    /// directed and that succeeded: the handle is held and owned.
    pub fn on_spawned(&mut self, pid: u32)
        requires
            old(self).process is None,
        ensures
            *final(self) == old(self).spec_after_spawned(pid),
    {
        self.process = Some(pid);
        self.started_by_us = true;
    }

    /// Withdraws the held process token, if any. After this call no
    /// handle is held, whatever becomes of the kill the caller performs:
    /// a handle never points at a process this instance no longer
    /// controls.
    pub fn take_process(&mut self) -> (r: Option<u32>)
        ensures
            *final(self) == old(self).spec_after_stop(),
            r == old(self).process,
    {
        let r = self.process;
        self.process = None;
        r
    }
}

/// The supervisor's whole state: one record per service kind and the
/// in-memory preferences.
pub struct AppState {
    pub ollama: ServiceHandle,
    pub backend: ServiceHandle,
    pub preferences: AppPreferences,
}

/// Liveness and ownership of one service, derived fresh on demand.
#[derive(Clone, Copy, PartialEq, Eq, Structural, Debug)]
pub struct ServiceStatus {
    pub running: bool,
    pub process_managed: bool,
}

/// The per-kind status report.
#[derive(Clone, Copy, PartialEq, Eq, Structural, Debug)]
pub struct ServiceStatusSnapshot {
    pub ollama: ServiceStatus,
    pub backend: ServiceStatus,
}

/// What the shutdown sequence directs the application to kill.
#[derive(Clone, Copy, PartialEq, Eq, Structural, Debug)]
pub struct ShutdownPlan {
    pub backend_kill: Option<u32>,
    pub ollama_kill: Option<u32>,
}

/// The model runtime is stopped at shutdown iff this supervisor started
/// it and the user did not ask to keep it running.
pub open spec fn spec_shutdown_stops_ollama(s: AppState) -> bool {
    s.ollama.started_by_us && !s.preferences.keep_ollama_running_on_exit
}

/// The state after the shutdown sequence: the backend handle is always
/// withdrawn; the model runtime's only under the two-part gate.
pub open spec fn spec_after_shutdown(s: AppState) -> AppState {
    AppState {
        ollama: if spec_shutdown_stops_ollama(s) {
            s.ollama.spec_after_stop()
        } else {
            s.ollama
        },
        backend: s.backend.spec_after_stop(),
        preferences: s.preferences,
    }
}

/// What the shutdown sequence kills, from locally held state alone.
pub open spec fn spec_shutdown_plan(s: AppState) -> ShutdownPlan {
    ShutdownPlan {
        backend_kill: s.backend.process,
        ollama_kill: if spec_shutdown_stops_ollama(s) {
            s.ollama.process
        } else {
            None
        },
    }
}

impl AppState {
    /// Fresh supervisor state: no handles held, default preferences.
    pub fn new() -> (r: AppState)
        ensures
            r.ollama == ServiceHandle::spec_init(),
            r.backend == ServiceHandle::spec_init(),
            r.preferences == spec_default_preferences(),
    {
        AppState {
            ollama: ServiceHandle::new(),
            backend: ServiceHandle::new(),
            preferences: AppPreferences::default(),
        }
    }

    /// A start request for the model runtime, after the caller probed its
    /// liveness. Returns whether a spawn is directed; on a directed spawn
    /// that succeeds the caller reports back through [`Self::ollama_spawned`],
    /// on one that fails it reports the spawn error and leaves the state
    /// as it is.
    pub fn start_ollama(&mut self, already_running: bool) -> (spawn: bool)
        ensures
            final(self).ollama == old(self).ollama.spec_after_start_probe(already_running),
            final(self).backend == old(self).backend,
            final(self).preferences == old(self).preferences,
            spawn == old(self).ollama.spec_start_spawns(already_running),
    {
        self.ollama.on_start_probe(already_running)
    }

    /// Records a directed model-runtime spawn that succeeded.
    pub fn ollama_spawned(&mut self, pid: u32)
        requires
            old(self).ollama.process is None,
        ensures
            final(self).ollama == old(self).ollama.spec_after_spawned(pid),
            final(self).backend == old(self).backend,
            final(self).preferences == old(self).preferences,
    {
        self.ollama.on_spawned(pid);
    }

    /// A start request for the backend, after the caller resolved the
    /// packaged backend directory and probed liveness. An absent backend
    /// directory is a deployment fault and is refused outright, with the
    /// state untouched; otherwise as a start request.
    pub fn start_backend_server(&mut self, backend_dir_exists: bool, already_running: bool) -> (r:
        Result<bool, String>)
        ensures
            !backend_dir_exists ==> *final(self) == *old(self) && (r matches Err(m) && m@
                == "Backend directory not found"@),
            backend_dir_exists ==> final(self).backend == old(self).backend.spec_after_start_probe(
                already_running,
            ) && final(self).ollama == old(self).ollama && final(self).preferences == old(
                self,
            ).preferences && r == Result::<bool, String>::Ok(
                old(self).backend.spec_start_spawns(already_running),
            ),
    {
        if !backend_dir_exists {
            return Err("Backend directory not found".to_owned());
        }
        Ok(self.backend.on_start_probe(already_running))
    }

    /// Records a directed backend spawn that succeeded.
    pub fn backend_spawned(&mut self, pid: u32)
        requires
            old(self).backend.process is None,
        ensures
            final(self).backend == old(self).backend.spec_after_spawned(pid),
            final(self).ollama == old(self).ollama,
            final(self).preferences == old(self).preferences,
    {
        self.backend.on_spawned(pid);
    }

    /// A stop request for the model runtime: withdraws the held token for
    /// the caller to kill. With no token held there is nothing this
    /// instance may terminate, and the stop is a no-op.
    pub fn stop_ollama(&mut self) -> (r: Option<u32>)
        ensures
            final(self).ollama == old(self).ollama.spec_after_stop(),
            final(self).backend == old(self).backend,
            final(self).preferences == old(self).preferences,
            r == old(self).ollama.process,
    {
        self.ollama.take_process()
    }

    /// A stop request for the backend; as [`Self::stop_ollama`].
    pub fn stop_backend_server(&mut self) -> (r: Option<u32>)
        ensures
            final(self).backend == old(self).backend.spec_after_stop(),
            final(self).ollama == old(self).ollama,
            final(self).preferences == old(self).preferences,
            r == old(self).backend.process,
    {
        self.backend.take_process()
    }

    /// The current in-memory preferences.
    pub fn get_preferences(&self) -> (r: AppPreferences)
        ensures
            r == self.preferences,
    {
        self.preferences
    }

    /// Replaces the in-memory preferences and returns the document the
    /// caller must write through to disk, so that the persisted and the
    /// in-memory record never diverge past this call.
    pub fn update_preferences(&mut self, preferences: AppPreferences) -> (doc: String)
        requires
            preferences.wf(),
        ensures
            final(self).preferences == preferences,
            final(self).ollama == old(self).ollama,
            final(self).backend == old(self).backend,
            doc@ == spec_encode_preferences(preferences),
    {
        self.preferences = preferences;
        encode_preferences(&preferences)
    }

    /// The per-kind status report: `running` is the caller's fresh probe
    /// of each service, never a cached value; `process_managed` is
    /// whether this supervisor holds a process token for it.
    pub fn get_service_status(&self, ollama_running: bool, backend_running: bool) -> (r:
        ServiceStatusSnapshot)
        ensures
            r.ollama.running == ollama_running,
            r.ollama.process_managed == (self.ollama.process is Some),
            r.backend.running == backend_running,
            r.backend.process_managed == (self.backend.process is Some),
    {
        ServiceStatusSnapshot {
            ollama: ServiceStatus {
                running: ollama_running,
                process_managed: self.ollama.process.is_some(),
            },
            backend: ServiceStatus {
                running: backend_running,
                process_managed: self.backend.process.is_some(),
            },
        }
    }

    /// The shutdown sequence, decided once from locally held state and
    /// without any probing: the backend is always stopped — it exists
    /// only to serve this application — and the model runtime is stopped
    /// iff this supervisor started it and the user did not ask to keep it
    /// running on exit. Kills directed here are performed best-effort by
    /// the caller; the handles are withdrawn regardless, so a repeated
    /// shutdown finds nothing left to stop.
    pub fn shutdown(&mut self) -> (plan: ShutdownPlan)
        ensures
            *final(self) == spec_after_shutdown(*old(self)),
            plan == spec_shutdown_plan(*old(self)),
    {
        let backend_kill = self.backend.take_process();
        let ollama_kill: Option<u32> = if self.ollama.started_by_us
            && !self.preferences.keep_ollama_running_on_exit {
            self.ollama.take_process()
        } else {
            None
        };
        ShutdownPlan { backend_kill, ollama_kill }
    }
}

/// The record after a run of start requests with no intervening stop:
/// `probes[i]` is what the fresh probe of request `i` reported, and
/// `succeeds[i]` whether a spawn directed by request `i` succeeded (with
/// token `pid`; a failed spawn leaves the state as it was).
pub open spec fn spec_after_starts(
    h: ServiceHandle,
    probes: Seq<bool>,
    succeeds: Seq<bool>,
    pid: u32,
) -> ServiceHandle
    recommends
        probes.len() == succeeds.len(),
    decreases probes.len(),
{
    if probes.len() == 0 {
        h
    } else {
        let h1 = h.spec_after_start_probe(probes[0]);
        let h2 = if h.spec_start_spawns(probes[0]) && succeeds[0] {
            h1.spec_after_spawned(pid)
        } else {
            h1
        };
        spec_after_starts(h2, probes.drop_first(), succeeds.drop_first(), pid)
    }
}

/// How many processes that run of start requests spawns: the directed
/// spawns that succeeded.
pub open spec fn spec_start_spawn_count(
    h: ServiceHandle,
    probes: Seq<bool>,
    succeeds: Seq<bool>,
    pid: u32,
) -> nat
    recommends
        probes.len() == succeeds.len(),
    decreases probes.len(),
{
    if probes.len() == 0 {
        0
    } else {
        let h1 = h.spec_after_start_probe(probes[0]);
        let spawned = h.spec_start_spawns(probes[0]) && succeeds[0];
        let h2 = if spawned {
            h1.spec_after_spawned(pid)
        } else {
            h1
        };
        (if spawned {
            1nat
        } else {
            0nat
        }) + spec_start_spawn_count(h2, probes.drop_first(), succeeds.drop_first(), pid)
    }
}

/// Law (start is idempotent): over every sequence of start requests on
/// one service with no intervening stop — whatever each fresh probe
/// reported and whichever directed spawns failed — at most one process
/// is spawned by this supervisor; and none at all while a handle is
/// already held.
pub proof fn lemma_starts_spawn_at_most_once(
    h: ServiceHandle,
    probes: Seq<bool>,
    succeeds: Seq<bool>,
    pid: u32,
)
    requires
        probes.len() == succeeds.len(),
    ensures
        h.process is Some ==> spec_start_spawn_count(h, probes, succeeds, pid) == 0,
        spec_start_spawn_count(h, probes, succeeds, pid) <= 1,
    decreases probes.len(),
{
    if probes.len() > 0 {
        let h1 = h.spec_after_start_probe(probes[0]);
        let spawned = h.spec_start_spawns(probes[0]) && succeeds[0];
        let h2 = if spawned {
            h1.spec_after_spawned(pid)
        } else {
            h1
        };
        lemma_starts_spawn_at_most_once(h2, probes.drop_first(), succeeds.drop_first(), pid);
    }
}

/// Law (a live service is never adopted): when the service is already
/// alive at a start request and no handle is held, the record afterwards
/// claims no ownership and still holds no handle, so a stop afterwards
/// finds nothing to kill — this supervisor never kills a process it did
/// not spawn.
pub proof fn lemma_already_alive_start_then_stop(h: ServiceHandle)
    requires
        h.process is None,
    ensures
        !h.spec_after_start_probe(true).started_by_us,
        h.spec_after_start_probe(true).process is None,
        h.spec_after_start_probe(true).spec_after_stop().process is None,
{
}

/// Law (stop is idempotent): a stop leaves no handle behind, so a second
/// stop in a row finds no process token to kill and changes nothing.
pub proof fn lemma_stop_idempotent(h: ServiceHandle)
    ensures
        h.spec_after_stop().process is None,
        h.spec_after_stop().spec_after_stop() == h.spec_after_stop(),
{
}

/// Law (shutdown gate): the backend's handle is always withdrawn; a kill
/// of the model runtime is directed iff this supervisor started it, the
/// user did not ask to keep it, and a handle is actually held — and the
/// directed kill is exactly the held token.
pub proof fn lemma_shutdown_gate(s: AppState)
    ensures
        spec_shutdown_plan(s).backend_kill == s.backend.process,
        spec_after_shutdown(s).backend.process is None,
        spec_shutdown_plan(s).ollama_kill is Some <==> (s.ollama.started_by_us
            && !s.preferences.keep_ollama_running_on_exit && s.ollama.process is Some),
        spec_shutdown_plan(s).ollama_kill is Some ==> spec_shutdown_plan(s).ollama_kill
            == s.ollama.process,
{
}

/// Law (shutdown runs once): a second shutdown observes the already
/// withdrawn handles, directs no kill of the backend, and directs no
/// kill of the model runtime.
pub proof fn lemma_shutdown_idempotent(s: AppState)
    ensures
        spec_shutdown_plan(spec_after_shutdown(s)).backend_kill is None,
        spec_shutdown_plan(spec_after_shutdown(s)).ollama_kill is None,
        spec_after_shutdown(spec_after_shutdown(s)) == spec_after_shutdown(s),
{
}

/// Law (a failed restart leaves the backend stopped): after a stop, a
/// renewed start request that observes the service not alive directs a
/// spawn but installs no handle by itself; if the spawn then fails,
/// no handle is held — the status report shows an unmanaged service, and
/// a fresh probe of a dead backend reports it not running.
pub proof fn lemma_failed_restart_leaves_backend_stopped(s: AppState)
    ensures
        ({
            let stopped = s.backend.spec_after_stop();
            let probed = stopped.spec_after_start_probe(false);
            stopped.spec_start_spawns(false) && probed.process is None && !probed.last_known_alive
        }),
{
}

} // verus!
