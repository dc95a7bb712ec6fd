//! Constructing the system as a sequence of steps: the two paths are
//! resolved, then the renderer process is started. The caller owns the file
//! system and the process; what to ask of them, and what a failure means,
//! is decided here.

use crate::error::{InitializationError, IoFailure};
use crate::protocol::optional_text;
use crate::ssr::{Ssr, SsrConfig};
use crate::worker::{HostOs, JsWorkerLog, Port, Process, RendererCommand, Worker};
use vstd::prelude::*;

verus! {

/// How far the construction has come.
#[derive(Debug, PartialEq, Eq)]
pub enum StartupPhase {
    /// The path of the entry module is being resolved.
    ResolvingWorker { port: Port, js_worker_log: JsWorkerLog, global_js_renderer: Option<String> },
    /// The path of the global renderer is being resolved; `js_worker` is the
    /// absolute path of the entry module.
    ResolvingGlobalRenderer { port: Port, js_worker_log: JsWorkerLog, js_worker: String },
    /// The renderer process is being started; both paths are absolute.
    Spawning { port: Port, js_worker: String, global_js_renderer: Option<String> },
    /// The construction is over.
    Done,
}

/// A construction in progress, on a host of the family `os`.
#[derive(Debug, PartialEq, Eq)]
pub struct Startup {
    pub os: HostOs,
    pub phase: StartupPhase,
}

/// How the operation that the last step asked for ended.
#[derive(Debug, PartialEq, Eq)]
pub enum StartupEvent {
    /// The path was resolved to the absolute path of an existing file, or it
    /// was not.
    Resolved(Result<String, IoFailure>),
    /// The process was started and has this identifier, or it was not.
    Spawned(Result<u32, IoFailure>),
}

/// What the caller has to do next.
#[derive(Debug, PartialEq, Eq)]
pub enum StartupAction {
    /// Resolve `path` to the absolute path of an existing file.
    Resolve { path: String },
    /// Start the process that `command` describes.
    Spawn { command: RendererCommand },
    /// Hand `result` to whoever asked for the system.
    Return { result: Result<Ssr, InitializationError> },
}

/// Whether a construction in phase `before`, on a host of the family `os`,
/// that learns of `event` goes on in phase `after` and asks for `action`.
///
/// The entry module is resolved first, then the global renderer if one is
/// configured; a path that does not resolve ends the construction with the
/// error that names it. Only when every configured path is resolved is the
/// process started, on the resolved paths. A process that does not start
/// ends the construction too; one that starts gives the system. An event
/// that the phase does not wait for changes nothing and asks for nothing.
pub open spec fn startup_follows(
    os: HostOs,
    before: StartupPhase,
    event: StartupEvent,
    after: StartupPhase,
    action: Option<StartupAction>,
) -> bool {
    match (before, event) {
        (StartupPhase::ResolvingWorker { .. }, StartupEvent::Resolved(Err(err))) => after
            == StartupPhase::Done && action == Some(
            StartupAction::Return { result: Err(InitializationError::InvalidJsWorkerPath(err)) },
        ),
        (
            StartupPhase::ResolvingWorker { port, js_worker_log, global_js_renderer: Some(path) },
            StartupEvent::Resolved(Ok(js_worker)),
        ) => after == (StartupPhase::ResolvingGlobalRenderer { port, js_worker_log, js_worker })
            && action == Some(StartupAction::Resolve { path }),
        (
            StartupPhase::ResolvingWorker { port, js_worker_log, global_js_renderer: None },
            StartupEvent::Resolved(Ok(js_worker)),
        ) => after == (StartupPhase::Spawning { port, js_worker, global_js_renderer: None }) && (
        action matches Some(StartupAction::Spawn { command }) && Process::starts_renderer(
            command,
            os,
            port,
            js_worker@,
            js_worker_log,
            None,
        )),
        (StartupPhase::ResolvingGlobalRenderer { .. }, StartupEvent::Resolved(Err(err))) => after
            == StartupPhase::Done && action == Some(
            StartupAction::Return {
                result: Err(InitializationError::InvalidGlobalJsRendererPath(err)),
            },
        ),
        (
            StartupPhase::ResolvingGlobalRenderer { port, js_worker_log, js_worker },
            StartupEvent::Resolved(Ok(path)),
        ) => after == (StartupPhase::Spawning {
            port,
            js_worker,
            global_js_renderer: Some(path),
        }) && (action matches Some(StartupAction::Spawn { command }) && Process::starts_renderer(
            command,
            os,
            port,
            js_worker@,
            js_worker_log,
            Some(path@),
        )),
        (
            StartupPhase::Spawning { port, js_worker, global_js_renderer },
            StartupEvent::Spawned(Ok(process_id)),
        ) => after == StartupPhase::Done && action == Some(
            StartupAction::Return {
                result: Ok(Ssr { worker: Worker { port, process_id }, js_worker, global_js_renderer }),
            },
        ),
        (StartupPhase::Spawning { .. }, StartupEvent::Spawned(Err(err))) => after
            == StartupPhase::Done && action == Some(
            StartupAction::Return { result: Err(InitializationError::SpawnNodeProcessError(err)) },
        ),
        _ => after == before && action is None,
    }
}

impl Ssr {
    /// Begins to construct the system from `cfg` on a host of the family
    /// `os`: the path of the entry module is resolved first. The caller
    /// carries out the action, reports how it ended to `Startup::advance`,
    /// and goes on so until that hands back the result.
    pub fn new(cfg: SsrConfig, os: HostOs) -> (res: (Startup, StartupAction))
        ensures
            res.0 == (Startup {
                os,
                phase: StartupPhase::ResolvingWorker {
                    port: Port(cfg.port),
                    js_worker_log: cfg.js_worker_log,
                    global_js_renderer: cfg.global_js_renderer,
                },
            }),
            res.1 == (StartupAction::Resolve { path: cfg.js_worker }),
    {
        (
            Startup {
                os,
                phase: StartupPhase::ResolvingWorker {
                    port: Port::new(cfg.port),
                    js_worker_log: cfg.js_worker_log,
                    global_js_renderer: cfg.global_js_renderer,
                },
            },
            StartupAction::Resolve { path: cfg.js_worker },
        )
    }
}

impl Startup {
    /// Takes in how the last operation ended and says what to do next.
    pub fn advance(self, event: StartupEvent) -> (res: (Startup, Option<StartupAction>))
        ensures
            startup_follows(self.os, self.phase, event, res.0.phase, res.1),
            res.0.os == self.os,
    {
        let os = self.os;
        match (self.phase, event) {
            (StartupPhase::ResolvingWorker { .. }, StartupEvent::Resolved(Err(err))) => (
                Startup { os, phase: StartupPhase::Done },
                Some(
                    StartupAction::Return {
                        result: Err(InitializationError::InvalidJsWorkerPath(err)),
                    },
                ),
            ),
            (
                StartupPhase::ResolvingWorker { port, js_worker_log, global_js_renderer },
                StartupEvent::Resolved(Ok(js_worker)),
            ) => match global_js_renderer {
                Some(path) => (
                    Startup {
                        os,
                        phase: StartupPhase::ResolvingGlobalRenderer {
                            port,
                            js_worker_log,
                            js_worker,
                        },
                    },
                    Some(StartupAction::Resolve { path }),
                ),
                None => {
                    let command = Process::spawn(
                        os,
                        &port,
                        js_worker.as_str(),
                        &js_worker_log,
                        &None,
                    );
                    (
                        Startup {
                            os,
                            phase: StartupPhase::Spawning {
                                port,
                                js_worker,
                                global_js_renderer: None,
                            },
                        },
                        Some(StartupAction::Spawn { command }),
                    )
                },
            },
            (StartupPhase::ResolvingGlobalRenderer { .. }, StartupEvent::Resolved(Err(err))) => (
                Startup { os, phase: StartupPhase::Done },
                Some(
                    StartupAction::Return {
                        result: Err(InitializationError::InvalidGlobalJsRendererPath(err)),
                    },
                ),
            ),
            (
                StartupPhase::ResolvingGlobalRenderer { port, js_worker_log, js_worker },
                StartupEvent::Resolved(Ok(path)),
            ) => {
                let global_js_renderer = Some(path);
                let command = Process::spawn(
                    os,
                    &port,
                    js_worker.as_str(),
                    &js_worker_log,
                    &global_js_renderer,
                );
                (
                    Startup {
                        os,
                        phase: StartupPhase::Spawning { port, js_worker, global_js_renderer },
                    },
                    Some(StartupAction::Spawn { command }),
                )
            },
            (
                StartupPhase::Spawning { port, js_worker, global_js_renderer },
                StartupEvent::Spawned(spawned),
            ) => {
                let result = match Worker::new(&port, spawned) {
                    Ok(worker) => Ok(Ssr { worker, js_worker, global_js_renderer }),
                    Err(err) => Err(err),
                };
                (Startup { os, phase: StartupPhase::Done }, Some(StartupAction::Return { result }))
            },
            (phase, _) => (Startup { os, phase }, None),
        }
    }
}

/// Whether a construction on a host of the family `os` went through
/// `phases` as it learned of `events`, one by one, and asked for `actions`
/// in answer.
pub open spec fn is_startup_run(
    os: HostOs,
    phases: Seq<StartupPhase>,
    events: Seq<StartupEvent>,
    actions: Seq<Option<StartupAction>>,
) -> bool {
    &&& phases.len() == events.len() + 1
    &&& actions.len() == events.len()
    &&& forall|i: int|
        0 <= i < events.len() ==> startup_follows(
            os,
            phases[i],
            #[trigger] events[i],
            phases[i + 1],
            actions[i],
        )
}

/// Once a construction is over it asks for nothing more.
proof fn lemma_done_lasts(
    os: HostOs,
    phases: Seq<StartupPhase>,
    events: Seq<StartupEvent>,
    actions: Seq<Option<StartupAction>>,
    from: int,
    to: int,
)
    requires
        is_startup_run(os, phases, events, actions),
        0 <= from <= to <= events.len(),
        phases[from] is Done,
    ensures
        phases[to] is Done,
        to < events.len() ==> actions[to] is None,
    decreases to - from,
{
    if from < to {
        lemma_done_lasts(os, phases, events, actions, from, to - 1);
        assert(startup_follows(os, phases[to - 1], events[to - 1], phases[to], actions[to - 1]));
    }
    if to < events.len() {
        assert(startup_follows(os, phases[to], events[to], phases[to + 1], actions[to]));
    }
}

/// Whatever the port and the rest of the configuration: where the path of
/// the entry module does not resolve, the construction ends at once with
/// `InvalidJsWorkerPath`, and no process is ever started.
pub proof fn lemma_unresolved_worker_is_not_started(
    os: HostOs,
    phases: Seq<StartupPhase>,
    events: Seq<StartupEvent>,
    actions: Seq<Option<StartupAction>>,
)
    requires
        is_startup_run(os, phases, events, actions),
        phases[0] is ResolvingWorker,
        events.len() > 0,
        events[0] matches StartupEvent::Resolved(Err(_)),
    ensures
        actions[0] == Some(
            StartupAction::Return {
                result: Err(
                    InitializationError::InvalidJsWorkerPath(events[0]->Resolved_0->Err_0),
                ),
            },
        ),
        forall|i: int|
            0 <= i < actions.len() ==> !(#[trigger] actions[i] matches Some(
                StartupAction::Spawn { .. },
            )),
{
    assert(startup_follows(os, phases[0], events[0], phases[1], actions[0]));
    assert forall|i: int| 0 <= i < actions.len() implies !(#[trigger] actions[i] matches Some(
        StartupAction::Spawn { .. },
    )) by {
        if i > 0 {
            lemma_done_lasts(os, phases, events, actions, 1, i);
        }
    }
}

/// Where the path of the global renderer does not resolve, the
/// construction ends at once with `InvalidGlobalJsRendererPath`, and no
/// process is ever started.
pub proof fn lemma_unresolved_global_renderer_is_not_started(
    os: HostOs,
    phases: Seq<StartupPhase>,
    events: Seq<StartupEvent>,
    actions: Seq<Option<StartupAction>>,
)
    requires
        is_startup_run(os, phases, events, actions),
        phases[0] is ResolvingGlobalRenderer,
        events.len() > 0,
        events[0] matches StartupEvent::Resolved(Err(_)),
    ensures
        actions[0] == Some(
            StartupAction::Return {
                result: Err(
                    InitializationError::InvalidGlobalJsRendererPath(
                        events[0]->Resolved_0->Err_0,
                    ),
                ),
            },
        ),
        forall|i: int|
            0 <= i < actions.len() ==> !(#[trigger] actions[i] matches Some(
                StartupAction::Spawn { .. },
            )),
{
    assert(startup_follows(os, phases[0], events[0], phases[1], actions[0]));
    assert forall|i: int| 0 <= i < actions.len() implies !(#[trigger] actions[i] matches Some(
        StartupAction::Spawn { .. },
    )) by {
        if i > 0 {
            lemma_done_lasts(os, phases, events, actions, 1, i);
        }
    }
}

/// The log level that a phase carries towards the start of the process.
pub open spec fn log_of(phase: StartupPhase) -> JsWorkerLog {
    match phase {
        StartupPhase::ResolvingWorker { js_worker_log, .. } => js_worker_log,
        StartupPhase::ResolvingGlobalRenderer { js_worker_log, .. } => js_worker_log,
        _ => JsWorkerLog::Quiet,
    }
}

/// A process is started only on resolved paths: whenever a step asks for
/// one, the last configured path has just been resolved, and the command is
/// the one that the configuration, with the resolved paths, calls for.
pub proof fn lemma_spawn_follows_resolution(
    os: HostOs,
    before: StartupPhase,
    event: StartupEvent,
    after: StartupPhase,
    action: Option<StartupAction>,
)
    requires
        startup_follows(os, before, event, after, action),
        action matches Some(StartupAction::Spawn { .. }),
    ensures
        event matches StartupEvent::Resolved(Ok(_)),
        before is ResolvingWorker || before is ResolvingGlobalRenderer,
        before matches StartupPhase::ResolvingWorker { global_js_renderer, .. }
            ==> global_js_renderer is None,
        after matches StartupPhase::Spawning { port, js_worker, global_js_renderer }
            && Process::starts_renderer(
            action->Some_0->command,
            os,
            port,
            js_worker@,
            log_of(before),
            optional_text(global_js_renderer),
        ),
{
}

} // verus!
