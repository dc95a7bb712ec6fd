//! The renderer process as this system sees it: how it is started, where it
//! listens, and how often a refused connection is tried again.

use crate::error::{InitializationError, IoFailure};
use crate::text::{decimal, decimal_digits};
use vstd::prelude::*;
use vstd::string::*;

verus! {

/// The port on which the renderer process listens.
#[derive(Debug, Clone, Copy, PartialEq, Eq, Hash)]
pub struct Port(pub u16);

impl Port {
    pub fn new(port: u16) -> (res: Port)
        ensures
            res.0 == port,
    {
        Port(port)
    }

    /// The port number in decimal.
    pub fn to_string(&self) -> (res: String)
        ensures
            res@ == decimal_digits(self.0 as nat),
    {
        decimal(self.0 as u64)
    }

    /// The text of the address at which the renderer listens.
    pub open spec fn socket_addr(&self) -> Seq<char> {
        "127.0.0.1:"@ + decimal_digits(self.0 as nat)
    }

    /// The loopback address with this port, as text: `127.0.0.1:<port>`.
    pub fn to_socket_addr(&self) -> (res: String)
        ensures
            res@ == self.socket_addr(),
    {
        let port = self.to_string();
        String::from_str("127.0.0.1:").concat(port.as_str())
    }
}

/// How much the renderer process reports of what it does.
#[derive(Debug, Clone, Copy, PartialEq, Eq)]
pub enum JsWorkerLog {
    Quiet,
    Verbose,
}

impl JsWorkerLog {
    /// The name under which the renderer knows this level.
    pub open spec fn name(&self) -> Seq<char> {
        match self {
            JsWorkerLog::Quiet => "quiet"@,
            JsWorkerLog::Verbose => "verbose"@,
        }
    }

    pub fn to_str(&self) -> (res: &'static str)
        ensures
            res@ == self.name(),
    {
        match self {
            JsWorkerLog::Quiet => "quiet",
            JsWorkerLog::Verbose => "verbose",
        }
    }
}

/// The family of operating systems that the host belongs to. It decides
/// which command interpreter starts the renderer.
#[derive(Debug, Clone, Copy, PartialEq, Eq)]
pub enum HostOs {
    Unix,
    Windows,
}

/// Where an output stream of a new process goes.
#[derive(Debug, Clone, Copy, PartialEq, Eq)]
pub enum OutputStream {
    /// To the stream of the same name of the parent.
    Inherit,
    /// To a pipe that the parent reads.
    Piped,
    /// Nowhere.
    Null,
}

/// What to hand to the operating system to start the renderer process.
#[derive(Debug, Clone, PartialEq, Eq)]
pub struct RendererCommand {
    /// The command interpreter.
    pub program: String,
    pub args: Vec<String>,
    /// The variables to add to the environment, each with its value.
    pub env: Vec<(String, String)>,
    pub stdout: OutputStream,
    pub stderr: OutputStream,
}

/// How the renderer process is started.
pub struct Process;

impl Process {
    /// The command interpreter of the host.
    pub open spec fn shell_path(os: HostOs) -> Seq<char> {
        match os {
            HostOs::Unix => "/bin/sh"@,
            HostOs::Windows => "cmd"@,
        }
    }

    /// The option that makes the command interpreter run its next argument.
    pub open spec fn run_flag(os: HostOs) -> Seq<char> {
        match os {
            HostOs::Unix => "-c"@,
            HostOs::Windows => "/c"@,
        }
    }

    /// The command line that starts the renderer's entry module.
    pub open spec fn node_command(js_worker: Seq<char>) -> Seq<char> {
        "node "@ + js_worker
    }

    pub fn shell(os: HostOs) -> (res: &'static str)
        ensures
            res@ == Self::shell_path(os),
    {
        match os {
            HostOs::Unix => "/bin/sh",
            HostOs::Windows => "cmd",
        }
    }

    /// The arguments that make the host's command interpreter run `cmd`.
    pub fn cmd<'a>(os: HostOs, cmd: &'a str) -> (res: Vec<&'a str>)
        ensures
            res@.len() == 2,
            res@[0]@ == Self::run_flag(os),
            res@[1]@ == cmd@,
    {
        let flag: &'a str = match os {
            HostOs::Unix => "-c",
            HostOs::Windows => "/c",
        };
        let mut res: Vec<&'a str> = Vec::new();
        res.push(flag);
        res.push(cmd);
        res
    }

    /// Whether `command` starts the renderer as configured: the host's command
    /// interpreter runs `node` on the entry module, with the port in `PORT`,
    /// the log level's name in `LOG` and, only if a global renderer is
    /// configured, its path in `GLOBAL_RENDERER`. What the process writes goes
    /// to the output and error streams of its parent.
    pub open spec fn starts_renderer(
        command: RendererCommand,
        os: HostOs,
        port: Port,
        js_worker: Seq<char>,
        js_worker_log: JsWorkerLog,
        global_js_renderer: Option<Seq<char>>,
    ) -> bool {
        &&& command.program@ == Self::shell_path(os)
        &&& command.args@.len() == 2
        &&& command.args@[0]@ == Self::run_flag(os)
        &&& command.args@[1]@ == Self::node_command(js_worker)
        &&& command.env@.len() == (if global_js_renderer is Some {
            3nat
        } else {
            2nat
        })
        &&& command.env@[0].0@ == "PORT"@
        &&& command.env@[0].1@ == decimal_digits(port.0 as nat)
        &&& command.env@[1].0@ == "LOG"@
        &&& command.env@[1].1@ == js_worker_log.name()
        &&& global_js_renderer matches Some(path) ==> command.env@[2].0@ == "GLOBAL_RENDERER"@
            && command.env@[2].1@ == path
        &&& command.stdout is Inherit
        &&& command.stderr is Inherit
    }

    /// Describes the process to start; starting it is left to the caller.
    pub fn spawn(
        os: HostOs,
        port: &Port,
        js_worker: &str,
        js_worker_log: &JsWorkerLog,
        global_js_renderer: &Option<String>,
    ) -> (res: RendererCommand)
        ensures
            Self::starts_renderer(
                res,
                os,
                *port,
                js_worker@,
                *js_worker_log,
                match *global_js_renderer {
                    Some(path) => Some(path@),
                    None => None,
                },
            ),
    {
        let line = String::from_str("node ").concat(js_worker);
        let parts = Self::cmd(os, line.as_str());
        let mut args: Vec<String> = Vec::new();
        args.push(String::from_str(parts[0]));
        args.push(String::from_str(parts[1]));
        let mut env: Vec<(String, String)> = Vec::new();
        env.push((String::from_str("PORT"), port.to_string()));
        env.push((String::from_str("LOG"), String::from_str(js_worker_log.to_str())));
        match global_js_renderer {
            Some(path) => {
                env.push((String::from_str("GLOBAL_RENDERER"), String::from_str(path.as_str())));
            },
            None => {},
        }
        RendererCommand {
            program: String::from_str(Self::shell(os)),
            args,
            env,
            stdout: OutputStream::Inherit,
            stderr: OutputStream::Inherit,
        }
    }
}

/// How many times a connection is attempted before a refusal is final.
pub const MAX_ATTEMPTS: u64 = 5;

/// What follows a connection attempt.
#[derive(Debug, Clone, PartialEq, Eq)]
pub enum ConnectStep {
    /// The transport is open.
    Connected,
    /// Wait `delay_ms` milliseconds, then make attempt number `attempt`.
    Retry { attempt: u64, delay_ms: u64 },
    /// The renderer cannot be reached; no further attempt is made.
    Failed(IoFailure),
}

/// The milliseconds to wait before attempt number `attempt`, for every
/// attempt but the first.
pub open spec fn retry_delay(attempt: nat) -> nat {
    attempt * 3
}

/// What follows attempt number `attempt`, given how it ended: a refusal is
/// tried again while attempts are left, any other failure is final.
pub open spec fn connect_step(attempt: u64, outcome: Result<(), IoFailure>) -> ConnectStep {
    match outcome {
        Ok(_) => ConnectStep::Connected,
        Err(err) => if err.is_refusal() && attempt < MAX_ATTEMPTS {
            ConnectStep::Retry {
                attempt: (attempt + 1) as u64,
                delay_ms: retry_delay((attempt + 1) as nat) as u64,
            }
        } else {
            ConnectStep::Failed(err)
        },
    }
}

/// How many attempts are made, from attempt number `attempt` on, when the
/// attempts end as `outcomes` say, one after the other. Outcomes beyond the
/// end of the run are not looked at.
pub open spec fn attempts_made(outcomes: Seq<Result<(), IoFailure>>, attempt: u64) -> nat
    decreases outcomes.len(),
{
    if outcomes.len() == 0 {
        0
    } else {
        match connect_step(attempt, outcomes[0]) {
            ConnectStep::Retry { attempt: next, .. } => 1 + attempts_made(
                outcomes.drop_first(),
                next,
            ),
            _ => 1,
        }
    }
}

/// The delays before the attempts that follow attempt number `attempt`, in
/// order, when the attempts end as `outcomes` say.
pub open spec fn delays_waited(outcomes: Seq<Result<(), IoFailure>>, attempt: u64) -> Seq<nat>
    decreases outcomes.len(),
{
    if outcomes.len() == 0 {
        Seq::empty()
    } else {
        match connect_step(attempt, outcomes[0]) {
            ConnectStep::Retry { attempt: next, delay_ms } => seq![delay_ms as nat]
                + delays_waited(outcomes.drop_first(), next),
            _ => Seq::empty(),
        }
    }
}

/// From attempt number `attempt` on, no more attempts are made than are left
/// of the five.
pub proof fn lemma_attempts_are_bounded(outcomes: Seq<Result<(), IoFailure>>, attempt: u64)
    requires
        1 <= attempt <= MAX_ATTEMPTS,
    ensures
        attempts_made(outcomes, attempt) <= MAX_ATTEMPTS - attempt + 1,
        delays_waited(outcomes, attempt).len() <= MAX_ATTEMPTS - attempt,
    decreases outcomes.len(),
{
    if outcomes.len() > 0 {
        match connect_step(attempt, outcomes[0]) {
            ConnectStep::Retry { attempt: next, .. } => {
                lemma_attempts_are_bounded(outcomes.drop_first(), next);
            },
            _ => {},
        }
    }
}

/// However the attempts end, at most five are made: the first, and at most
/// four more after refusals.
pub proof fn lemma_at_most_five_attempts(outcomes: Seq<Result<(), IoFailure>>)
    ensures
        attempts_made(outcomes, 1) <= 5,
        delays_waited(outcomes, 1).len() <= 4,
{
    lemma_attempts_are_bounded(outcomes, 1);
}

/// Every delay from attempt number `attempt` on is longer than the delay
/// before that attempt, and each is longer than the one before it.
pub proof fn lemma_delays_grow_from(outcomes: Seq<Result<(), IoFailure>>, attempt: u64)
    requires
        1 <= attempt <= MAX_ATTEMPTS,
    ensures
        forall|i: int|
            0 <= i < delays_waited(outcomes, attempt).len() ==> retry_delay(attempt as nat)
                < #[trigger] delays_waited(outcomes, attempt)[i],
        forall|i: int, j: int|
            0 <= i < j < delays_waited(outcomes, attempt).len() ==> delays_waited(
                outcomes,
                attempt,
            )[i] < delays_waited(outcomes, attempt)[j],
    decreases outcomes.len(),
{
    if outcomes.len() > 0 {
        match connect_step(attempt, outcomes[0]) {
            ConnectStep::Retry { attempt: next, delay_ms } => {
                lemma_delays_grow_from(outcomes.drop_first(), next);
                let rest = delays_waited(outcomes.drop_first(), next);
                let all = delays_waited(outcomes, attempt);
                assert(all == seq![delay_ms as nat] + rest);
                assert(all[0] == retry_delay(next as nat));
                assert forall|i: int| 0 < i < all.len() implies #[trigger] all[i] == rest[i - 1] by {}
                assert forall|i: int| 0 <= i < all.len() implies retry_delay(attempt as nat)
                    < #[trigger] all[i] by {
                    if i > 0 {
                        assert(all[i] == rest[i - 1]);
                    }
                }
                assert forall|i: int, j: int| 0 <= i < j < all.len() implies all[i] < all[j] by {
                    assert(all[j] == rest[j - 1]);
                    if i > 0 {
                        assert(all[i] == rest[i - 1]);
                    }
                }
            },
            _ => {},
        }
    }
}

/// The delays before the retries grow strictly: 6, 9, 12 and 15
/// milliseconds before the second to the fifth attempt.
pub proof fn lemma_delays_increase(outcomes: Seq<Result<(), IoFailure>>)
    ensures
        forall|i: int, j: int|
            0 <= i < j < delays_waited(outcomes, 1).len() ==> delays_waited(outcomes, 1)[i]
                < delays_waited(outcomes, 1)[j],
        forall|i: int|
            0 <= i < delays_waited(outcomes, 1).len() ==> #[trigger] delays_waited(outcomes, 1)[i]
                == retry_delay((i + 2) as nat),
{
    lemma_delays_grow_from(outcomes, 1);
    lemma_delays_count_up(outcomes, 1);
}

/// The delay before each retry is three milliseconds times the number of
/// the attempt that it precedes.
pub proof fn lemma_delays_count_up(outcomes: Seq<Result<(), IoFailure>>, attempt: u64)
    requires
        1 <= attempt <= MAX_ATTEMPTS,
    ensures
        forall|i: int|
            0 <= i < delays_waited(outcomes, attempt).len() ==> #[trigger] delays_waited(
                outcomes,
                attempt,
            )[i] == retry_delay((attempt + 1 + i) as nat),
    decreases outcomes.len(),
{
    if outcomes.len() > 0 {
        match connect_step(attempt, outcomes[0]) {
            ConnectStep::Retry { attempt: next, delay_ms } => {
                lemma_delays_count_up(outcomes.drop_first(), next);
                let rest = delays_waited(outcomes.drop_first(), next);
                let all = delays_waited(outcomes, attempt);
                assert(all == seq![delay_ms as nat] + rest);
                assert forall|i: int| 0 <= i < all.len() implies #[trigger] all[i] == retry_delay(
                    (attempt + 1 + i) as nat,
                ) by {
                    if i > 0 {
                        assert(all[i] == rest[i - 1]);
                    }
                }
            },
            _ => {},
        }
    }
}

/// A failure that is no refusal ends the run at once: the attempt that met
/// it is the last.
pub proof fn lemma_other_failure_is_not_retried(
    outcomes: Seq<Result<(), IoFailure>>,
    attempt: u64,
)
    requires
        outcomes.len() > 0,
        outcomes[0] matches Err(err) && !err.is_refusal(),
    ensures
        connect_step(attempt, outcomes[0]) == ConnectStep::Failed(outcomes[0]->Err_0),
        attempts_made(outcomes, attempt) == 1,
        delays_waited(outcomes, attempt).len() == 0,
{
}

/// The renderer process and the address at which it listens. One worker
/// stands for one process; the calls that render share it and none changes
/// it.
#[derive(Debug, Clone, PartialEq, Eq)]
pub struct Worker {
    pub port: Port,
    /// The identifier that the operating system gave the process.
    pub process_id: u32,
}

impl Worker {
    /// The worker for the process that was started, or the reason why none
    /// was.
    pub fn new(port: &Port, spawned: Result<u32, IoFailure>) -> (res: Result<
        Worker,
        InitializationError,
    >)
        ensures
            res == (match spawned {
                Ok(process_id) => Ok(Worker { port: *port, process_id }),
                Err(err) => Err(InitializationError::SpawnNodeProcessError(err)),
            }),
    {
        match spawned {
            Ok(process_id) => Ok(Worker { port: *port, process_id }),
            Err(err) => Err(InitializationError::from(err)),
        }
    }

    /// The text that names this worker in diagnostics.
    pub open spec fn identity(&self) -> Seq<char> {
        "[RS] Worker [id: "@ + decimal_digits(self.process_id as nat) + " port: "@ + decimal_digits(
            self.port.0 as nat,
        ) + "]"@
    }

    /// The text that names this worker and one call in diagnostics.
    pub open spec fn identity_with_request_id(&self, request_id: Seq<char>) -> Seq<char> {
        "[RS] Worker [id: "@ + decimal_digits(self.process_id as nat) + " port: "@ + decimal_digits(
            self.port.0 as nat,
        ) + " request: "@ + request_id + "]"@
    }

    pub fn display(&self) -> (res: String)
        ensures
            res@ == self.identity(),
    {
        let id = decimal(self.process_id as u64);
        let port = self.port.to_string();
        String::from_str("[RS] Worker [id: ").concat(id.as_str()).concat(" port: ").concat(
            port.as_str(),
        ).concat("]")
    }

    pub fn display_with_request_id(&self, request_id: &str) -> (res: String)
        ensures
            res@ == self.identity_with_request_id(request_id@),
    {
        let id = decimal(self.process_id as u64);
        let port = self.port.to_string();
        String::from_str("[RS] Worker [id: ").concat(id.as_str()).concat(" port: ").concat(
            port.as_str(),
        ).concat(" request: ").concat(request_id).concat("]")
    }

    /// Decides what follows connection attempt number `attempt` (the first is
    /// number 1), given how it ended. A refused connection is tried again
    /// after a delay of three milliseconds times the number of the next
    /// attempt, until five attempts were made; any other failure, and the
    /// fifth refusal, is final and handed back as it came.
    pub fn connect(&self, attempt: u64, outcome: Result<(), IoFailure>) -> (res: ConnectStep)
        ensures
            res == connect_step(attempt, outcome),
    {
        match outcome {
            Ok(_) => ConnectStep::Connected,
            Err(err) => {
                if err.is_connection_refused() && attempt < MAX_ATTEMPTS {
                    let next: u64 = attempt + 1;
                    ConnectStep::Retry { attempt: next, delay_ms: next * 3 }
                } else {
                    ConnectStep::Failed(err)
                }
            },
        }
    }
}

} // verus!
