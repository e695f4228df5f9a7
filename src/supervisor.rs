use vstd::prelude::*;

verus! {

/// Number of health probes made before a launch is abandoned.
pub const HEALTH_ATTEMPTS: u32 = 30;

/// Pause before each health probe, in milliseconds.
pub const HEALTH_INTERVAL_MS: u64 = 1000;

/// One running backing process: its process id and the port it serves on.
#[derive(Clone, Copy, PartialEq, Eq, Structural, Debug)]
pub struct ServiceHandle {
    pub pid: u32,
    pub port: u16,
}

/// The supervisor's single slot for the running backing process.
pub struct ServiceSlot {
    current: Option<ServiceHandle>,
}

impl View for ServiceSlot {
    type V = Option<ServiceHandle>;

    closed spec fn view(&self) -> Option<ServiceHandle> {
        self.current
    }
}

impl ServiceSlot {
    /// An empty slot.
    pub fn new() -> (r: ServiceSlot)
        ensures
            r@ == None::<ServiceHandle>,
    {
        ServiceSlot { current: None }
    }

    /// Empties the slot and hands back what it held, which the caller terminates.
    pub fn release(&mut self) -> (r: Option<ServiceHandle>)
        ensures
            final(self)@ == None::<ServiceHandle>,
            r == old(self)@,
    {
        let r = self.current;
        self.current = None;
        r
    }

    /// Puts `h` in the slot and hands back what it held before, which the
    /// caller terminates: the slot never owns two processes.
    pub fn supersede(&mut self, h: ServiceHandle) -> (r: Option<ServiceHandle>)
        ensures
            final(self)@ == Some(h),
            r == old(self)@,
    {
        let r = self.current;
        self.current = Some(h);
        r
    }

    /// The process the slot owns, if any.
    pub fn current(&self) -> (r: Option<ServiceHandle>)
        ensures
            r == self@,
    {
        self.current
    }
}

/// The handles held by an optional value, as a sequence of zero or one.
pub open spec fn opt_seq(o: Option<ServiceHandle>) -> Seq<ServiceHandle> {
    match o {
        Some(h) => seq![h],
        None => Seq::empty(),
    }
}

/// The slot after launches of each handle of `hs` in turn, each launch
/// emptying the slot and then installing its process; with it, every handle
/// handed back for termination, in order.
pub open spec fn launch_all(slot: Option<ServiceHandle>, hs: Seq<ServiceHandle>) -> (
    Option<ServiceHandle>,
    Seq<ServiceHandle>,
)
    decreases hs.len(),
{
    if hs.len() == 0 {
        (slot, Seq::empty())
    } else {
        let (cur, retired) = launch_all(slot, hs.drop_last());
        (Some(hs.last()), retired + opt_seq(cur))
    }
}

/// After N launches from an empty slot, the slot owns exactly the last
/// process, and every earlier one was handed back for termination, once and
/// in launch order.
pub proof fn lemma_single_owner(hs: Seq<ServiceHandle>)
    requires
        hs.len() > 0,
    ensures
        launch_all(None, hs).0 == Some(hs.last()),
        launch_all(None, hs).1 == hs.drop_last(),
    decreases hs.len(),
{
    if hs.len() == 1 {
        assert(hs.drop_last() =~= Seq::<ServiceHandle>::empty());
        assert(launch_all(None, hs.drop_last()).1 =~= Seq::<ServiceHandle>::empty());
        assert(launch_all(None, hs).1 =~= hs.drop_last());
    } else {
        lemma_single_owner(hs.drop_last());
        assert(hs.drop_last().drop_last().push(hs.drop_last().last()) =~= hs.drop_last());
    }
}

/// Why a launch failed.
pub enum LaunchError {
    /// The weights file of the model is absent.
    ModelNotInstalled,
    /// The dependency environment's interpreter is absent.
    EnvironmentMissing,
    /// No free local port could be obtained.
    NoFreePort,
    /// The backing process could not be started.
    ProcessSpawn(String),
    /// The health endpoint never answered with success.
    HealthCheckTimeout,
}

impl LaunchError {
    /// A human-readable account of the error.
    pub fn message(&self) -> (r: String)
        ensures
            r@ == launch_error_message(*self),
    {
        match self {
            LaunchError::ModelNotInstalled => "Model file not found".to_string(),
            LaunchError::EnvironmentMissing => "Python venv not found. Please reinstall the model.".to_string(),
            LaunchError::NoFreePort => "Failed to find free port".to_string(),
            LaunchError::ProcessSpawn(e) => {
                let mut m = "Failed to start python server: ".to_string();
                m.append(e.as_str());
                m
            },
            LaunchError::HealthCheckTimeout => "Server timed out. Check logs.".to_string(),
        }
    }
}

pub open spec fn launch_error_message(e: LaunchError) -> Seq<char> {
    match e {
        LaunchError::ModelNotInstalled => "Model file not found"@,
        LaunchError::EnvironmentMissing => "Python venv not found. Please reinstall the model."@,
        LaunchError::NoFreePort => "Failed to find free port"@,
        LaunchError::ProcessSpawn(s) => "Failed to start python server: "@ + s@,
        LaunchError::HealthCheckTimeout => "Server timed out. Check logs."@,
    }
}

/// Where a launch stands.
pub enum LaunchPhase {
    /// The previous process is being removed from the slot and terminated.
    Releasing,
    /// The host checks the files and picks a port.
    Resolving,
    /// The backing process is being started on `port`.
    Starting { port: u16 },
    /// `attempts` probes of the health endpoint on `port` have failed so far.
    HealthChecking { port: u16, attempts: u32 },
    Running { port: u16 },
    Failed(LaunchError),
}

/// What the host must do next for a launch.
#[derive(Clone, Copy, PartialEq, Eq, Structural, Debug)]
pub enum LaunchAction {
    /// Empty the slot; dropping the old process terminates it.
    ReleaseCurrent,
    /// Report whether the weights and the interpreter exist, and a free port.
    Resolve,
    /// Start the backing process with `--model <path> --port <port>`.
    Spawn { port: u16 },
    /// Wait one interval, then probe `GET /health` on the port.
    WaitThenProbe { port: u16 },
    /// The service is ready on `port`.
    Ready { port: u16 },
    /// Terminate the process that was started, then report the error.
    TerminateAndFail,
    /// Report the error.
    Fail,
}

/// The outcome of the host's last action.
pub enum LaunchInput {
    Released,
    Resolved { model_present: bool, env_present: bool, port: Option<u16> },
    /// The process started with the given id, or could not be started.
    Spawned(Result<u32, String>),
    /// The status code that the health endpoint answered with, or `None`
    /// when the request got no response.
    Probed(Option<u16>),
}

/// A probe succeeds when the endpoint answered with a 2xx status.
pub open spec fn probe_ok(status: Option<u16>) -> bool {
    match status {
        Some(code) => 200 <= code < 300,
        None => false,
    }
}

/// Relies on `reqwest::StatusCode::from_u16`, which accepts exactly the codes
/// 100 to 999, and `StatusCode::is_success`, which holds exactly for 200 to 299.
#[verifier::external_body]
fn status_is_success(code: u16) -> (r: bool)
    ensures
        r == (200 <= code < 300),
{
    match reqwest::StatusCode::from_u16(code) {
        Ok(status) => status.is_success(),
        Err(_) => false,
    }
}

/// One transition of a launch. An input that does not belong to the current
/// phase leaves it unchanged.
pub open spec fn launch_step(p: LaunchPhase, input: LaunchInput) -> LaunchPhase {
    match (p, input) {
        (LaunchPhase::Releasing, LaunchInput::Released) => LaunchPhase::Resolving,
        (LaunchPhase::Resolving, LaunchInput::Resolved { model_present, env_present, port }) => {
            if !model_present {
                LaunchPhase::Failed(LaunchError::ModelNotInstalled)
            } else if !env_present {
                LaunchPhase::Failed(LaunchError::EnvironmentMissing)
            } else {
                match port {
                    Some(port) => LaunchPhase::Starting { port },
                    None => LaunchPhase::Failed(LaunchError::NoFreePort),
                }
            }
        },
        (LaunchPhase::Starting { port }, LaunchInput::Spawned(res)) => match res {
            Ok(_) => LaunchPhase::HealthChecking { port, attempts: 0 },
            Err(e) => LaunchPhase::Failed(LaunchError::ProcessSpawn(e)),
        },
        (LaunchPhase::HealthChecking { port, attempts }, LaunchInput::Probed(status)) => {
            if probe_ok(status) {
                LaunchPhase::Running { port }
            } else if attempts + 1 >= HEALTH_ATTEMPTS {
                LaunchPhase::Failed(LaunchError::HealthCheckTimeout)
            } else {
                LaunchPhase::HealthChecking { port, attempts: (attempts + 1) as u32 }
            }
        },
        _ => p,
    }
}

/// The action that a phase asks of the host.
pub open spec fn launch_action_of(p: LaunchPhase) -> LaunchAction {
    match p {
        LaunchPhase::Releasing => LaunchAction::ReleaseCurrent,
        LaunchPhase::Resolving => LaunchAction::Resolve,
        LaunchPhase::Starting { port } => LaunchAction::Spawn { port },
        LaunchPhase::HealthChecking { port, .. } => LaunchAction::WaitThenProbe { port },
        LaunchPhase::Running { port } => LaunchAction::Ready { port },
        LaunchPhase::Failed(LaunchError::HealthCheckTimeout) => LaunchAction::TerminateAndFail,
        LaunchPhase::Failed(_) => LaunchAction::Fail,
    }
}

/// The invariant of a launch: the probe count stays under the budget.
pub open spec fn launch_wf(p: LaunchPhase) -> bool {
    match p {
        LaunchPhase::HealthChecking { attempts, .. } => attempts < HEALTH_ATTEMPTS,
        _ => true,
    }
}

/// Probing the health endpoint on `port` after `attempts` failed probes.
pub open spec fn probing(port: u16, attempts: u32) -> LaunchPhase {
    LaunchPhase::HealthChecking { port, attempts }
}

/// The phase after `k` failed probes.
pub open spec fn failed_probes(p: LaunchPhase, k: nat) -> LaunchPhase
    decreases k,
{
    if k == 0 {
        p
    } else {
        launch_step(failed_probes(p, (k - 1) as nat), LaunchInput::Probed(None))
    }
}

/// When the health endpoint never answers, a launch keeps probing, one
/// interval apart, through the first 29 failures, and fails with
/// `HealthCheckTimeout`, asking that the process be terminated, at exactly
/// the 30th.
pub proof fn lemma_health_timeout(port: u16, k: nat)
    requires
        k <= HEALTH_ATTEMPTS,
    ensures
        k < HEALTH_ATTEMPTS ==> failed_probes(probing(port, 0), k) == probing(port, k as u32),
        k < HEALTH_ATTEMPTS ==> launch_action_of(failed_probes(probing(port, 0), k))
            == (LaunchAction::WaitThenProbe { port }),
        k == HEALTH_ATTEMPTS ==> failed_probes(probing(port, 0), k) == LaunchPhase::Failed(
            LaunchError::HealthCheckTimeout,
        ),
        k == HEALTH_ATTEMPTS ==> launch_action_of(failed_probes(probing(port, 0), k))
            == LaunchAction::TerminateAndFail,
    decreases k,
{
    if k > 0 {
        lemma_health_timeout(port, (k - 1) as nat);
    }
}

/// One launch of the backing process.
pub struct LaunchSession {
    phase: LaunchPhase,
}

impl View for LaunchSession {
    type V = LaunchPhase;

    closed spec fn view(&self) -> LaunchPhase {
        self.phase
    }
}

fn clone_error(e: &LaunchError) -> (r: LaunchError)
    ensures
        r == *e,
{
    match e {
        LaunchError::ModelNotInstalled => LaunchError::ModelNotInstalled,
        LaunchError::EnvironmentMissing => LaunchError::EnvironmentMissing,
        LaunchError::NoFreePort => LaunchError::NoFreePort,
        LaunchError::ProcessSpawn(s) => LaunchError::ProcessSpawn(s.clone()),
        LaunchError::HealthCheckTimeout => LaunchError::HealthCheckTimeout,
    }
}

impl LaunchSession {
    /// A launch begins by releasing whatever process the slot owns.
    pub fn new() -> (r: LaunchSession)
        ensures
            r@ == LaunchPhase::Releasing,
    {
        LaunchSession { phase: LaunchPhase::Releasing }
    }

    /// Takes the outcome of the host's last action.
    pub fn advance(&mut self, input: LaunchInput)
        requires
            launch_wf(old(self)@),
        ensures
            final(self)@ == launch_step(old(self)@, input),
            launch_wf(final(self)@),
    {
        let next = match (&self.phase, input) {
            (LaunchPhase::Releasing, LaunchInput::Released) => LaunchPhase::Resolving,
            (LaunchPhase::Resolving, LaunchInput::Resolved { model_present, env_present, port }) => {
                if !model_present {
                    LaunchPhase::Failed(LaunchError::ModelNotInstalled)
                } else if !env_present {
                    LaunchPhase::Failed(LaunchError::EnvironmentMissing)
                } else {
                    match port {
                        Some(port) => LaunchPhase::Starting { port },
                        None => LaunchPhase::Failed(LaunchError::NoFreePort),
                    }
                }
            },
            (LaunchPhase::Starting { port }, LaunchInput::Spawned(res)) => match res {
                Ok(_) => LaunchPhase::HealthChecking { port: *port, attempts: 0 },
                Err(e) => LaunchPhase::Failed(LaunchError::ProcessSpawn(e)),
            },
            (LaunchPhase::HealthChecking { port, attempts }, LaunchInput::Probed(status)) => {
                let healthy = match status {
                    Some(code) => status_is_success(code),
                    None => false,
                };
                if healthy {
                    LaunchPhase::Running { port: *port }
                } else if *attempts + 1 >= HEALTH_ATTEMPTS {
                    LaunchPhase::Failed(LaunchError::HealthCheckTimeout)
                } else {
                    LaunchPhase::HealthChecking { port: *port, attempts: *attempts + 1 }
                }
            },
            (LaunchPhase::Releasing, _) => LaunchPhase::Releasing,
            (LaunchPhase::Resolving, _) => LaunchPhase::Resolving,
            (LaunchPhase::Starting { port }, _) => LaunchPhase::Starting { port: *port },
            (LaunchPhase::HealthChecking { port, attempts }, _) => LaunchPhase::HealthChecking {
                port: *port,
                attempts: *attempts,
            },
            (LaunchPhase::Running { port }, _) => LaunchPhase::Running { port: *port },
            (LaunchPhase::Failed(e), _) => LaunchPhase::Failed(clone_error(e)),
        };
        self.phase = next;
    }

    /// What the host must do next.
    pub fn next_action(&self) -> (r: LaunchAction)
        ensures
            r == launch_action_of(self@),
    {
        match &self.phase {
            LaunchPhase::Releasing => LaunchAction::ReleaseCurrent,
            LaunchPhase::Resolving => LaunchAction::Resolve,
            LaunchPhase::Starting { port } => LaunchAction::Spawn { port: *port },
            LaunchPhase::HealthChecking { port, .. } => LaunchAction::WaitThenProbe { port: *port },
            LaunchPhase::Running { port } => LaunchAction::Ready { port: *port },
            LaunchPhase::Failed(LaunchError::HealthCheckTimeout) => LaunchAction::TerminateAndFail,
            LaunchPhase::Failed(_) => LaunchAction::Fail,
        }
    }

    /// The error of a failed launch.
    pub fn error(&self) -> (r: Option<LaunchError>)
        ensures
            r == (match self@ {
                LaunchPhase::Failed(e) => Some(e),
                _ => None,
            }),
    {
        match &self.phase {
            LaunchPhase::Failed(e) => Some(clone_error(e)),
            _ => None,
        }
    }

    /// The port of a running service.
    pub fn ready_port(&self) -> (r: Option<u16>)
        ensures
            r == (match self@ {
                LaunchPhase::Running { port } => Some(port),
                _ => None,
            }),
    {
        match &self.phase {
            LaunchPhase::Running { port } => Some(*port),
            _ => None,
        }
    }
}

} // verus!
