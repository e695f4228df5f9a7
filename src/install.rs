use vstd::prelude::*;

verus! {

/// Status carried by an install progress event.
#[derive(Clone, Copy, PartialEq, Eq, Structural, Debug)]
pub enum InstallStatus {
    Downloading,
    InstallingDeps,
    Completed,
    Error,
}

impl InstallStatus {
    /// The wire name of the status.
    pub fn as_str(&self) -> (r: &'static str)
        ensures
            r@ == status_name(*self),
    {
        match self {
            InstallStatus::Downloading => "downloading",
            InstallStatus::InstallingDeps => "installing_deps",
            InstallStatus::Completed => "completed",
            InstallStatus::Error => "error",
        }
    }
}

pub open spec fn status_name(s: InstallStatus) -> Seq<char> {
    match s {
        InstallStatus::Downloading => "downloading"@,
        InstallStatus::InstallingDeps => "installing_deps"@,
        InstallStatus::Completed => "completed"@,
        InstallStatus::Error => "error"@,
    }
}

/// One `install-progress` event, without the model id that the host adds.
pub struct ProgressEvent {
    pub status: InstallStatus,
    pub progress: u64,
    pub message: String,
}

/// What a progress event says, as plain values.
pub struct ProgressView {
    pub status: InstallStatus,
    pub progress: u64,
    pub message: Seq<char>,
}

impl View for ProgressEvent {
    type V = ProgressView;

    open spec fn view(&self) -> ProgressView {
        ProgressView { status: self.status, progress: self.progress, message: self.message@ }
    }
}

/// Integer percentage of `downloaded` out of `total`, capped at 100.
pub open spec fn percent_of(downloaded: nat, total: nat) -> nat
    recommends
        total > 0,
{
    if downloaded >= total {
        100
    } else {
        downloaded * 100 / total
    }
}

proof fn lemma_percent_bounded(d: nat, total: nat)
    requires
        total > 0,
    ensures
        percent_of(d, total) <= 100,
{
    if d < total {
        assert(d * 100 / total < 100) by (nonlinear_arith)
            requires
                d < total,
                total > 0,
        ;
    }
}

/// Percentage of a download, as `downloaded * 100 / total`, capped at 100.
pub fn download_percent(downloaded: u64, total: u64) -> (r: u64)
    requires
        total > 0,
    ensures
        r == percent_of(downloaded as nat, total as nat),
{
    proof {
        lemma_percent_bounded(downloaded as nat, total as nat);
    }
    if downloaded >= total {
        100
    } else {
        let wide: u128 = downloaded as u128 * 100;
        (wide / total as u128) as u64
    }
}

/// Saturating sum of two byte counts.
pub open spec fn sat_add(a: u64, b: u64) -> u64 {
    if a + b > u64::MAX {
        u64::MAX
    } else {
        (a + b) as u64
    }
}

/// Where an install run stands.
#[derive(Clone, Copy, PartialEq, Eq, Structural, Debug)]
pub enum InstallPhase {
    /// The dependency environment is being created.
    CreatingEnv,
    /// The request for the weights file is being sent.
    StartingDownload,
    /// Chunks of the weights file are arriving; `total` is known only when the
    /// server stated a non-zero length.
    Downloading { total: Option<u64>, downloaded: u64 },
    /// The package manager is installing the model's dependencies.
    InstallingDeps,
    Completed,
    Failed,
}

/// What the host must do next for an install run.
#[derive(Clone, Copy, PartialEq, Eq, Structural, Debug)]
pub enum InstallAction {
    CreateEnv,
    StartDownload,
    ReadChunk,
    InstallDeps,
    /// The run ended successfully.
    Finish,
    /// The run ended in an error; the last event says which.
    Abort,
}

/// The outcome of the host's last action.
pub enum InstallInput {
    EnvCreated(Result<(), String>),
    /// The response arrived; it carries the stated content length, if any.
    DownloadStarted(Result<Option<u64>, String>),
    /// A chunk of the given length was received and written to the file.
    ChunkWritten(Result<u64, String>),
    /// The response stream ended.
    DownloadEnded,
    DepsInstalled(Result<(), String>),
}

/// An install run of one model: its phase and the events it has emitted.
pub struct InstallSession {
    phase: InstallPhase,
    last_progress: u64,
    events: Vec<ProgressEvent>,
}

pub struct InstallView {
    pub phase: InstallPhase,
    pub last_progress: u64,
    pub events: Seq<ProgressView>,
}

impl View for InstallSession {
    type V = InstallView;

    closed spec fn view(&self) -> InstallView {
        InstallView {
            phase: self.phase,
            last_progress: self.last_progress,
            events: self.events@.map_values(|e: ProgressEvent| e@),
        }
    }
}

pub open spec fn ev(status: InstallStatus, progress: u64, message: Seq<char>) -> ProgressView {
    ProgressView { status, progress, message }
}

pub open spec fn msg_completed() -> Seq<char> {
    "Installation finished! Ready to Launch."@
}

pub open spec fn msg_creating_env() -> Seq<char> {
    "Creating virtual environment..."@
}

pub open spec fn msg_starting_download() -> Seq<char> {
    "Starting download..."@
}

pub open spec fn msg_downloading() -> Seq<char> {
    "Downloading model weights..."@
}

pub open spec fn msg_installing_deps() -> Seq<char> {
    "Installing dependencies into venv..."@
}

pub open spec fn msg_env_failed() -> Seq<char> {
    "Venv creation failed: "@
}

pub open spec fn msg_request_failed() -> Seq<char> {
    "Failed to request model: "@
}

pub open spec fn msg_chunk_failed() -> Seq<char> {
    "Chunk error: "@
}

pub open spec fn msg_deps_failed() -> Seq<char> {
    "Dependency error: "@
}

/// The state in which a run begins. A model whose weights are already on disk
/// is complete at once; otherwise the environment is created first when it is
/// missing.
pub open spec fn install_start(weights_present: bool, env_present: bool) -> InstallView {
    if weights_present {
        InstallView {
            phase: InstallPhase::Completed,
            last_progress: 100,
            events: seq![ev(InstallStatus::Completed, 100, msg_completed())],
        }
    } else if !env_present {
        InstallView {
            phase: InstallPhase::CreatingEnv,
            last_progress: 0,
            events: seq![ev(InstallStatus::InstallingDeps, 0, msg_creating_env())],
        }
    } else {
        InstallView {
            phase: InstallPhase::StartingDownload,
            last_progress: 0,
            events: seq![ev(InstallStatus::Downloading, 0, msg_starting_download())],
        }
    }
}

/// The run after emitting one more event.
pub open spec fn emit(v: InstallView, phase: InstallPhase, e: ProgressView) -> InstallView {
    InstallView { phase, last_progress: e.progress, events: v.events.push(e) }
}

/// The run ended by an error: the event keeps the last progress value.
pub open spec fn fail(v: InstallView, prefix: Seq<char>, err: Seq<char>) -> InstallView {
    emit(v, InstallPhase::Failed, ev(InstallStatus::Error, v.last_progress, prefix + err))
}

/// One transition of an install run. An input that does not belong to the
/// current phase leaves the run unchanged.
pub open spec fn install_step(v: InstallView, input: InstallInput) -> InstallView {
    match (v.phase, input) {
        (InstallPhase::CreatingEnv, InstallInput::EnvCreated(res)) => match res {
            Ok(_) => emit(
                v,
                InstallPhase::StartingDownload,
                ev(InstallStatus::Downloading, v.last_progress, msg_starting_download()),
            ),
            Err(e) => fail(v, msg_env_failed(), e@),
        },
        (InstallPhase::StartingDownload, InstallInput::DownloadStarted(res)) => match res {
            Ok(len) => InstallView {
                phase: InstallPhase::Downloading {
                    total: match len {
                        Some(t) => if t > 0 {
                            Some(t)
                        } else {
                            None
                        },
                        None => None,
                    },
                    downloaded: 0,
                },
                ..v
            },
            Err(e) => fail(v, msg_request_failed(), e@),
        },
        (InstallPhase::Downloading { total, downloaded }, InstallInput::ChunkWritten(res)) => match res {
            Ok(n) => {
                let d = sat_add(downloaded, n);
                let phase = InstallPhase::Downloading { total, downloaded: d };
                match total {
                    Some(t) => {
                        let p = percent_of(d as nat, t as nat);
                        if p > v.last_progress {
                            emit(v, phase, ev(InstallStatus::Downloading, p as u64, msg_downloading()))
                        } else {
                            InstallView { phase, ..v }
                        }
                    },
                    None => InstallView { phase, ..v },
                }
            },
            Err(e) => fail(v, msg_chunk_failed(), e@),
        },
        (InstallPhase::Downloading { .. }, InstallInput::DownloadEnded) => emit(
            v,
            InstallPhase::InstallingDeps,
            ev(InstallStatus::InstallingDeps, v.last_progress, msg_installing_deps()),
        ),
        (InstallPhase::InstallingDeps, InstallInput::DepsInstalled(res)) => match res {
            Ok(_) => emit(v, InstallPhase::Completed, ev(InstallStatus::Completed, 100, msg_completed())),
            Err(e) => fail(v, msg_deps_failed(), e@),
        },
        _ => v,
    }
}

/// The action that a phase asks of the host.
pub open spec fn action_of(phase: InstallPhase) -> InstallAction {
    match phase {
        InstallPhase::CreatingEnv => InstallAction::CreateEnv,
        InstallPhase::StartingDownload => InstallAction::StartDownload,
        InstallPhase::Downloading { .. } => InstallAction::ReadChunk,
        InstallPhase::InstallingDeps => InstallAction::InstallDeps,
        InstallPhase::Completed => InstallAction::Finish,
        InstallPhase::Failed => InstallAction::Abort,
    }
}

/// Progress values never decrease along the events.
pub open spec fn progress_non_decreasing(events: Seq<ProgressView>) -> bool {
    forall|i: int, j: int| 0 <= i <= j < events.len() ==> events[i].progress <= events[j].progress
}

/// Number of `completed` events.
pub open spec fn completed_count(events: Seq<ProgressView>) -> nat
    decreases events.len(),
{
    if events.len() == 0 {
        0
    } else {
        completed_count(events.drop_last()) + if events.last().status == InstallStatus::Completed {
            1nat
        } else {
            0nat
        }
    }
}

/// The invariant of an install run.
pub open spec fn install_wf(v: InstallView) -> bool {
    &&& v.events.len() > 0
    &&& v.last_progress == v.events.last().progress
    &&& v.last_progress <= 100
    &&& progress_non_decreasing(v.events)
    &&& (v.phase == InstallPhase::Completed) == (completed_count(v.events) == 1)
    &&& completed_count(v.events) <= 1
    &&& v.phase == InstallPhase::Completed ==> v.events.last() == ev(
        InstallStatus::Completed,
        100,
        msg_completed(),
    )
    &&& v.phase == InstallPhase::Failed ==> v.events.last().status == InstallStatus::Error
    &&& match v.phase {
        InstallPhase::Downloading { total: Some(t), .. } => t > 0,
        _ => true,
    }
}

proof fn lemma_emit_wf(v: InstallView, phase: InstallPhase, e: ProgressView)
    requires
        install_wf(v),
        v.phase != InstallPhase::Completed,
        v.last_progress <= e.progress <= 100,
        (phase == InstallPhase::Completed) == (e.status == InstallStatus::Completed),
        phase == InstallPhase::Completed ==> e == ev(InstallStatus::Completed, 100, msg_completed()),
        phase == InstallPhase::Failed ==> e.status == InstallStatus::Error,
        match phase {
            InstallPhase::Downloading { total: Some(t), .. } => t > 0,
            _ => true,
        },
    ensures
        install_wf(emit(v, phase, e)),
{
    let w = emit(v, phase, e);
    assert(w.events.drop_last() =~= v.events);
    assert(progress_non_decreasing(w.events)) by {
        assert forall|i: int, j: int| 0 <= i <= j < w.events.len() implies w.events[i].progress
            <= w.events[j].progress by {
            if j == w.events.len() - 1 && i < j {
                assert(v.events[i].progress <= v.events.last().progress);
            }
        }
    }
}

/// Every transition keeps the invariant.
pub proof fn lemma_install_step_wf(v: InstallView, input: InstallInput)
    requires
        install_wf(v),
    ensures
        install_wf(install_step(v, input)),
        v.events.is_prefix_of(install_step(v, input).events),
{
    let w = install_step(v, input);
    match (v.phase, input) {
        (InstallPhase::CreatingEnv, InstallInput::EnvCreated(res)) => {
            match res {
                Ok(_) => lemma_emit_wf(
                    v,
                    InstallPhase::StartingDownload,
                    ev(InstallStatus::Downloading, v.last_progress, msg_starting_download()),
                ),
                Err(e) => lemma_emit_wf(
                    v,
                    InstallPhase::Failed,
                    ev(InstallStatus::Error, v.last_progress, msg_env_failed() + e@),
                ),
            }
        },
        (InstallPhase::StartingDownload, InstallInput::DownloadStarted(res)) => {
            match res {
                Ok(_) => {},
                Err(e) => lemma_emit_wf(
                    v,
                    InstallPhase::Failed,
                    ev(InstallStatus::Error, v.last_progress, msg_request_failed() + e@),
                ),
            }
        },
        (InstallPhase::Downloading { total, downloaded }, InstallInput::ChunkWritten(res)) => {
            match res {
                Ok(n) => {
                    let d = sat_add(downloaded, n);
                    match total {
                        Some(t) => {
                            lemma_percent_bounded(d as nat, t as nat);
                            let p = percent_of(d as nat, t as nat);
                            if p > v.last_progress {
                                lemma_emit_wf(
                                    v,
                                    InstallPhase::Downloading { total, downloaded: d },
                                    ev(InstallStatus::Downloading, p as u64, msg_downloading()),
                                );
                            }
                        },
                        None => {},
                    }
                },
                Err(e) => lemma_emit_wf(
                    v,
                    InstallPhase::Failed,
                    ev(InstallStatus::Error, v.last_progress, msg_chunk_failed() + e@),
                ),
            }
        },
        (InstallPhase::Downloading { .. }, InstallInput::DownloadEnded) => {
            lemma_emit_wf(
                v,
                InstallPhase::InstallingDeps,
                ev(InstallStatus::InstallingDeps, v.last_progress, msg_installing_deps()),
            );
        },
        (InstallPhase::InstallingDeps, InstallInput::DepsInstalled(res)) => {
            match res {
                Ok(_) => lemma_emit_wf(
                    v,
                    InstallPhase::Completed,
                    ev(InstallStatus::Completed, 100, msg_completed()),
                ),
                Err(e) => lemma_emit_wf(
                    v,
                    InstallPhase::Failed,
                    ev(InstallStatus::Error, v.last_progress, msg_deps_failed() + e@),
                ),
            }
        },
        _ => {},
    }
    assert(v.events.is_prefix_of(w.events));
}

/// The run after each input in turn.
pub open spec fn install_run(v: InstallView, inputs: Seq<InstallInput>) -> InstallView
    decreases inputs.len(),
{
    if inputs.len() == 0 {
        v
    } else {
        install_step(install_run(v, inputs.drop_last()), inputs.last())
    }
}

/// Whatever the host reports, the progress values of one run never decrease,
/// earlier events are never changed, at most one `completed` event is
/// emitted, and a successful run ends with a `completed` event at 100.
pub proof fn lemma_progress_monotone(
    weights_present: bool,
    env_present: bool,
    inputs: Seq<InstallInput>,
)
    ensures
        ({
            let w = install_run(install_start(weights_present, env_present), inputs);
            &&& install_wf(w)
            &&& progress_non_decreasing(w.events)
            &&& install_start(weights_present, env_present).events.is_prefix_of(w.events)
            &&& completed_count(w.events) <= 1
            &&& w.phase == InstallPhase::Completed ==> w.events.last().progress == 100
                && w.events.last().status == InstallStatus::Completed
        }),
    decreases inputs.len(),
{
    let v0 = install_start(weights_present, env_present);
    lemma_start_wf(weights_present, env_present);
    if inputs.len() > 0 {
        lemma_progress_monotone(weights_present, env_present, inputs.drop_last());
        let prev = install_run(v0, inputs.drop_last());
        lemma_install_step_wf(prev, inputs.last());
        let w = install_run(v0, inputs);
        assert(v0.events =~= w.events.subrange(0, v0.events.len() as int)) by {
            assert(v0.events =~= prev.events.subrange(0, v0.events.len() as int));
            assert(prev.events =~= w.events.subrange(0, prev.events.len() as int));
        }
    } else {
        assert(v0.events =~= v0.events.subrange(0, v0.events.len() as int));
    }
}

/// A run begins in a state that meets the invariant.
pub proof fn lemma_start_wf(weights_present: bool, env_present: bool)
    ensures
        install_wf(install_start(weights_present, env_present)),
{
    let v0 = install_start(weights_present, env_present);
    assert(v0.events.drop_last() =~= Seq::<ProgressView>::empty());
    assert(completed_count(v0.events.drop_last()) == 0);
}

/// A completed run is final: no input changes it.
pub proof fn lemma_completed_is_final(v: InstallView, inputs: Seq<InstallInput>)
    requires
        v.phase == InstallPhase::Completed,
    ensures
        install_run(v, inputs) == v,
    decreases inputs.len(),
{
    if inputs.len() > 0 {
        lemma_completed_is_final(v, inputs.drop_last());
    }
}

/// Installing a model whose weights are already on disk emits exactly one
/// event, `completed` at 100, asks for no download or any other work, and
/// stays so whatever the host reports afterwards.
pub proof fn lemma_install_idempotent(env_present: bool, inputs: Seq<InstallInput>)
    ensures
        install_run(install_start(true, env_present), inputs).events == seq![
            ev(InstallStatus::Completed, 100, msg_completed()),
        ],
        action_of(install_run(install_start(true, env_present), inputs).phase)
            == InstallAction::Finish,
{
    lemma_completed_is_final(install_start(true, env_present), inputs);
}

fn event(status: InstallStatus, progress: u64, message: String) -> (r: ProgressEvent)
    ensures
        r@ == ev(status, progress, message@),
{
    ProgressEvent { status, progress, message }
}

fn prefixed(prefix: &str, err: &String) -> (r: String)
    ensures
        r@ == prefix@ + err@,
{
    let mut m = prefix.to_string();
    m.append(err.as_str());
    m
}

impl InstallSession {
    /// Begins a run, given whether the weights file and the dependency
    /// environment are already present.
    pub fn start(weights_present: bool, env_present: bool) -> (r: InstallSession)
        ensures
            r@ == install_start(weights_present, env_present),
            install_wf(r@),
    {
        let mut events: Vec<ProgressEvent> = Vec::new();
        let r = if weights_present {
            events.push(event(InstallStatus::Completed, 100, "Installation finished! Ready to Launch.".to_string()));
            InstallSession { phase: InstallPhase::Completed, last_progress: 100, events }
        } else if !env_present {
            events.push(event(InstallStatus::InstallingDeps, 0, "Creating virtual environment...".to_string()));
            InstallSession { phase: InstallPhase::CreatingEnv, last_progress: 0, events }
        } else {
            events.push(event(InstallStatus::Downloading, 0, "Starting download...".to_string()));
            InstallSession { phase: InstallPhase::StartingDownload, last_progress: 0, events }
        };
        assert(r@.events =~= install_start(weights_present, env_present).events);
        proof {
            lemma_start_wf(weights_present, env_present);
        }
        r
    }

    fn push_event(&mut self, phase: InstallPhase, e: ProgressEvent)
        ensures
            final(self)@ == emit(old(self)@, phase, e@),
    {
        self.phase = phase;
        self.last_progress = e.progress;
        self.events.push(e);
        assert(final(self)@.events =~= old(self)@.events.push(e@));
    }

    fn fail_with(&mut self, prefix: &str, err: &String)
        ensures
            final(self)@ == fail(old(self)@, prefix@, err@),
    {
        let progress = self.last_progress;
        self.push_event(InstallPhase::Failed, event(InstallStatus::Error, progress, prefixed(prefix, err)));
    }

    /// Takes the outcome of the host's last action.
    pub fn advance(&mut self, input: InstallInput)
        requires
            install_wf(old(self)@),
        ensures
            final(self)@ == install_step(old(self)@, input),
            install_wf(final(self)@),
    {
        proof {
            lemma_install_step_wf(self@, input);
        }
        match (self.phase, input) {
            (InstallPhase::CreatingEnv, InstallInput::EnvCreated(res)) => match res {
                Ok(_) => {
                    let progress = self.last_progress;
                    self.push_event(
                        InstallPhase::StartingDownload,
                        event(InstallStatus::Downloading, progress, "Starting download...".to_string()),
                    );
                },
                Err(e) => self.fail_with("Venv creation failed: ", &e),
            },
            (InstallPhase::StartingDownload, InstallInput::DownloadStarted(res)) => match res {
                Ok(len) => {
                    let total = match len {
                        Some(t) => if t > 0 {
                            Some(t)
                        } else {
                            None
                        },
                        None => None,
                    };
                    self.phase = InstallPhase::Downloading { total, downloaded: 0 };
                },
                Err(e) => self.fail_with("Failed to request model: ", &e),
            },
            (InstallPhase::Downloading { total, downloaded }, InstallInput::ChunkWritten(res)) => match res {
                Ok(n) => {
                    let d = if n > u64::MAX - downloaded {
                        u64::MAX
                    } else {
                        downloaded + n
                    };
                    let phase = InstallPhase::Downloading { total, downloaded: d };
                    match total {
                        Some(t) => {
                            let p = download_percent(d, t);
                            if p > self.last_progress {
                                self.push_event(
                                    phase,
                                    event(InstallStatus::Downloading, p, "Downloading model weights...".to_string()),
                                );
                            } else {
                                self.phase = phase;
                            }
                        },
                        None => {
                            self.phase = phase;
                        },
                    }
                },
                Err(e) => self.fail_with("Chunk error: ", &e),
            },
            (InstallPhase::Downloading { .. }, InstallInput::DownloadEnded) => {
                let progress = self.last_progress;
                self.push_event(
                    InstallPhase::InstallingDeps,
                    event(InstallStatus::InstallingDeps, progress, "Installing dependencies into venv...".to_string()),
                );
            },
            (InstallPhase::InstallingDeps, InstallInput::DepsInstalled(res)) => match res {
                Ok(_) => {
                    self.push_event(
                        InstallPhase::Completed,
                        event(InstallStatus::Completed, 100, "Installation finished! Ready to Launch.".to_string()),
                    );
                },
                Err(e) => self.fail_with("Dependency error: ", &e),
            },
            _ => {},
        }
    }

    /// What the host must do next.
    pub fn next_action(&self) -> (r: InstallAction)
        ensures
            r == action_of(self@.phase),
    {
        match self.phase {
            InstallPhase::CreatingEnv => InstallAction::CreateEnv,
            InstallPhase::StartingDownload => InstallAction::StartDownload,
            InstallPhase::Downloading { .. } => InstallAction::ReadChunk,
            InstallPhase::InstallingDeps => InstallAction::InstallDeps,
            InstallPhase::Completed => InstallAction::Finish,
            InstallPhase::Failed => InstallAction::Abort,
        }
    }

    /// Where the run stands.
    pub fn phase(&self) -> (r: InstallPhase)
        ensures
            r == self@.phase,
    {
        self.phase
    }

    /// The events emitted so far, oldest first.
    pub fn events(&self) -> (r: &Vec<ProgressEvent>)
        ensures
            r@.map_values(|e: ProgressEvent| e@) == self@.events,
    {
        &self.events
    }

    /// Number of events emitted so far.
    pub fn event_count(&self) -> (r: usize)
        ensures
            r == self@.events.len(),
    {
        self.events.len()
    }
}

/// Arguments for the package manager that installs `packages`, or `None`
/// when there is nothing to install.
pub fn pip_install_args(packages: &Vec<String>) -> (r: Option<Vec<String>>)
    ensures
        packages@.len() == 0 <==> r.is_none(),
        r matches Some(args) ==> args@.len() == packages@.len() + 1 && args@[0]@ == "install"@
            && forall|i: int| 0 <= i < packages@.len() ==> #[trigger] args@[i + 1]@ == packages@[i]@,
{
    if packages.len() == 0 {
        return None;
    }
    let mut args: Vec<String> = Vec::new();
    args.push("install".to_string());
    let mut i: usize = 0;
    while i < packages.len()
        invariant
            i <= packages@.len(),
            args@.len() == i + 1,
            args@[0]@ == "install"@,
            forall|j: int| 0 <= j < i ==> #[trigger] args@[j + 1]@ == packages@[j]@,
        decreases packages@.len() - i,
    {
        args.push(packages[i].clone());
        i += 1;
    }
    Some(args)
}

} // verus!
